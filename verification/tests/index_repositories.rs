use station::indexes::{
    ProposalAccountIndex, ProposalAccountIndexCriteria, ProposalAccountIndexRepository,
    ProposalExpirationTimeIndex, ProposalExpirationTimeIndexCriteria,
    ProposalExpirationTimeIndexRepository,
};
use station::model::{
    Proposal, ProposalOperation, ProposalStatus, TransferOperationContext,
};

fn mock_proposal(id: u128, operation: ProposalOperation) -> Proposal {
    Proposal {
        id,
        proposed_by: 1,
        operation,
        status: ProposalStatus::Created,
        votes: Vec::new(),
        created_timestamp: 0,
        expiration_dt: 100,
        execution_result: None,
    }
}

#[test]
fn test_repository_crud() {
    let mut repository = ProposalExpirationTimeIndexRepository::default();
    let index = ProposalExpirationTimeIndex {
        expiration_dt: 10,
        proposal_id: 0x01010101010101010101010101010101,
    };

    assert!(!repository.contains_index(&index));

    repository.insert(index);

    assert!(repository.contains_index(&index));
    assert!(repository.remove(&index));
    assert!(!repository.contains_index(&index));
}

#[test]
fn test_find_by_criteria() {
    let mut repository = ProposalExpirationTimeIndexRepository::default();
    let index = ProposalExpirationTimeIndex {
        expiration_dt: 10,
        proposal_id: 0x01010101010101010101010101010101,
    };

    repository.insert(index);
    repository.insert(ProposalExpirationTimeIndex {
        expiration_dt: 11,
        proposal_id: 0x02020202020202020202020202020202,
    });

    let criteria = ProposalExpirationTimeIndexCriteria { from_dt: None, to_dt: Some(10) };

    let result = repository.find_by_criteria(criteria);

    assert_eq!(result.len(), 1);
    assert!(result.contains(&index.proposal_id));
}

#[test]
fn expiration_range_scan_is_inclusive_and_sorted() {
    let mut repository = ProposalExpirationTimeIndexRepository::default();
    for (t, id) in [(5u64, 50u128), (10, 40), (10, 41), (15, 30), (20, 20)] {
        repository.insert(ProposalExpirationTimeIndex { expiration_dt: t, proposal_id: id });
    }
    let result = repository.find_by_criteria(ProposalExpirationTimeIndexCriteria {
        from_dt: Some(10),
        to_dt: Some(15),
    });
    assert_eq!(result, vec![40, 41, 30]);
}

#[test]
fn expiration_insert_is_set_like() {
    let mut repository = ProposalExpirationTimeIndexRepository::default();
    let index = ProposalExpirationTimeIndex { expiration_dt: 10, proposal_id: 9 };
    repository.insert(index);
    repository.insert(index);
    let result = repository
        .find_by_criteria(ProposalExpirationTimeIndexCriteria { from_dt: None, to_dt: None });
    assert_eq!(result, vec![9]);
    assert!(repository.remove(&index));
    assert!(!repository.remove(&index));
}

#[test]
fn expiration_sentinels_cover_extremes() {
    let mut repository = ProposalExpirationTimeIndexRepository::default();
    repository.insert(ProposalExpirationTimeIndex { expiration_dt: u64::MIN, proposal_id: 1 });
    repository.insert(ProposalExpirationTimeIndex { expiration_dt: u64::MAX, proposal_id: 2 });
    let all = repository
        .find_by_criteria(ProposalExpirationTimeIndexCriteria { from_dt: None, to_dt: None });
    assert_eq!(all, vec![1, 2]);
}

#[test]
fn correct_proposal_account_index_mapping() {
    let proposal = mock_proposal(
        0x01010101010101010101010101010101,
        ProposalOperation::Transfer(TransferOperationContext {
            account_id: 0,
            transfer_id: 0x01010101010101010101010101010101,
        }),
    );

    let index = proposal.to_index_for_account();

    assert!(index.is_some());
    let index = index.unwrap();
    assert_eq!(index.account_id, 0);
    assert_eq!(index.proposal_id, proposal.id);
    assert_eq!(index.created_at, proposal.created_timestamp);
}

#[test]
fn non_transfer_proposals_have_no_account_entry() {
    let proposal = mock_proposal(5, ProposalOperation::AddAccount(9));
    assert!(proposal.to_index_for_account().is_none());
}

#[test]
fn account_repository_crud() {
    let mut repository = ProposalAccountIndexRepository::default();
    let entry = ProposalAccountIndex { account_id: 7, created_at: 10, proposal_id: 99 };

    assert!(!repository.contains_index(&entry));
    repository.insert(entry);
    assert!(repository.contains_index(&entry));
    repository.insert(entry);
    assert_eq!(repository.items.len(), 1);
    assert!(repository.remove(&entry));
    assert!(!repository.contains_index(&entry));
    assert!(!repository.remove(&entry));
}

#[test]
fn account_find_by_criteria_filters_window_and_account() {
    let mut repository = ProposalAccountIndexRepository::default();
    repository.insert(ProposalAccountIndex { account_id: 7, created_at: 10, proposal_id: 1 });
    repository.insert(ProposalAccountIndex { account_id: 7, created_at: 20, proposal_id: 2 });
    repository.insert(ProposalAccountIndex { account_id: 8, created_at: 15, proposal_id: 3 });

    let result = repository.find_by_criteria(ProposalAccountIndexCriteria {
        account_id: 7,
        from_dt: Some(10),
        to_dt: Some(15),
    });
    assert_eq!(result, vec![1]);

    let unbounded = repository.find_by_criteria(ProposalAccountIndexCriteria {
        account_id: 7,
        from_dt: None,
        to_dt: None,
    });
    assert_eq!(unbounded, vec![1, 2]);
}
