use station::blockchains::{InternetComputer, InternetComputerNetwork, transfer_memo};
use station::config::{
    canister_config, canister_config_mut, write_canister_config, CanisterConfig, CanisterState,
    UserGroup,
};
use station::controllers::{ProposalController, UserGroupController, UserGroupService};
use station::model::{
    ProposalError, ProposalOperation, ProposalOperationType, ProposalStatus, VoteDecision,
};
use station::policy::{AccessPolicy, ProposalPolicy, QuorumRule, ResourceSpecifier, User};
use station::service::ProposalService;
use station::tools::{
    asset_http_path, blob_from_bytes, escape_hex_string, Args, ChangeCanister,
    ChangeExternalCanisterResourceTarget, RequestOperationInput,
};

#[test]
fn escape_hex_string_pairs_of_digits() {
    assert_eq!(escape_hex_string(""), "");
    assert_eq!(escape_hex_string("ab"), "\\ab");
    assert_eq!(escape_hex_string("abcdef"), "\\ab\\cd\\ef");
    assert_eq!(escape_hex_string("abc"), "\\ab\\c");
}

#[test]
fn blob_from_bytes_exact_values() {
    assert_eq!(blob_from_bytes(&[]), "");
    assert_eq!(blob_from_bytes(&[0x00]), "\\00");
    assert_eq!(blob_from_bytes(&[0xde, 0xad, 0xbe, 0xef]), "\\de\\ad\\be\\ef");
    assert_eq!(blob_from_bytes(&[0x0a, 0xf0]), "\\0a\\f0");
}

#[test]
fn asset_paths_get_a_leading_slash() {
    assert_eq!(asset_http_path("index.html"), "/index.html");
    assert_eq!(asset_http_path("css/site.css"), "/css/site.css");
}

#[test]
fn network_names_round_trip() {
    assert!(matches!(
        InternetComputerNetwork::from_str("mainnet"),
        Ok(InternetComputerNetwork::Mainnet)
    ));
    assert!(InternetComputerNetwork::from_str("testnet").is_err());
    assert!(InternetComputerNetwork::from_str("").is_err());
    assert_eq!(InternetComputerNetwork::Mainnet.as_str(), "mainnet");
}

#[test]
fn ledger_constants() {
    let adapter = InternetComputer::create(3);
    assert_eq!(adapter.transaction_fee(), 10_000);
    assert_eq!(adapter.decimals(), 8);
}

#[test]
fn subaccount_is_the_padded_account_id() {
    let adapter = InternetComputer::create(3);
    let sub = adapter.subaccount_from_wallet_account_id(0x0102030405060708090a0b0c0d0e0f10);
    assert_eq!(sub.len(), 32);
    assert_eq!(
        &sub[0..16],
        &[1, 2, 3, 4, 5, 6, 7, 8, 9, 10, 11, 12, 13, 14, 15, 16]
    );
    assert_eq!(&sub[16..32], &[0u8; 16]);
}

#[test]
fn wallet_account_address_is_a_checksummed_hex_id() {
    let adapter = InternetComputer::create(3);
    let address = adapter.wallet_account_address(7);
    assert_eq!(address.len(), 64);
    assert!(address.chars().all(|c| c.is_ascii_hexdigit()));
    let other = adapter.wallet_account_address(8);
    assert_ne!(address, other);
}

#[test]
fn memo_prefers_metadata_over_id_prefix() {
    assert_eq!(transfer_memo(Some(42), 0x0102030405060708090a0b0c0d0e0f10), 42);
    assert_eq!(
        transfer_memo(None, 0x0102030405060708090a0b0c0d0e0f10),
        0x0102030405060708
    );
}

#[test]
fn canister_config_round_trip() {
    let mut state = CanisterState::Uninitialized;
    write_canister_config(
        &mut state,
        CanisterConfig { owners: vec![1, 2], last_upgrade_timestamp: 7 },
    );
    assert_eq!(canister_config(&state).owners, vec![1, 2]);
    assert_eq!(canister_config(&state).last_upgrade_timestamp, 7);

    let config = canister_config_mut(&mut state);
    config.last_upgrade_timestamp = 9;
    assert_eq!(canister_config(&state).last_upgrade_timestamp, 9);
}

#[test]
fn operation_types_match_their_operations() {
    let cases: Vec<(ProposalOperation, ProposalOperationType)> = vec![
        (ProposalOperation::AddAccount(1), ProposalOperationType::AddAccount),
        (ProposalOperation::EditAccount(1), ProposalOperationType::EditAccount),
        (ProposalOperation::AddUser(1), ProposalOperationType::AddUser),
        (ProposalOperation::EditUser(1), ProposalOperationType::EditUser),
        (ProposalOperation::AddUserGroup(1), ProposalOperationType::AddUserGroup),
        (ProposalOperation::EditUserGroup(1), ProposalOperationType::EditUserGroup),
        (ProposalOperation::RemoveUserGroup(1), ProposalOperationType::RemoveUserGroup),
        (ProposalOperation::AddAccessPolicy(1), ProposalOperationType::AddAccessPolicy),
        (ProposalOperation::EditAccessPolicy(1), ProposalOperationType::EditAccessPolicy),
        (ProposalOperation::RemoveAccessPolicy(1), ProposalOperationType::RemoveAccessPolicy),
        (ProposalOperation::AddProposalPolicy(1), ProposalOperationType::AddProposalPolicy),
        (ProposalOperation::EditProposalPolicy(1), ProposalOperationType::EditProposalPolicy),
        (
            ProposalOperation::RemoveProposalPolicy(1),
            ProposalOperationType::RemoveProposalPolicy,
        ),
    ];
    for (operation, expected) in &cases {
        assert_eq!(ProposalOperationType::from(operation), *expected);
    }
}

#[test]
fn change_canister_request_mapping() {
    let named = ChangeCanister { canister: Some(12) };
    let input = named.into_create_request_input();
    assert_eq!(
        input.operation,
        RequestOperationInput::EditPermission(station::tools::EditPermissionOperationInput {
            target: ChangeExternalCanisterResourceTarget::Canister(12),
        })
    );

    let any = Args::Change(ChangeCanister { canister: None });
    let input = any.into_create_request_input();
    assert_eq!(
        input.operation,
        RequestOperationInput::EditPermission(station::tools::EditPermissionOperationInput {
            target: ChangeExternalCanisterResourceTarget::Any,
        })
    );
}

#[test]
fn user_group_controller_gates_reads() {
    let groups = UserGroupService {
        groups: vec![
            UserGroup { id: 1, name: String::from("operators") },
            UserGroup { id: 2, name: String::from("auditors") },
        ],
    };
    let access = vec![
        AccessPolicy {
            resource: ResourceSpecifier::ReadUserGroup,
            allowed_users: vec![9],
            allowed_groups: vec![],
        },
        AccessPolicy {
            resource: ResourceSpecifier::ListUserGroups,
            allowed_users: vec![9],
            allowed_groups: vec![],
        },
    ];
    let controller = UserGroupController::new(groups, access);
    let reader = User { id: 9, groups: vec![] };
    let outsider = User { id: 8, groups: vec![] };

    assert_eq!(controller.get_user_group(1, &reader).unwrap().name, "operators");
    assert!(matches!(
        controller.get_user_group(3, &reader),
        Err(ProposalError::NotFound)
    ));
    assert!(matches!(
        controller.get_user_group(1, &outsider),
        Err(ProposalError::Unauthorized)
    ));
    assert_eq!(controller.list_user_groups(&reader).unwrap().len(), 2);
    assert!(matches!(
        controller.list_user_groups(&outsider),
        Err(ProposalError::Unauthorized)
    ));
}

#[test]
fn proposal_controller_delegates_lifecycle() {
    let access = vec![
        AccessPolicy {
            resource: ResourceSpecifier::CreateProposal,
            allowed_users: vec![1, 2],
            allowed_groups: vec![],
        },
        AccessPolicy {
            resource: ResourceSpecifier::VoteOnProposal,
            allowed_users: vec![1, 2],
            allowed_groups: vec![],
        },
        AccessPolicy {
            resource: ResourceSpecifier::ReadProposal,
            allowed_users: vec![1, 2],
            allowed_groups: vec![],
        },
    ];
    let policies = vec![ProposalPolicy {
        operation_type: ProposalOperationType::AddUser,
        rule: QuorumRule { approvers: vec![1, 2], min_approved: 2 },
    }];
    let service = ProposalService::new(policies, access, 1000);
    let mut controller = ProposalController::new(service);
    let alice = User { id: 1, groups: vec![] };
    let bob = User { id: 2, groups: vec![] };

    assert!(controller.create_proposal(10, &alice, ProposalOperation::AddUser(5), 0).is_ok());
    assert_eq!(
        controller.create_proposal(10, &alice, ProposalOperation::AddUser(6), 1),
        Err(ProposalError::UnexpectedError)
    );
    assert!(controller.vote_on_proposal(10, &alice, VoteDecision::Approved, 1).is_ok());
    assert!(controller.vote_on_proposal(10, &bob, VoteDecision::Approved, 2).is_ok());
    let p = controller.get_proposal(10, &alice, 3).unwrap();
    assert_eq!(p.status, ProposalStatus::Adopted);
    assert_eq!(controller.events().len(), 2);
}
