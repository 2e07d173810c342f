//! The proposal lifecycle manager: an explicit store that owns the proposal
//! set, keeps every derived index in sync, authorizes callers, casts votes,
//! and applies the quorum-driven state transitions.

use vstd::prelude::*;
use vstd::pervasive::VecAdditionalExecFns;

use crate::indexes::{
    expiration_entries, spec_to_index_for_account, ProposalAccountIndexRepository,
    ProposalExpirationTimeIndex, ProposalExpirationTimeIndexRepository,
};
use crate::model::{
    spec_has_voted, spec_operation_type, unique_voters, ExecutionOutcome, Proposal, ProposalError,
    ProposalId, ProposalOperation, ProposalOperationType, ProposalStatus, ProposalVote, Timestamp,
    VoteDecision,
};
use crate::model::has_voted;
use crate::policy::{
    authorize, evaluate_quorum, resolve_policy, spec_authorize, spec_evaluate_quorum,
    spec_resolve_policy, AccessPolicy, ProposalPolicy, QuorumVerdict, ResourceSpecifier, User,
};

verus! {

/// A fact the notification trigger is told about; appended by the store at
/// creation and at each decision, and drained by the surrounding runtime.
#[derive(Clone, Copy, Debug, PartialEq, Eq, Structural)]
pub enum EngineEvent {
    ProposalCreated { id: ProposalId },
    ProposalDecided { id: ProposalId, status: ProposalStatus },
}

/// The request governance engine's store and entry points.
pub struct ProposalService {
    pub proposals: Vec<Proposal>,
    pub expiration_index: ProposalExpirationTimeIndexRepository,
    pub account_index: ProposalAccountIndexRepository,
    pub policies: Vec<ProposalPolicy>,
    pub access: Vec<AccessPolicy>,
    pub proposal_ttl: u64,
    pub events: Vec<EngineEvent>,
}

impl ProposalService {
    /// Well-formedness of the proposal set alone: identifiers are unique
    /// and every proposal is well formed.
    pub open spec fn proposals_wf(self) -> bool {
        &&& forall|i: int, j: int|
            0 <= i < j < self.proposals@.len() ==> self.proposals@[i].id != self.proposals@[j].id
        &&& forall|i: int| 0 <= i < self.proposals@.len() ==> (#[trigger] self.proposals@[i]).wf()
    }

    /// Well-formedness of the whole store: the proposal set is well formed
    /// and each index holds exactly the entries derived from it (no
    /// missing and no orphan entries).
    pub open spec fn wf(self) -> bool {
        &&& self.proposals_wf()
        &&& forall|i: int|
            0 <= i < self.proposals@.len() ==> expiration_entries(self.expiration_index).contains(
                ((#[trigger] self.proposals@[i]).expiration_dt, self.proposals@[i].id),
            )
        &&& forall|k: (u64, u128)| #[trigger]
            expiration_entries(self.expiration_index).contains(k) ==> exists|i: int|
                0 <= i < self.proposals@.len() && self.proposals@[i].id == k.1
                    && self.proposals@[i].expiration_dt == k.0
        &&& forall|i: int|
            0 <= i < self.proposals@.len() && spec_to_index_for_account(
                #[trigger] self.proposals@[i],
            ) is Some ==> self.account_index.has_entry(
                spec_to_index_for_account(self.proposals@[i])->Some_0,
            )
        &&& forall|e: crate::indexes::ProposalAccountIndex| #[trigger]
            self.account_index.has_entry(e) ==> exists|i: int|
                0 <= i < self.proposals@.len() && spec_to_index_for_account(self.proposals@[i])
                    == Some(e)
        &&& self.account_index.wf()
    }

    /// A proposal with this identifier is in the store.
    pub open spec fn spec_contains(self, id: ProposalId) -> bool {
        exists|i: int| 0 <= i < self.proposals@.len() && self.proposals@[i].id == id
    }

    /// Position of the proposal with this identifier.
    pub open spec fn spec_position(self, id: ProposalId) -> int {
        choose|i: int| 0 <= i < self.proposals@.len() && self.proposals@[i].id == id
    }

    /// The stored proposal with this identifier.
    pub open spec fn spec_proposal(self, id: ProposalId) -> Proposal {
        self.proposals@[self.spec_position(id)]
    }

    /// An empty store under the given configuration.
    pub fn new(
        policies: Vec<ProposalPolicy>,
        access: Vec<AccessPolicy>,
        proposal_ttl: u64,
    ) -> (r: Self)
        ensures
            r.wf(),
            r.proposals@ =~= Seq::<Proposal>::empty(),
            r.events@ =~= Seq::<EngineEvent>::empty(),
            r.policies@ == policies@,
            r.access@ == access@,
            r.proposal_ttl == proposal_ttl,
    {
        ProposalService {
            proposals: Vec::new(),
            expiration_index: ProposalExpirationTimeIndexRepository::default(),
            account_index: ProposalAccountIndexRepository::default(),
            policies,
            access,
            proposal_ttl,
            events: Vec::new(),
        }
    }

    /// Rebuilds every derived index from the proposal set alone. Index
    /// entries are derived and disposable, so a store whose indexes were
    /// lost or damaged is fully recovered by this pass.
    pub fn rebuild_indexes(&mut self)
        requires
            old(self).proposals_wf(),
        ensures
            final(self).wf(),
            final(self).proposals@ == old(self).proposals@,
            final(self).events@ == old(self).events@,
            final(self).policies@ == old(self).policies@,
            final(self).access@ == old(self).access@,
            final(self).proposal_ttl == old(self).proposal_ttl,
    {
        self.expiration_index = ProposalExpirationTimeIndexRepository::default();
        self.account_index = ProposalAccountIndexRepository::default();
        let ghost props = self.proposals@;
        let mut k: usize = 0;
        while k < self.proposals.len()
            invariant
                0 <= k <= self.proposals@.len(),
                self.proposals@ == props,
                props == old(self).proposals@,
                self.events@ == old(self).events@,
                self.policies@ == old(self).policies@,
                self.access@ == old(self).access@,
                self.proposal_ttl == old(self).proposal_ttl,
                self.account_index.wf(),
                forall|i: int|
                    0 <= i < k ==> expiration_entries(self.expiration_index).contains(
                        ((#[trigger] props[i]).expiration_dt, props[i].id),
                    ),
                forall|key: (u64, u128)| #[trigger]
                    expiration_entries(self.expiration_index).contains(key) ==> exists|i: int|
                        0 <= i < k && props[i].id == key.1 && props[i].expiration_dt == key.0,
                forall|i: int|
                    0 <= i < k && spec_to_index_for_account(#[trigger] props[i]) is Some
                        ==> self.account_index.has_entry(
                        spec_to_index_for_account(props[i])->Some_0,
                    ),
                forall|e: crate::indexes::ProposalAccountIndex| #[trigger]
                    self.account_index.has_entry(e) ==> exists|i: int|
                        0 <= i < k && spec_to_index_for_account(props[i]) == Some(e),
            decreases self.proposals@.len() - k,
        {
            let ghost pre_exp = self.expiration_index;
            let ghost pre_acct = self.account_index;
            let (expiration_dt, id) = {
                let p = &self.proposals[k];
                (p.expiration_dt, p.id)
            };
            self.expiration_index.insert(
                ProposalExpirationTimeIndex { expiration_dt, proposal_id: id },
            );
            let entry = {
                let p = &self.proposals[k];
                p.to_index_for_account()
            };
            if let Some(e) = entry {
                self.account_index.insert(e);
            }
            proof {
                assert forall|key: (u64, u128)| #[trigger]
                    expiration_entries(self.expiration_index).contains(key) implies exists|
                    i: int,
                |
                    0 <= i < k + 1 && props[i].id == key.1 && props[i].expiration_dt
                        == key.0 by {
                    if key == ((expiration_dt, id)) {
                        assert(props[k as int].id == key.1 && props[k as int].expiration_dt
                            == key.0);
                    } else {
                        assert(expiration_entries(pre_exp).contains(key));
                    }
                }
                assert forall|e: crate::indexes::ProposalAccountIndex| #[trigger]
                    self.account_index.has_entry(e) implies exists|i: int|
                    0 <= i < k + 1 && spec_to_index_for_account(props[i]) == Some(e) by {
                    if pre_acct.has_entry(e) {
                        let i = choose|i: int|
                            0 <= i < k && spec_to_index_for_account(props[i]) == Some(e);
                        assert(spec_to_index_for_account(props[i]) == Some(e));
                    } else {
                        assert(spec_to_index_for_account(props[k as int]) == Some(e));
                    }
                }
            }
            k = k + 1;
        }
    }

    fn position_of(&self, id: ProposalId) -> (r: Option<usize>)
        ensures
            match r {
                Some(k) => 0 <= k < self.proposals@.len() && self.proposals@[k as int].id == id,
                None => !self.spec_contains(id),
            },
    {
        let mut k: usize = 0;
        while k < self.proposals.len()
            invariant
                0 <= k <= self.proposals@.len(),
                forall|i: int| 0 <= i < k ==> self.proposals@[i].id != id,
            decreases self.proposals@.len() - k,
        {
            if self.proposals[k].id == id {
                return Some(k);
            }
            k = k + 1;
        }
        None
    }

    /// The expiration time a proposal created now receives: the creation
    /// time plus the configured time-to-live, capped at the clock's maximum.
    pub open spec fn spec_expiration(now: Timestamp, ttl: u64) -> Timestamp {
        if now + ttl <= u64::MAX {
            (now + ttl) as u64
        } else {
            u64::MAX
        }
    }

    /// Authorizes the proposer, assigns timestamps and the initial status,
    /// stores the proposal, writes every applicable index entry, and records
    /// the creation notification.
    pub fn create_proposal(
        &mut self,
        id: ProposalId,
        proposer: &User,
        operation: ProposalOperation,
        now: Timestamp,
    ) -> (r: Result<(), ProposalError>)
        requires
            old(self).wf(),
        ensures
            final(self).wf(),
            !spec_authorize(*proposer, ResourceSpecifier::CreateProposal, old(self).access@) ==> (
            r == Err::<(), ProposalError>(ProposalError::Unauthorized)
                && *final(self) == *old(self)),
            (spec_authorize(*proposer, ResourceSpecifier::CreateProposal, old(self).access@)
                && old(self).spec_contains(id)) ==> (
            r == Err::<(), ProposalError>(ProposalError::UnexpectedError)
                && *final(self) == *old(self)),
            (spec_authorize(*proposer, ResourceSpecifier::CreateProposal, old(self).access@)
                && !old(self).spec_contains(id)) ==> (
            r == Ok::<(), ProposalError>(())
                && final(self).proposals@.len() == old(self).proposals@.len() + 1
                && final(self).proposals@.drop_last() == old(self).proposals@
                && created_proposal_shape(
                    final(self).proposals@.last(),
                    id,
                    proposer.id,
                    operation,
                    now,
                    old(self).proposal_ttl,
                )
                && final(self).events@ == old(self).events@.push(EngineEvent::ProposalCreated { id })
                && final(self).policies@ == old(self).policies@
                && final(self).access@ == old(self).access@
                && final(self).proposal_ttl == old(self).proposal_ttl),
    {
        if !authorize(proposer, ResourceSpecifier::CreateProposal, &self.access) {
            return Err(ProposalError::Unauthorized);
        }
        if let Some(_k) = self.position_of(id) {
            return Err(ProposalError::UnexpectedError);
        }
        let expiration_dt: u64 = if now <= u64::MAX - self.proposal_ttl {
            now + self.proposal_ttl
        } else {
            u64::MAX
        };
        let p = Proposal {
            id,
            proposed_by: proposer.id,
            operation,
            status: ProposalStatus::Created,
            votes: Vec::new(),
            created_timestamp: now,
            expiration_dt,
            execution_result: None,
        };
        self.expiration_index.insert(
            ProposalExpirationTimeIndex { expiration_dt, proposal_id: id },
        );
        let account_entry = p.to_index_for_account();
        if let Some(e) = account_entry {
            self.account_index.insert(e);
        }
        let ghost orig = old(self).proposals@;
        self.proposals.push(p);
        self.events.push(EngineEvent::ProposalCreated { id });
        proof {
            let s = *self;
            assert forall|i: int|
                0 <= i < s.proposals@.len() implies expiration_entries(
                s.expiration_index,
            ).contains(((#[trigger] s.proposals@[i]).expiration_dt, s.proposals@[i].id)) by {
                if i < orig.len() {
                    assert(s.proposals@[i] == orig[i]);
                } else {
                    assert(s.proposals@[i] == s.proposals@.last());
                }
            }
            assert forall|k: (u64, u128)| #[trigger]
                expiration_entries(s.expiration_index).contains(k) implies exists|i: int|
                0 <= i < s.proposals@.len() && s.proposals@[i].id == k.1
                    && s.proposals@[i].expiration_dt == k.0 by {
                if k == ((expiration_dt, id)) {
                    assert(s.proposals@[orig.len() as int].id == k.1);
                    assert(s.proposals@[orig.len() as int].expiration_dt == k.0);
                } else {
                    let i = choose|i: int|
                        0 <= i < orig.len() && orig[i].id == k.1 && orig[i].expiration_dt == k.0;
                    assert(s.proposals@[i] == orig[i]);
                }
            }
            assert forall|i: int|
                0 <= i < s.proposals@.len() && spec_to_index_for_account(
                    #[trigger] s.proposals@[i],
                ) is Some implies s.account_index.has_entry(
                spec_to_index_for_account(s.proposals@[i])->Some_0,
            ) by {
                if i < orig.len() {
                    assert(s.proposals@[i] == orig[i]);
                }
            }
            assert forall|e: crate::indexes::ProposalAccountIndex| #[trigger]
                s.account_index.has_entry(e) implies exists|i: int|
                0 <= i < s.proposals@.len() && spec_to_index_for_account(s.proposals@[i]) == Some(
                    e,
                ) by {
                if old(self).account_index.has_entry(e) {
                    let i = choose|i: int|
                        0 <= i < orig.len() && spec_to_index_for_account(orig[i]) == Some(e);
                    assert(s.proposals@[i] == orig[i]);
                } else {
                    assert(spec_to_index_for_account(s.proposals@[orig.len() as int]) == Some(e));
                }
            }
            assert forall|i: int, j: int|
                0 <= i < j < s.proposals@.len() implies s.proposals@[i].id
                != s.proposals@[j].id by {
                if j < orig.len() {
                    assert(s.proposals@[i] == orig[i] && s.proposals@[j] == orig[j]);
                } else {
                    assert(s.proposals@[i] == orig[i]);
                    assert(s.proposals@[j].id == id);
                }
            }
        }
        Ok(())
    }

    /// Casts a vote. Fails with `NotFound` for an unknown identifier,
    /// `AlreadyDecided` once the proposal has left `Created` (forcing the
    /// lazy expiry transition first), `DuplicateVote` for a voter who
    /// already voted, and `Unauthorized` for a caller without the vote
    /// permission. On success the vote is appended, the quorum re-evaluated,
    /// and the `Created -> Adopted/Rejected` transition applied with its
    /// decision notification.
    pub fn vote_on_proposal(
        &mut self,
        id: ProposalId,
        voter: &User,
        decision: VoteDecision,
        now: Timestamp,
    ) -> (r: Result<(), ProposalError>)
        requires
            old(self).wf(),
        ensures
            final(self).wf(),
            !old(self).spec_contains(id) ==> (r == Err::<(), ProposalError>(ProposalError::NotFound)
                && *final(self) == *old(self)),
            old(self).spec_contains(id) ==> vote_post(
                *old(self),
                *final(self),
                id,
                *voter,
                decision,
                now,
                r,
            ),
    {
        let pos = match self.position_of(id) {
            None => {
                return Err(ProposalError::NotFound);
            },
            Some(k) => k,
        };
        let ghost pre = *self;
        proof {
            assert(pre.spec_contains(id));
            let cp = pre.spec_position(id);
            assert(0 <= cp < pre.proposals@.len() && pre.proposals@[cp].id == id);
            if cp != pos as int {
                assert(pre.proposals@[cp].id != pre.proposals@[pos as int].id);
            }
            assert(pre.spec_position(id) == pos as int);
        }
        let ghost p_old = pre.proposals@[pos as int];
        let expired = {
            let p = &self.proposals[pos];
            matches!(p.status, ProposalStatus::Created) && now > p.expiration_dt
        };
        if expired {
            let mut p = placeholder_proposal();
            self.proposals.set_and_swap(pos, &mut p);
            p.status = ProposalStatus::Expired;
            self.proposals.set_and_swap(pos, &mut p);
            proof {
                assert(self.proposals@ =~= pre.proposals@.update(
                    pos as int,
                    (Proposal { status: ProposalStatus::Expired, ..p_old }),
                ));
                lemma_wf_update_same_key(pre, *self, pos as int);
            }
            return Err(ProposalError::AlreadyDecided);
        }
        let not_created = {
            let p = &self.proposals[pos];
            !matches!(p.status, ProposalStatus::Created)
        };
        if not_created {
            return Err(ProposalError::AlreadyDecided);
        }
        let dup = {
            let p = &self.proposals[pos];
            has_voted(&p.votes, voter.id)
        };
        if dup {
            return Err(ProposalError::DuplicateVote);
        }
        if !authorize(voter, ResourceSpecifier::VoteOnProposal, &self.access) {
            return Err(ProposalError::Unauthorized);
        }
        let vote = ProposalVote { user_id: voter.id, decision, decided_dt: now };
        let mut p = placeholder_proposal();
        self.proposals.set_and_swap(pos, &mut p);
        p.votes.push(vote);
        proof {
            assert forall|i: int, j: int|
                0 <= i < j < p.votes@.len() implies p.votes@[i].user_id
                != p.votes@[j].user_id by {
                if j == p.votes@.len() - 1 {
                    assert(p.votes@[i] == p_old.votes@[i]);
                    assert(!spec_has_voted(p_old.votes@, voter.id));
                }
            }
        }
        let t = ProposalOperationType::from(&p.operation);
        let rp = resolve_policy(&self.policies, t);
        proof {
            let srp = spec_resolve_policy(pre.policies@, spec_operation_type(p_old.operation));
            match rp {
                Some(pi) => {
                    assert(exists|i: int|
                        0 <= i < pre.policies@.len() && pre.policies@[i].operation_type == t);
                    let ci = choose|i: int|
                        0 <= i < pre.policies@.len() && pre.policies@[i].operation_type == t
                            && forall|j: int| 0 <= j < i ==> pre.policies@[j].operation_type != t;
                    assert(srp == Some(ci));
                    assert(ci == pi as int);
                },
                None => {
                    assert(srp is None);
                },
            }
        }
        let verdict = match rp {
            Some(pi) => evaluate_quorum(&self.policies[pi].rule, &p.votes),
            None => QuorumVerdict::Pending,
        };
        match verdict {
            QuorumVerdict::Satisfied => {
                p.status = ProposalStatus::Adopted;
            },
            QuorumVerdict::Unsatisfiable => {
                p.status = ProposalStatus::Rejected;
            },
            QuorumVerdict::Pending => {},
        }
        let decided = !matches!(p.status, ProposalStatus::Created);
        let new_status = p.status;
        self.proposals.set_and_swap(pos, &mut p);
        if decided {
            self.events.push(EngineEvent::ProposalDecided { id, status: new_status });
        }
        proof {
            assert(self.proposals@ =~= pre.proposals@.update(
                pos as int,
                self.proposals@[pos as int],
            ));
            lemma_wf_update_same_key(pre, *self, pos as int);
            assert(self.proposals@[pos as int].status == spec_vote_outcome(
                pre.policies@,
                p_old.operation,
                p_old.votes@.push(vote),
            ));
        }
        Ok(())
    }

    /// Authorization-gated read of one proposal; forces the lazy expiry
    /// transition before answering, so a caller never observes a proposal
    /// that should already count as expired.
    pub fn get_proposal(&mut self, id: ProposalId, caller: &User, now: Timestamp) -> (r: Result<
        &Proposal,
        ProposalError,
    >)
        requires
            old(self).wf(),
        ensures
            final(self).wf(),
            !spec_authorize(*caller, ResourceSpecifier::ReadProposal, old(self).access@) ==> (r
                is Err && r->Err_0 == ProposalError::Unauthorized && *final(self) == *old(self)),
            (spec_authorize(*caller, ResourceSpecifier::ReadProposal, old(self).access@) && !old(self).spec_contains(id)) ==> (r is Err && r->Err_0 == ProposalError::NotFound && *final(self) == *old(self)),
            (spec_authorize(*caller, ResourceSpecifier::ReadProposal, old(self).access@) && old(self).spec_contains(id)) ==> ({
                let p_old = old(self).spec_proposal(id);
                let expired = p_old.status is Created && now > p_old.expiration_dt;
                &&& (expired ==> expired_post(*old(self), *final(self), id))
                &&& (!expired ==> *final(self) == *old(self))
                &&& r is Ok
                &&& *r->Ok_0 == final(self).spec_proposal(id)
                &&& final(self).spec_contains(id)
            }),
    {
        if !authorize(caller, ResourceSpecifier::ReadProposal, &self.access) {
            return Err(ProposalError::Unauthorized);
        }
        let pos = match self.position_of(id) {
            None => {
                return Err(ProposalError::NotFound);
            },
            Some(k) => k,
        };
        let ghost pre = *self;
        proof {
            lemma_position_unique(pre, pos as int);
        }
        let ghost p_old = pre.proposals@[pos as int];
        let expired = {
            let p = &self.proposals[pos];
            matches!(p.status, ProposalStatus::Created) && now > p.expiration_dt
        };
        if expired {
            let mut p = placeholder_proposal();
            self.proposals.set_and_swap(pos, &mut p);
            p.status = ProposalStatus::Expired;
            self.proposals.set_and_swap(pos, &mut p);
            proof {
                assert(self.proposals@ =~= pre.proposals@.update(
                    pos as int,
                    (Proposal { status: ProposalStatus::Expired, ..p_old }),
                ));
                lemma_wf_update_same_key(pre, *self, pos as int);
                lemma_position_unique(*self, pos as int);
            }
        } else {
            proof {
                lemma_position_unique(*self, pos as int);
            }
        }
        Ok(&self.proposals[pos])
    }

    /// Authorization-gated listing: all proposal identifiers whose
    /// expiration time lies in the criteria window, answered by a range scan
    /// of the expiration-time index rather than a scan of the proposal set.
    pub fn list_proposals(
        &self,
        caller: &User,
        criteria: crate::indexes::ProposalExpirationTimeIndexCriteria,
    ) -> (r: Result<Vec<ProposalId>, ProposalError>)
        requires
            self.wf(),
        ensures
            !spec_authorize(*caller, ResourceSpecifier::ReadProposal, self.access@) ==> (r is Err
                && r->Err_0 == ProposalError::Unauthorized),
            spec_authorize(*caller, ResourceSpecifier::ReadProposal, self.access@) ==> (r is Ok
                && r->Ok_0@.no_duplicates() && forall|id: ProposalId| #[trigger]
                r->Ok_0@.contains(id) <==> (self.spec_contains(id) && crate::indexes::criteria_from(
                    criteria,
                ) <= self.spec_proposal(id).expiration_dt && self.spec_proposal(id).expiration_dt
                    <= crate::indexes::criteria_to(criteria))),
    {
        if !authorize(caller, ResourceSpecifier::ReadProposal, &self.access) {
            return Err(ProposalError::Unauthorized);
        }
        let ids = self.expiration_index.find_by_criteria(criteria);
        proof {
            assert forall|id: ProposalId| #[trigger]
                ids@.contains(id) implies (self.spec_contains(id) && crate::indexes::criteria_from(
                criteria,
            ) <= self.spec_proposal(id).expiration_dt && self.spec_proposal(id).expiration_dt
                <= crate::indexes::criteria_to(criteria)) by {
                let t = choose|t: Timestamp|
                    self.expiration_index.entries().contains((t, id))
                        && crate::indexes::criteria_from(criteria) <= t && t
                        <= crate::indexes::criteria_to(criteria);
                let i = choose|i: int|
                    0 <= i < self.proposals@.len() && self.proposals@[i].id == id
                        && self.proposals@[i].expiration_dt == t;
                lemma_position_unique(*self, i);
            }
            assert forall|id: ProposalId|
                (self.spec_contains(id) && crate::indexes::criteria_from(criteria)
                    <= self.spec_proposal(id).expiration_dt && self.spec_proposal(
                    id,
                ).expiration_dt <= crate::indexes::criteria_to(criteria)) implies #[trigger]
                ids@.contains(id) by {
                let i = self.spec_position(id);
                assert(self.expiration_index.entries().contains(
                    (self.proposals@[i].expiration_dt, id),
                ));
            }
        }
        Ok(ids)
    }

    /// Authorization-gated listing of transfer proposals touching one
    /// account within a creation-time window, answered from the account
    /// index.
    pub fn list_account_proposals(
        &self,
        caller: &User,
        criteria: crate::indexes::ProposalAccountIndexCriteria,
    ) -> (r: Result<Vec<ProposalId>, ProposalError>)
        requires
            self.wf(),
        ensures
            !spec_authorize(*caller, ResourceSpecifier::ReadProposal, self.access@) ==> (r is Err
                && r->Err_0 == ProposalError::Unauthorized),
            spec_authorize(*caller, ResourceSpecifier::ReadProposal, self.access@) ==> (r is Ok
                && r->Ok_0@.no_duplicates() && forall|id: ProposalId| #[trigger]
                r->Ok_0@.contains(id) <==> (self.spec_contains(id) && spec_to_index_for_account(
                    self.spec_proposal(id),
                ) is Some && crate::indexes::account_matches(
                    spec_to_index_for_account(self.spec_proposal(id))->Some_0,
                    criteria,
                ))),
    {
        if !authorize(caller, ResourceSpecifier::ReadProposal, &self.access) {
            return Err(ProposalError::Unauthorized);
        }
        let ids = self.account_index.find_by_criteria(criteria);
        proof {
            assert forall|id: ProposalId| #[trigger]
                ids@.contains(id) implies (self.spec_contains(id) && spec_to_index_for_account(
                self.spec_proposal(id),
            ) is Some && crate::indexes::account_matches(
                spec_to_index_for_account(self.spec_proposal(id))->Some_0,
                criteria,
            )) by {
                let e = choose|e: crate::indexes::ProposalAccountIndex|
                    self.account_index.has_entry(e) && crate::indexes::account_matches(e, criteria)
                        && e.proposal_id == id;
                let i = choose|i: int|
                    0 <= i < self.proposals@.len() && spec_to_index_for_account(self.proposals@[i])
                        == Some(e);
                assert(self.proposals@[i].id == e.proposal_id);
                lemma_position_unique(*self, i);
            }
            assert forall|id: ProposalId|
                (self.spec_contains(id) && spec_to_index_for_account(
                    self.spec_proposal(id),
                ) is Some && crate::indexes::account_matches(
                    spec_to_index_for_account(self.spec_proposal(id))->Some_0,
                    criteria,
                )) implies #[trigger] ids@.contains(id) by {
                let i = self.spec_position(id);
                let e = spec_to_index_for_account(self.proposals@[i])->Some_0;
                assert(self.account_index.has_entry(e));
                assert(e.proposal_id == id);
            }
        }
        Ok(ids)
    }

    /// Listing fallback for a filter that no index covers: a full scan of
    /// the proposal set with in-memory filtering by status.
    pub fn list_proposals_by_status(&self, caller: &User, status: ProposalStatus) -> (r: Result<
        Vec<ProposalId>,
        ProposalError,
    >)
        requires
            self.wf(),
        ensures
            !spec_authorize(*caller, ResourceSpecifier::ReadProposal, self.access@) ==> (r is Err
                && r->Err_0 == ProposalError::Unauthorized),
            spec_authorize(*caller, ResourceSpecifier::ReadProposal, self.access@) ==> (r is Ok
                && r->Ok_0@.no_duplicates() && forall|id: ProposalId| #[trigger]
                r->Ok_0@.contains(id) <==> (self.spec_contains(id) && self.spec_proposal(
                    id,
                ).status == status)),
    {
        if !authorize(caller, ResourceSpecifier::ReadProposal, &self.access) {
            return Err(ProposalError::Unauthorized);
        }
        let mut r: Vec<ProposalId> = Vec::new();
        let mut k: usize = 0;
        while k < self.proposals.len()
            invariant
                0 <= k <= self.proposals@.len(),
                self.wf(),
                r@.no_duplicates(),
                forall|id: ProposalId| #[trigger]
                    r@.contains(id) <==> (exists|i: int|
                        0 <= i < k && self.proposals@[i].id == id && self.proposals@[i].status
                            == status),
            decreases self.proposals@.len() - k,
        {
            let p = &self.proposals[k];
            let ghost prev = r@;
            if p.status == status {
                proof {
                    if prev.contains(p.id) {
                        let i = choose|i: int|
                            0 <= i < k && self.proposals@[i].id == p.id
                                && self.proposals@[i].status == status;
                        assert(self.proposals@[i].id != self.proposals@[k as int].id);
                    }
                }
                r.push(p.id);
            }
            proof {
                assert forall|id: ProposalId| #[trigger] r@.contains(id) implies (exists|i: int|
                    0 <= i < k + 1 && self.proposals@[i].id == id && self.proposals@[i].status
                        == status) by {
                    let j = choose|j: int| 0 <= j < r@.len() && r@[j] == id;
                    if j < prev.len() {
                        assert(prev[j] == id);
                        assert(prev.contains(id));
                    } else {
                        assert(self.proposals@[k as int].id == id);
                        assert(self.proposals@[k as int].status == status);
                    }
                }
                assert forall|id: ProposalId|
                    (exists|i: int|
                        0 <= i < k + 1 && self.proposals@[i].id == id && self.proposals@[i].status
                            == status) implies #[trigger] r@.contains(id) by {
                    let i = choose|i: int|
                        0 <= i < k + 1 && self.proposals@[i].id == id && self.proposals@[i].status
                            == status;
                    if i < k {
                        assert(prev.contains(id));
                        let j = choose|j: int| 0 <= j < prev.len() && prev[j] == id;
                        assert(r@[j] == id);
                    } else {
                        assert(r@.last() == id);
                    }
                }
            }
            k = k + 1;
        }
        proof {
            assert forall|id: ProposalId| #[trigger] r@.contains(id) implies (self.spec_contains(
                id,
            ) && self.spec_proposal(id).status == status) by {
                let i = choose|i: int|
                    0 <= i < self.proposals@.len() && self.proposals@[i].id == id
                        && self.proposals@[i].status == status;
                lemma_position_unique(*self, i);
            }
            assert forall|id: ProposalId|
                (self.spec_contains(id) && self.spec_proposal(id).status
                    == status) implies #[trigger] r@.contains(id) by {
                let i = self.spec_position(id);
            }
        }
        Ok(r)
    }

    /// Hands an adopted proposal to the executor: the one permitted
    /// `Adopted -> Executing` transition, taken at most once per proposal
    /// because any other current status is refused.
    pub fn begin_execution(&mut self, id: ProposalId) -> (r: Result<(), ProposalError>)
        requires
            old(self).wf(),
        ensures
            final(self).wf(),
            !old(self).spec_contains(id) ==> (r == Err::<(), ProposalError>(ProposalError::NotFound)
                && *final(self) == *old(self)),
            (old(self).spec_contains(id) && !(old(self).spec_proposal(id).status is Adopted)) ==> (
            r == Err::<(), ProposalError>(ProposalError::UnexpectedError) && *final(self) == *old(self)),
            (old(self).spec_contains(id) && old(self).spec_proposal(id).status is Adopted) ==> (r
                == Ok::<(), ProposalError>(()) && status_update_post(
                *old(self),
                *final(self),
                id,
                ProposalStatus::Executing,
                old(self).spec_proposal(id).execution_result,
            )),
    {
        let pos = match self.position_of(id) {
            None => {
                return Err(ProposalError::NotFound);
            },
            Some(k) => k,
        };
        let ghost pre = *self;
        proof {
            lemma_position_unique(pre, pos as int);
        }
        let ghost p_old = pre.proposals@[pos as int];
        let adopted = {
            let p = &self.proposals[pos];
            matches!(p.status, ProposalStatus::Adopted)
        };
        if !adopted {
            return Err(ProposalError::UnexpectedError);
        }
        let mut p = placeholder_proposal();
        self.proposals.set_and_swap(pos, &mut p);
        p.status = ProposalStatus::Executing;
        self.proposals.set_and_swap(pos, &mut p);
        proof {
            assert(self.proposals@ =~= pre.proposals@.update(
                pos as int,
                (Proposal { status: ProposalStatus::Executing, ..p_old }),
            ));
            lemma_wf_update_same_key(pre, *self, pos as int);
        }
        Ok(())
    }

    /// Records the outcome of an execution attempt: `Executing` moves to
    /// `Completed` on success and to `Failed` otherwise, and the outcome is
    /// stored as the execution result.
    pub fn finish_execution(&mut self, id: ProposalId, outcome: ExecutionOutcome) -> (r: Result<
        (),
        ProposalError,
    >)
        requires
            old(self).wf(),
        ensures
            final(self).wf(),
            !old(self).spec_contains(id) ==> (r == Err::<(), ProposalError>(ProposalError::NotFound)
                && *final(self) == *old(self)),
            (old(self).spec_contains(id) && !(old(self).spec_proposal(id).status is Executing))
                ==> (r == Err::<(), ProposalError>(ProposalError::UnexpectedError) && *final(self)
                == *old(self)),
            (old(self).spec_contains(id) && old(self).spec_proposal(id).status is Executing) ==> (r
                == Ok::<(), ProposalError>(()) && status_update_post(
                *old(self),
                *final(self),
                id,
                if outcome is Succeeded {
                    ProposalStatus::Completed
                } else {
                    ProposalStatus::Failed
                },
                Some(outcome),
            )),
    {
        let pos = match self.position_of(id) {
            None => {
                return Err(ProposalError::NotFound);
            },
            Some(k) => k,
        };
        let ghost pre = *self;
        proof {
            lemma_position_unique(pre, pos as int);
        }
        let ghost p_old = pre.proposals@[pos as int];
        let executing = {
            let p = &self.proposals[pos];
            matches!(p.status, ProposalStatus::Executing)
        };
        if !executing {
            return Err(ProposalError::UnexpectedError);
        }
        let mut p = placeholder_proposal();
        self.proposals.set_and_swap(pos, &mut p);
        p.status = if matches!(outcome, ExecutionOutcome::Succeeded) {
            ProposalStatus::Completed
        } else {
            ProposalStatus::Failed
        };
        p.execution_result = Some(outcome);
        self.proposals.set_and_swap(pos, &mut p);
        proof {
            assert(self.proposals@ =~= pre.proposals@.update(
                pos as int,
                self.proposals@[pos as int],
            ));
            lemma_wf_update_same_key(pre, *self, pos as int);
        }
        Ok(())
    }

    /// Removes a proposal and every index entry derived from it; tells
    /// whether it was present. Afterwards no index holds an entry for it.
    pub fn remove_proposal(&mut self, id: ProposalId) -> (r: bool)
        requires
            old(self).wf(),
        ensures
            final(self).wf(),
            r == old(self).spec_contains(id),
            forall|x: ProposalId| #[trigger]
                final(self).spec_contains(x) <==> (old(self).spec_contains(x) && x != id),
            forall|x: ProposalId|
                x != id && old(self).spec_contains(x) ==> #[trigger] final(self).spec_proposal(x)
                    == old(self).spec_proposal(x),
            final(self).events@ == old(self).events@,
            final(self).policies@ == old(self).policies@,
            final(self).access@ == old(self).access@,
            final(self).proposal_ttl == old(self).proposal_ttl,
    {
        let pos = match self.position_of(id) {
            None => {
                return false;
            },
            Some(k) => k,
        };
        let ghost pre = *self;
        proof {
            lemma_position_unique(pre, pos as int);
        }
        let ghost p_old = pre.proposals@[pos as int];
        let expiration_dt = {
            let p = &self.proposals[pos];
            p.expiration_dt
        };
        let acct = {
            let p = &self.proposals[pos];
            p.to_index_for_account()
        };
        let _removed = self.proposals.swap_remove(pos);
        self.expiration_index.remove(
            &ProposalExpirationTimeIndex { expiration_dt, proposal_id: id },
        );
        if let Some(e) = acct {
            self.account_index.remove(&e);
        }
        proof {
            lemma_remove_proposal_wf(pre, *self, pos as int);
        }
        true
    }
}

/// Position, membership and lookup agree on a stored proposal when the
/// store is well formed: each identifier occurs at exactly one position.
pub proof fn lemma_position_unique(s: ProposalService, i: int)
    requires
        s.wf(),
        0 <= i < s.proposals@.len(),
    ensures
        s.spec_contains(s.proposals@[i].id),
        s.spec_position(s.proposals@[i].id) == i,
        s.spec_proposal(s.proposals@[i].id) == s.proposals@[i],
{
    let id = s.proposals@[i].id;
    assert(s.spec_contains(id));
    let cp = s.spec_position(id);
    assert(0 <= cp < s.proposals@.len() && s.proposals@[cp].id == id);
    if cp != i {
        assert(s.proposals@[cp].id != s.proposals@[i].id);
    }
}

/// Relation between the store before and after one proposal's status (and
/// possibly execution result) is replaced: nothing else moves.
pub open spec fn status_update_post(
    pre: ProposalService,
    post: ProposalService,
    id: ProposalId,
    status: ProposalStatus,
    outcome: Option<ExecutionOutcome>,
) -> bool {
    let pos = pre.spec_position(id);
    let p_old = pre.proposals@[pos];
    &&& post.proposals@ == pre.proposals@.update(
        pos,
        (Proposal { status, execution_result: outcome, ..p_old }),
    )
    &&& post.expiration_index == pre.expiration_index
    &&& post.account_index == pre.account_index
    &&& post.events@ == pre.events@
    &&& post.policies@ == pre.policies@
    &&& post.access@ == pre.access@
    &&& post.proposal_ttl == pre.proposal_ttl
}

/// Removing one proposal together with its index entries preserves the
/// store invariant: the identifier keys make every index entry unique to
/// its proposal, so taking out that proposal's entries leaves no orphan and
/// removes nothing that another proposal still needs.
proof fn lemma_remove_proposal_wf(pre: ProposalService, post: ProposalService, pos: int)
    requires
        pre.wf(),
        0 <= pos < pre.proposals@.len(),
        post.proposals@ == pre.proposals@.update(pos, pre.proposals@.last()).drop_last(),
        expiration_entries(post.expiration_index) == expiration_entries(
            pre.expiration_index,
        ).remove((pre.proposals@[pos].expiration_dt, pre.proposals@[pos].id)),
        spec_to_index_for_account(pre.proposals@[pos]) is Some ==> (post.account_index.wf()
            && forall|x: crate::indexes::ProposalAccountIndex| #[trigger]
            post.account_index.has_entry(x) <==> (pre.account_index.has_entry(x) && x
                != spec_to_index_for_account(pre.proposals@[pos])->Some_0)),
        spec_to_index_for_account(pre.proposals@[pos]) is None ==> post.account_index
            == pre.account_index,
    ensures
        post.wf(),
        forall|x: ProposalId| #[trigger]
            post.spec_contains(x) <==> (pre.spec_contains(x) && x != pre.proposals@[pos].id),
        forall|x: ProposalId|
            x != pre.proposals@[pos].id && pre.spec_contains(x) ==> #[trigger] post.spec_proposal(
                x,
            ) == pre.spec_proposal(x),
{
    let removed = pre.proposals@[pos];
    let id = removed.id;
    let n = pre.proposals@.len() as int;
    assert(post.proposals@.len() == n - 1);
    assert forall|j: int| 0 <= j < n - 1 implies #[trigger] post.proposals@[j] == (if j == pos {
        pre.proposals@[n - 1]
    } else {
        pre.proposals@[j]
    }) by {}
    assert forall|j: int| 0 <= j < n && j != pos implies pre.proposals@[j].id != id by {
        if j < pos {
            assert(pre.proposals@[j].id != pre.proposals@[pos].id);
        }
    }
    assert forall|x: ProposalId| #[trigger]
        post.spec_contains(x) implies (pre.spec_contains(x) && x != id) by {
        let j = choose|j: int| 0 <= j < post.proposals@.len() && post.proposals@[j].id == x;
        if j == pos {
            assert(pre.proposals@[n - 1].id == x);
        } else {
            assert(pre.proposals@[j].id == x);
        }
    }
    assert forall|x: ProposalId| (pre.spec_contains(x) && x != id) implies #[trigger]
        post.spec_contains(x) by {
        let j = choose|j: int| 0 <= j < n && pre.proposals@[j].id == x;
        if j == n - 1 {
            if pos < n - 1 {
                assert(post.proposals@[pos].id == x);
            }
        } else if j == pos {
        } else {
            assert(post.proposals@[j].id == x);
        }
    }
    assert forall|i: int, j: int|
        0 <= i < j < post.proposals@.len() implies post.proposals@[i].id
        != post.proposals@[j].id by {
        let a: int = if i == pos {
            n - 1
        } else {
            i
        };
        let b: int = if j == pos {
            n - 1
        } else {
            j
        };
        assert(post.proposals@[i] == pre.proposals@[a]);
        assert(post.proposals@[j] == pre.proposals@[b]);
        if a < b {
            assert(pre.proposals@[a].id != pre.proposals@[b].id);
        } else {
            assert(pre.proposals@[b].id != pre.proposals@[a].id);
        }
    }
    assert forall|i: int|
        0 <= i < post.proposals@.len() implies expiration_entries(
        post.expiration_index,
    ).contains(((#[trigger] post.proposals@[i]).expiration_dt, post.proposals@[i].id)) by {
        let a: int = if i == pos {
            n - 1
        } else {
            i
        };
        assert(post.proposals@[i] == pre.proposals@[a]);
        assert(a != pos ==> pre.proposals@[a].id != id);
        assert(expiration_entries(pre.expiration_index).contains(
            (pre.proposals@[a].expiration_dt, pre.proposals@[a].id),
        ));
    }
    assert forall|k: (u64, u128)| #[trigger]
        expiration_entries(post.expiration_index).contains(k) implies exists|i: int|
        0 <= i < post.proposals@.len() && post.proposals@[i].id == k.1
            && post.proposals@[i].expiration_dt == k.0 by {
        let j = choose|j: int|
            0 <= j < n && pre.proposals@[j].id == k.1 && pre.proposals@[j].expiration_dt == k.0;
        assert(k.1 != id);
        assert(j != pos);
        if j == n - 1 {
            assert(pos < n - 1);
            assert(post.proposals@[pos].id == k.1 && post.proposals@[pos].expiration_dt == k.0);
        } else {
            assert(post.proposals@[j].id == k.1 && post.proposals@[j].expiration_dt == k.0);
        }
    }
    assert forall|p: Proposal, e: crate::indexes::ProposalAccountIndex|
        spec_to_index_for_account(p) == Some(e) implies e.proposal_id == p.id by {}
    assert forall|i: int|
        0 <= i < post.proposals@.len() && spec_to_index_for_account(
            #[trigger] post.proposals@[i],
        ) is Some implies post.account_index.has_entry(
        spec_to_index_for_account(post.proposals@[i])->Some_0,
    ) by {
        let a: int = if i == pos {
            n - 1
        } else {
            i
        };
        assert(post.proposals@[i] == pre.proposals@[a]);
        let e = spec_to_index_for_account(pre.proposals@[a])->Some_0;
        assert(pre.account_index.has_entry(e));
        assert(e.proposal_id == pre.proposals@[a].id);
        if spec_to_index_for_account(removed) is Some {
            assert(spec_to_index_for_account(removed)->Some_0.proposal_id == id);
            assert(e != spec_to_index_for_account(removed)->Some_0);
        }
    }
    assert forall|e: crate::indexes::ProposalAccountIndex| #[trigger]
        post.account_index.has_entry(e) implies exists|i: int|
        0 <= i < post.proposals@.len() && spec_to_index_for_account(post.proposals@[i]) == Some(
            e,
        ) by {
        assert(pre.account_index.has_entry(e));
        let j = choose|j: int|
            0 <= j < n && spec_to_index_for_account(pre.proposals@[j]) == Some(e);
        assert(e.proposal_id == pre.proposals@[j].id);
        assert(j != pos);
        if j == n - 1 {
            assert(pos < n - 1);
            assert(spec_to_index_for_account(post.proposals@[pos]) == Some(e));
        } else {
            assert(spec_to_index_for_account(post.proposals@[j]) == Some(e));
        }
    }
    assert forall|x: ProposalId|
        x != id && pre.spec_contains(x) implies #[trigger] post.spec_proposal(x)
            == pre.spec_proposal(x) by {
        lemma_position_unique(pre, pre.spec_position(x));
        let j = pre.spec_position(x);
        let i: int = if j == n - 1 {
            pos
        } else {
            j
        };
        if j == n - 1 && pos == n - 1 {
            assert(false);
        }
        assert(post.proposals@[i] == pre.proposals@[j]);
        assert(post.spec_contains(x));
        let cp = choose|c: int|
            0 <= c < post.proposals@.len() && post.proposals@[c].id == x;
        assert(post.spec_position(x) == cp);
        let a: int = if cp == pos {
            n - 1
        } else {
            cp
        };
        assert(post.proposals@[cp] == pre.proposals@[a]);
        assert(pre.proposals@[a].id == x);
        if a != j {
            assert(pre.proposals@[a].id != pre.proposals@[j].id || a == j);
            assert(false);
        }
    }
}

/// No stored proposal ever holds two votes by the same voter: vote lists of
/// a well-formed store are free of duplicate voter identities.
pub proof fn lemma_votes_unique(s: ProposalService, id: ProposalId)
    requires
        s.wf(),
        s.spec_contains(id),
    ensures
        unique_voters(s.spec_proposal(id).votes@),
{
    let i = s.spec_position(id);
    assert(0 <= i < s.proposals@.len() && s.proposals@[i].id == id);
    assert(s.proposals@[i].wf());
}

/// Index round-trip, membership half: the expiration index of a well-formed
/// store answers every window that covers a stored proposal's expiration
/// time with that proposal's identifier.
pub proof fn lemma_index_round_trip(
    s: ProposalService,
    id: ProposalId,
    criteria: crate::indexes::ProposalExpirationTimeIndexCriteria,
)
    requires
        s.wf(),
        s.spec_contains(id),
        crate::indexes::criteria_from(criteria) <= s.spec_proposal(id).expiration_dt,
        s.spec_proposal(id).expiration_dt <= crate::indexes::criteria_to(criteria),
    ensures
        exists|t: Timestamp|
            s.expiration_index.entries().contains((t, id)) && crate::indexes::criteria_from(
                criteria,
            ) <= t && t <= crate::indexes::criteria_to(criteria),
{
    let i = s.spec_position(id);
    assert(0 <= i < s.proposals@.len() && s.proposals@[i].id == id);
    assert(s.expiration_index.entries().contains((s.proposals@[i].expiration_dt, id)));
}

/// Index round-trip, membership half, for the account index: every transfer
/// proposal is found under its account within any window covering its
/// creation time.
pub proof fn lemma_account_index_round_trip(
    s: ProposalService,
    id: ProposalId,
    criteria: crate::indexes::ProposalAccountIndexCriteria,
)
    requires
        s.wf(),
        s.spec_contains(id),
        spec_to_index_for_account(s.spec_proposal(id)) is Some,
        spec_to_index_for_account(s.spec_proposal(id))->Some_0.account_id == criteria.account_id,
        crate::indexes::account_from(criteria) <= s.spec_proposal(id).created_timestamp,
        s.spec_proposal(id).created_timestamp <= crate::indexes::account_to(criteria),
    ensures
        exists|e: crate::indexes::ProposalAccountIndex|
            s.account_index.has_entry(e) && crate::indexes::account_matches(e, criteria)
                && e.proposal_id == id,
{
    let i = s.spec_position(id);
    assert(0 <= i < s.proposals@.len() && s.proposals@[i].id == id);
    let e = spec_to_index_for_account(s.proposals@[i])->Some_0;
    assert(s.account_index.has_entry(e));
    assert(e.created_at == s.proposals@[i].created_timestamp);
    assert(e.proposal_id == id);
    assert(crate::indexes::account_matches(e, criteria));
}

/// Index round-trip, removal half: an identifier absent from a well-formed
/// store has no entry left in any index, so no query can return it.
pub proof fn lemma_no_orphan_entries(s: ProposalService, id: ProposalId)
    requires
        s.wf(),
        !s.spec_contains(id),
    ensures
        forall|t: Timestamp| !s.expiration_index.entries().contains((t, id)),
        forall|e: crate::indexes::ProposalAccountIndex|
            s.account_index.has_entry(e) ==> e.proposal_id != id,
{
    assert forall|t: Timestamp| !s.expiration_index.entries().contains((t, id)) by {
        if s.expiration_index.entries().contains((t, id)) {
            let i = choose|i: int|
                0 <= i < s.proposals@.len() && s.proposals@[i].id == ((t, id)).1
                    && s.proposals@[i].expiration_dt == ((t, id)).0;
            assert(s.spec_contains(id));
        }
    }
    assert forall|e: crate::indexes::ProposalAccountIndex|
        s.account_index.has_entry(e) implies e.proposal_id != id by {
        let i = choose|i: int|
            0 <= i < s.proposals@.len() && spec_to_index_for_account(s.proposals@[i]) == Some(e);
        assert(e.proposal_id == s.proposals@[i].id);
        if e.proposal_id == id {
            assert(s.spec_contains(id));
        }
    }
}

/// Expiry stabilizes: the lazy `Created -> Expired` transition leaves the
/// proposal `Expired` at its place in the store.
pub proof fn lemma_expiry_stabilizes(pre: ProposalService, post: ProposalService, id: ProposalId)
    requires
        pre.wf(),
        pre.spec_contains(id),
        expired_post(pre, post, id),
    ensures
        post.spec_contains(id),
        post.spec_proposal(id).status is Expired,
{
    let pos = pre.spec_position(id);
    assert(0 <= pos < pre.proposals@.len() && pre.proposals@[pos].id == id);
    assert(post.proposals@[pos].id == id);
    assert(post.spec_contains(id));
    let cp = post.spec_position(id);
    assert(0 <= cp < post.proposals@.len() && post.proposals@[cp].id == id);
    if cp != pos {
        assert(post.proposals@[cp] == pre.proposals@[cp]);
        assert(pre.proposals@[cp].id != pre.proposals@[pos].id);
    }
}

/// Expiry is idempotent: a vote cast on an already-`Expired` proposal is
/// answered `AlreadyDecided` and moves nothing, however often it is
/// repeated.
pub proof fn lemma_expiry_idempotent(
    pre: ProposalService,
    post: ProposalService,
    id: ProposalId,
    voter: User,
    decision: VoteDecision,
    now: Timestamp,
    r: Result<(), ProposalError>,
)
    requires
        pre.wf(),
        pre.spec_contains(id),
        pre.spec_proposal(id).status is Expired,
        vote_post(pre, post, id, voter, decision, now, r),
    ensures
        post == pre,
        r == Err::<(), ProposalError>(ProposalError::AlreadyDecided),
        post.spec_proposal(id).status is Expired,
{
}

/// Shape of a freshly created proposal: initial status, empty vote list, the
/// given payload, and timestamps derived from the clock and time-to-live.
pub open spec fn created_proposal_shape(
    p: Proposal,
    id: ProposalId,
    proposer: crate::model::UserId,
    operation: ProposalOperation,
    now: Timestamp,
    ttl: u64,
) -> bool {
    &&& p.id == id
    &&& p.proposed_by == proposer
    &&& p.operation == operation
    &&& p.status is Created
    &&& p.votes@ =~= Seq::<ProposalVote>::empty()
    &&& p.created_timestamp == now
    &&& p.expiration_dt == ProposalService::spec_expiration(now, ttl)
    &&& p.execution_result is None
}

/// Status a proposal takes after its votes are re-evaluated against the
/// policy for its operation type: adopted when satisfied, rejected when
/// unsatisfiable, otherwise unchanged (no policy means no decision).
pub open spec fn spec_vote_outcome(
    policies: Seq<ProposalPolicy>,
    op: ProposalOperation,
    votes2: Seq<ProposalVote>,
) -> ProposalStatus {
    match spec_resolve_policy(policies, spec_operation_type(op)) {
        Some(i) => match spec_evaluate_quorum(policies[i].rule, votes2) {
            QuorumVerdict::Satisfied => ProposalStatus::Adopted,
            QuorumVerdict::Unsatisfiable => ProposalStatus::Rejected,
            QuorumVerdict::Pending => ProposalStatus::Created,
        },
        None => ProposalStatus::Created,
    }
}

/// Relation between the store before and after a successful vote: the vote
/// is appended, the status follows the quorum verdict, a decision event is
/// recorded exactly when the status changed, and nothing else moves.
pub open spec fn vote_ok_post(
    pre: ProposalService,
    post: ProposalService,
    id: ProposalId,
    vote: ProposalVote,
) -> bool {
    let pos = pre.spec_position(id);
    let p_old = pre.proposals@[pos];
    let p_new = post.proposals@[pos];
    &&& post.proposals@ == pre.proposals@.update(pos, p_new)
    &&& p_new.votes@ == p_old.votes@.push(vote)
    &&& p_new == (Proposal { status: p_new.status, votes: p_new.votes, ..p_old })
    &&& p_new.status == spec_vote_outcome(pre.policies@, p_old.operation, p_new.votes@)
    &&& (p_new.status is Created ==> post.events@ == pre.events@)
    &&& (!(p_new.status is Created) ==> post.events@ == pre.events@.push(
        EngineEvent::ProposalDecided { id, status: p_new.status },
    ))
    &&& post.expiration_index == pre.expiration_index
    &&& post.account_index == pre.account_index
    &&& post.policies@ == pre.policies@
    &&& post.access@ == pre.access@
    &&& post.proposal_ttl == pre.proposal_ttl
}

/// Relation between the store before and after the lazy expiry of one
/// proposal: only that proposal's status moves, to `Expired`.
pub open spec fn expired_post(pre: ProposalService, post: ProposalService, id: ProposalId) -> bool {
    let pos = pre.spec_position(id);
    let p_old = pre.proposals@[pos];
    &&& post.proposals@ == pre.proposals@.update(
        pos,
        (Proposal { status: ProposalStatus::Expired, ..p_old }),
    )
    &&& post.expiration_index == pre.expiration_index
    &&& post.account_index == pre.account_index
    &&& post.events@ == pre.events@
    &&& post.policies@ == pre.policies@
    &&& post.access@ == pre.access@
    &&& post.proposal_ttl == pre.proposal_ttl
}

/// Full contract of casting a vote on a proposal that is in the store.
pub open spec fn vote_post(
    pre: ProposalService,
    post: ProposalService,
    id: ProposalId,
    voter: User,
    decision: VoteDecision,
    now: Timestamp,
    r: Result<(), ProposalError>,
) -> bool {
    let p_old = pre.spec_proposal(id);
    let expired = p_old.status is Created && now > p_old.expiration_dt;
    let vote = ProposalVote { user_id: voter.id, decision, decided_dt: now };
    &&& (expired ==> r == Err::<(), ProposalError>(ProposalError::AlreadyDecided) && expired_post(
        pre,
        post,
        id,
    ))
    &&& (!expired && !(p_old.status is Created) ==> r == Err::<(), ProposalError>(
        ProposalError::AlreadyDecided,
    ) && post == pre)
    &&& (!expired && p_old.status is Created && spec_has_voted(p_old.votes@, voter.id) ==> r
        == Err::<(), ProposalError>(ProposalError::DuplicateVote) && post == pre)
    &&& (!expired && p_old.status is Created && !spec_has_voted(p_old.votes@, voter.id)
        && !spec_authorize(voter, ResourceSpecifier::VoteOnProposal, pre.access@) ==> r == Err::<
        (),
        ProposalError,
    >(ProposalError::Unauthorized) && post == pre)
    &&& (!expired && p_old.status is Created && !spec_has_voted(p_old.votes@, voter.id)
        && spec_authorize(voter, ResourceSpecifier::VoteOnProposal, pre.access@) ==> r == Ok::<
        (),
        ProposalError,
    >(()) && vote_ok_post(pre, post, id, vote))
}

/// Replacing one proposal by another with the same identifier, indexed
/// attributes and operation preserves the store invariant.
proof fn lemma_wf_update_same_key(pre: ProposalService, post: ProposalService, pos: int)
    requires
        pre.wf(),
        0 <= pos < pre.proposals@.len(),
        post.proposals@ == pre.proposals@.update(pos, post.proposals@[pos]),
        post.proposals@[pos].id == pre.proposals@[pos].id,
        post.proposals@[pos].expiration_dt == pre.proposals@[pos].expiration_dt,
        post.proposals@[pos].operation == pre.proposals@[pos].operation,
        post.proposals@[pos].created_timestamp == pre.proposals@[pos].created_timestamp,
        post.proposals@[pos].wf(),
        post.expiration_index == pre.expiration_index,
        post.account_index == pre.account_index,
    ensures
        post.wf(),
{
    assert(post.proposals@.len() == pre.proposals@.len());
    assert(spec_to_index_for_account(post.proposals@[pos]) == spec_to_index_for_account(
        pre.proposals@[pos],
    ));
    assert forall|i: int|
        0 <= i < post.proposals@.len() implies expiration_entries(
        post.expiration_index,
    ).contains(((#[trigger] post.proposals@[i]).expiration_dt, post.proposals@[i].id)) by {
        if i != pos {
            assert(post.proposals@[i] == pre.proposals@[i]);
        }
    }
    assert forall|k: (u64, u128)| #[trigger]
        expiration_entries(post.expiration_index).contains(k) implies exists|i: int|
        0 <= i < post.proposals@.len() && post.proposals@[i].id == k.1
            && post.proposals@[i].expiration_dt == k.0 by {
        let i = choose|i: int|
            0 <= i < pre.proposals@.len() && pre.proposals@[i].id == k.1
                && pre.proposals@[i].expiration_dt == k.0;
        assert(post.proposals@[i].id == k.1 && post.proposals@[i].expiration_dt == k.0);
    }
    assert forall|i: int|
        0 <= i < post.proposals@.len() && spec_to_index_for_account(
            #[trigger] post.proposals@[i],
        ) is Some implies post.account_index.has_entry(
        spec_to_index_for_account(post.proposals@[i])->Some_0,
    ) by {
        if i != pos {
            assert(post.proposals@[i] == pre.proposals@[i]);
        }
    }
    assert forall|e: crate::indexes::ProposalAccountIndex| #[trigger]
        post.account_index.has_entry(e) implies exists|i: int|
        0 <= i < post.proposals@.len() && spec_to_index_for_account(post.proposals@[i]) == Some(
            e,
        ) by {
        let i = choose|i: int|
            0 <= i < pre.proposals@.len() && spec_to_index_for_account(pre.proposals@[i]) == Some(
                e,
            );
        if i == pos {
            assert(spec_to_index_for_account(post.proposals@[pos]) == Some(e));
        } else {
            assert(post.proposals@[i] == pre.proposals@[i]);
        }
    }
    assert forall|i: int, j: int|
        0 <= i < j < post.proposals@.len() implies post.proposals@[i].id
        != post.proposals@[j].id by {
        assert(post.proposals@[i].id == pre.proposals@[i].id);
        assert(post.proposals@[j].id == pre.proposals@[j].id);
    }
}

/// An inert proposal value, used only to swap a stored proposal out for
/// in-place modification.
fn placeholder_proposal() -> Proposal {
    Proposal {
        id: 0,
        proposed_by: 0,
        operation: ProposalOperation::AddAccount(0),
        status: ProposalStatus::Created,
        votes: Vec::new(),
        created_timestamp: 0,
        expiration_dt: 0,
        execution_result: None,
    }
}

} // verus!
