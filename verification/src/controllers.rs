//! Entry-point controllers: thin, authorization-gated fronts over the
//! engine's services, mirroring the unit's public call surface.

use vstd::prelude::*;

use crate::config::UserGroup;
use crate::model::{
    GroupId, ProposalError, ProposalId, ProposalOperation, Timestamp, VoteDecision,
};
use crate::policy::{authorize, spec_authorize, AccessPolicy, ResourceSpecifier, User};
use crate::service::{
    created_proposal_shape, expired_post, vote_post, EngineEvent, ProposalService,
};

verus! {

/// Lookup and listing of the configured user groups.
pub struct UserGroupService {
    pub groups: Vec<UserGroup>,
}

impl UserGroupService {
    /// Well-formedness: group identifiers are unique.
    pub open spec fn wf(self) -> bool {
        forall|i: int, j: int|
            0 <= i < j < self.groups@.len() ==> self.groups@[i].id != self.groups@[j].id
    }

    pub open spec fn spec_contains(self, id: GroupId) -> bool {
        exists|i: int| 0 <= i < self.groups@.len() && self.groups@[i].id == id
    }

    pub open spec fn spec_position(self, id: GroupId) -> int {
        choose|i: int| 0 <= i < self.groups@.len() && self.groups@[i].id == id
    }

    pub open spec fn spec_group(self, id: GroupId) -> UserGroup {
        self.groups@[self.spec_position(id)]
    }

    /// Looks one group up by its identifier.
    pub fn get(&self, id: GroupId) -> (r: Result<&UserGroup, ProposalError>)
        requires
            self.wf(),
        ensures
            !self.spec_contains(id) ==> (r is Err && r->Err_0 == ProposalError::NotFound),
            self.spec_contains(id) ==> (r is Ok && *r->Ok_0 == self.spec_group(id)),
    {
        let mut k: usize = 0;
        while k < self.groups.len()
            invariant
                0 <= k <= self.groups@.len(),
                self.wf(),
                forall|i: int| 0 <= i < k ==> self.groups@[i].id != id,
            decreases self.groups@.len() - k,
        {
            if self.groups[k].id == id {
                proof {
                    assert(self.spec_contains(id));
                    let cp = self.spec_position(id);
                    assert(0 <= cp < self.groups@.len() && self.groups@[cp].id == id);
                    if cp != k as int {
                        assert(self.groups@[cp].id != self.groups@[k as int].id);
                    }
                }
                return Ok(&self.groups[k]);
            }
            k = k + 1;
        }
        Err(ProposalError::NotFound)
    }

    /// All configured groups.
    pub fn list(&self) -> (r: &Vec<UserGroup>)
        ensures
            r == &self.groups,
    {
        &self.groups
    }
}

/// Entry points for reading user groups, each gated by an access check.
pub struct UserGroupController {
    pub user_group_service: UserGroupService,
    pub access: Vec<AccessPolicy>,
}

impl UserGroupController {
    pub fn new(user_group_service: UserGroupService, access: Vec<AccessPolicy>) -> (r: Self)
        ensures
            r.user_group_service == user_group_service,
            r.access == access,
    {
        UserGroupController { user_group_service, access }
    }

    /// Authorization-gated single-group read.
    pub fn get_user_group(&self, id: GroupId, caller: &User) -> (r: Result<
        &UserGroup,
        ProposalError,
    >)
        requires
            self.user_group_service.wf(),
        ensures
            !spec_authorize(*caller, ResourceSpecifier::ReadUserGroup, self.access@) ==> (r is Err
                && r->Err_0 == ProposalError::Unauthorized),
            (spec_authorize(*caller, ResourceSpecifier::ReadUserGroup, self.access@)
                && !self.user_group_service.spec_contains(id)) ==> (r is Err && r->Err_0
                == ProposalError::NotFound),
            (spec_authorize(*caller, ResourceSpecifier::ReadUserGroup, self.access@)
                && self.user_group_service.spec_contains(id)) ==> (r is Ok && *r->Ok_0
                == self.user_group_service.spec_group(id)),
    {
        if !authorize(caller, ResourceSpecifier::ReadUserGroup, &self.access) {
            return Err(ProposalError::Unauthorized);
        }
        self.user_group_service.get(id)
    }

    /// Authorization-gated listing of every group.
    pub fn list_user_groups(&self, caller: &User) -> (r: Result<&Vec<UserGroup>, ProposalError>)
        ensures
            !spec_authorize(*caller, ResourceSpecifier::ListUserGroups, self.access@) ==> (r is Err
                && r->Err_0 == ProposalError::Unauthorized),
            spec_authorize(*caller, ResourceSpecifier::ListUserGroups, self.access@) ==> (r is Ok
                && r->Ok_0 == &self.user_group_service.groups),
    {
        if !authorize(caller, ResourceSpecifier::ListUserGroups, &self.access) {
            return Err(ProposalError::Unauthorized);
        }
        Ok(self.user_group_service.list())
    }
}

/// Entry points of the proposal lifecycle; the service itself carries the
/// access policies, so each call is authorization-gated inside it.
pub struct ProposalController {
    pub proposal_service: ProposalService,
}

impl ProposalController {
    pub fn new(proposal_service: ProposalService) -> (r: Self)
        ensures
            r.proposal_service == proposal_service,
    {
        ProposalController { proposal_service }
    }

    /// Creates a proposal on behalf of the proposer: the same contract the
    /// service proves, restated at the entry point — refusals leave the
    /// store untouched, and success stores exactly the described proposal
    /// and records the creation notification once.
    pub fn create_proposal(
        &mut self,
        id: ProposalId,
        proposer: &User,
        operation: ProposalOperation,
        now: Timestamp,
    ) -> (r: Result<(), ProposalError>)
        requires
            old(self).proposal_service.wf(),
        ensures
            final(self).proposal_service.wf(),
            !spec_authorize(
                *proposer,
                ResourceSpecifier::CreateProposal,
                old(self).proposal_service.access@,
            ) ==> (r == Err::<(), ProposalError>(ProposalError::Unauthorized) && *final(self)
                == *old(self)),
            (spec_authorize(
                *proposer,
                ResourceSpecifier::CreateProposal,
                old(self).proposal_service.access@,
            ) && old(self).proposal_service.spec_contains(id)) ==> (r == Err::<(), ProposalError>(
                ProposalError::UnexpectedError,
            ) && *final(self) == *old(self)),
            (spec_authorize(
                *proposer,
                ResourceSpecifier::CreateProposal,
                old(self).proposal_service.access@,
            ) && !old(self).proposal_service.spec_contains(id)) ==> (
            r == Ok::<(), ProposalError>(())
                && final(self).proposal_service.proposals@.len() == old(
                self,
            ).proposal_service.proposals@.len() + 1
                && final(self).proposal_service.proposals@.drop_last() == old(
                self,
            ).proposal_service.proposals@
                && created_proposal_shape(
                    final(self).proposal_service.proposals@.last(),
                    id,
                    proposer.id,
                    operation,
                    now,
                    old(self).proposal_service.proposal_ttl,
                )
                && final(self).proposal_service.events@ == old(
                self,
            ).proposal_service.events@.push(EngineEvent::ProposalCreated { id })
                && final(self).proposal_service.policies@ == old(
                self,
            ).proposal_service.policies@
                && final(self).proposal_service.access@ == old(self).proposal_service.access@
                && final(self).proposal_service.proposal_ttl == old(
                self,
            ).proposal_service.proposal_ttl
                && final(self).proposal_service.spec_contains(id)),
    {
        let r = self.proposal_service.create_proposal(id, proposer, operation, now);
        proof {
            if r is Ok {
                let s = self.proposal_service;
                assert(s.proposals@.last().id == id);
                assert(s.proposals@[s.proposals@.len() - 1].id == id);
            }
        }
        r
    }

    /// Casts a vote on a proposal.
    pub fn vote_on_proposal(
        &mut self,
        id: ProposalId,
        voter: &User,
        decision: VoteDecision,
        now: Timestamp,
    ) -> (r: Result<(), ProposalError>)
        requires
            old(self).proposal_service.wf(),
        ensures
            final(self).proposal_service.wf(),
            !old(self).proposal_service.spec_contains(id) ==> (r == Err::<(), ProposalError>(
                ProposalError::NotFound,
            ) && *final(self) == *old(self)),
            old(self).proposal_service.spec_contains(id) ==> vote_post(
                old(self).proposal_service,
                final(self).proposal_service,
                id,
                *voter,
                decision,
                now,
                r,
            ),
    {
        self.proposal_service.vote_on_proposal(id, voter, decision, now)
    }

    /// Reads one proposal, forcing the lazy `Created -> Expired` transition
    /// first; apart from that one status move the store is unchanged, and
    /// a proposal already expired stays exactly as it is.
    pub fn get_proposal(&mut self, id: ProposalId, caller: &User, now: Timestamp) -> (r: Result<
        &crate::model::Proposal,
        ProposalError,
    >)
        requires
            old(self).proposal_service.wf(),
        ensures
            final(self).proposal_service.wf(),
            !spec_authorize(
                *caller,
                ResourceSpecifier::ReadProposal,
                old(self).proposal_service.access@,
            ) ==> (r is Err && r->Err_0 == ProposalError::Unauthorized && *final(self) == *old(
                self,
            )),
            (spec_authorize(
                *caller,
                ResourceSpecifier::ReadProposal,
                old(self).proposal_service.access@,
            ) && !old(self).proposal_service.spec_contains(id)) ==> (r is Err && r->Err_0
                == ProposalError::NotFound && *final(self) == *old(self)),
            (spec_authorize(
                *caller,
                ResourceSpecifier::ReadProposal,
                old(self).proposal_service.access@,
            ) && old(self).proposal_service.spec_contains(id)) ==> ({
                let p_old = old(self).proposal_service.spec_proposal(id);
                let expired = p_old.status is Created && now > p_old.expiration_dt;
                &&& (expired ==> expired_post(
                    old(self).proposal_service,
                    final(self).proposal_service,
                    id,
                ))
                &&& (!expired ==> *final(self) == *old(self))
                &&& r is Ok
                &&& *r->Ok_0 == final(self).proposal_service.spec_proposal(id)
                &&& final(self).proposal_service.spec_contains(id)
            }),
    {
        self.proposal_service.get_proposal(id, caller, now)
    }

    /// Lists proposals by expiration window, through the expiration index.
    pub fn list_proposals(
        &self,
        caller: &User,
        criteria: crate::indexes::ProposalExpirationTimeIndexCriteria,
    ) -> (r: Result<Vec<ProposalId>, ProposalError>)
        requires
            self.proposal_service.wf(),
        ensures
            !spec_authorize(
                *caller,
                ResourceSpecifier::ReadProposal,
                self.proposal_service.access@,
            ) ==> (r is Err && r->Err_0 == ProposalError::Unauthorized),
            spec_authorize(
                *caller,
                ResourceSpecifier::ReadProposal,
                self.proposal_service.access@,
            ) ==> (r is Ok && r->Ok_0@.no_duplicates() && forall|id: ProposalId| #[trigger]
                r->Ok_0@.contains(id) <==> (self.proposal_service.spec_contains(id)
                    && crate::indexes::criteria_from(criteria)
                    <= self.proposal_service.spec_proposal(id).expiration_dt
                    && self.proposal_service.spec_proposal(id).expiration_dt
                    <= crate::indexes::criteria_to(criteria))),
    {
        self.proposal_service.list_proposals(caller, criteria)
    }

    /// Lists transfer proposals of one account, through the account index.
    pub fn list_account_proposals(
        &self,
        caller: &User,
        criteria: crate::indexes::ProposalAccountIndexCriteria,
    ) -> (r: Result<Vec<ProposalId>, ProposalError>)
        requires
            self.proposal_service.wf(),
        ensures
            !spec_authorize(
                *caller,
                ResourceSpecifier::ReadProposal,
                self.proposal_service.access@,
            ) ==> (r is Err && r->Err_0 == ProposalError::Unauthorized),
            spec_authorize(
                *caller,
                ResourceSpecifier::ReadProposal,
                self.proposal_service.access@,
            ) ==> (r is Ok && r->Ok_0@.no_duplicates() && forall|id: ProposalId| #[trigger]
                r->Ok_0@.contains(id) <==> (self.proposal_service.spec_contains(id)
                    && crate::indexes::spec_to_index_for_account(
                    self.proposal_service.spec_proposal(id),
                ) is Some && crate::indexes::account_matches(
                    crate::indexes::spec_to_index_for_account(
                        self.proposal_service.spec_proposal(id),
                    )->Some_0,
                    criteria,
                ))),
    {
        self.proposal_service.list_account_proposals(caller, criteria)
    }

    /// The decision notifications and creation events recorded so far.
    pub fn events(&self) -> (r: &Vec<EngineEvent>)
        ensures
            r == &self.proposal_service.events,
    {
        &self.proposal_service.events
    }
}

} // verus!
