//! The proposal entity and its lifecycle state machine.

use vstd::prelude::*;

verus! {

/// 128-bit identifier; the numeric form of a version 4 UUID.
pub type UUID = u128;

pub type ProposalId = UUID;

pub type AccountId = UUID;

pub type UserId = UUID;

pub type GroupId = UUID;

pub type TransferId = UUID;

/// Logical time in nanoseconds.
pub type Timestamp = u64;

/// Lifecycle states of a proposal.
#[derive(Clone, Copy, Debug, PartialEq, Eq, Structural)]
pub enum ProposalStatus {
    Created,
    Adopted,
    Rejected,
    Executing,
    Completed,
    Failed,
    Expired,
}

impl ProposalStatus {
    /// A terminal status admits no further transition.
    pub open spec fn spec_is_terminal(self) -> bool {
        self is Rejected || self is Expired || self is Completed || self is Failed
    }

    pub fn is_terminal(&self) -> (r: bool)
        ensures
            r == self.spec_is_terminal(),
    {
        match self {
            ProposalStatus::Rejected => true,
            ProposalStatus::Expired => true,
            ProposalStatus::Completed => true,
            ProposalStatus::Failed => true,
            _ => false,
        }
    }
}

/// The decision carried by a single vote.
#[derive(Clone, Copy, Debug, PartialEq, Eq, Structural)]
pub enum VoteDecision {
    Approved,
    Rejected,
}

/// One cast vote: who voted, what they decided, and when.
#[derive(Clone, Copy, Debug, PartialEq, Eq, Structural)]
pub struct ProposalVote {
    pub user_id: UserId,
    pub decision: VoteDecision,
    pub decided_dt: Timestamp,
}

/// Payload of a transfer operation.
#[derive(Clone, Copy, Debug, PartialEq, Eq, Structural)]
pub struct TransferOperationContext {
    pub account_id: AccountId,
    pub transfer_id: TransferId,
}

/// Code and argument for a code-upgrade operation, with the checksum the
/// proposer declared for the module bytes.
#[derive(Clone, Debug, PartialEq, Eq)]
pub struct UpgradeParams {
    pub module: Vec<u8>,
    pub arg: Vec<u8>,
    pub checksum: Vec<u8>,
}

/// The change a proposal applies once adopted, one variant per kind.
#[derive(Clone, Debug, PartialEq, Eq)]
pub enum ProposalOperation {
    Transfer(TransferOperationContext),
    AddAccount(AccountId),
    EditAccount(AccountId),
    AddUser(UserId),
    EditUser(UserId),
    AddUserGroup(GroupId),
    EditUserGroup(GroupId),
    RemoveUserGroup(GroupId),
    Upgrade(UpgradeParams),
    AddAccessPolicy(UUID),
    EditAccessPolicy(UUID),
    RemoveAccessPolicy(UUID),
    AddProposalPolicy(UUID),
    EditProposalPolicy(UUID),
    RemoveProposalPolicy(UUID),
}

/// The kind of a proposal operation, without its payload.
#[derive(Clone, Copy, Debug, PartialEq, Eq, Structural)]
pub enum ProposalOperationType {
    Transfer,
    AddAccount,
    EditAccount,
    AddUser,
    EditUser,
    AddUserGroup,
    EditUserGroup,
    RemoveUserGroup,
    Upgrade,
    AddAccessPolicy,
    EditAccessPolicy,
    RemoveAccessPolicy,
    AddProposalPolicy,
    EditProposalPolicy,
    RemoveProposalPolicy,
}

/// The kind of an operation, at the specification level.
pub open spec fn spec_operation_type(op: ProposalOperation) -> ProposalOperationType {
    match op {
        ProposalOperation::Transfer(_) => ProposalOperationType::Transfer,
        ProposalOperation::AddAccount(_) => ProposalOperationType::AddAccount,
        ProposalOperation::EditAccount(_) => ProposalOperationType::EditAccount,
        ProposalOperation::AddUser(_) => ProposalOperationType::AddUser,
        ProposalOperation::EditUser(_) => ProposalOperationType::EditUser,
        ProposalOperation::AddUserGroup(_) => ProposalOperationType::AddUserGroup,
        ProposalOperation::EditUserGroup(_) => ProposalOperationType::EditUserGroup,
        ProposalOperation::RemoveUserGroup(_) => ProposalOperationType::RemoveUserGroup,
        ProposalOperation::Upgrade(_) => ProposalOperationType::Upgrade,
        ProposalOperation::AddAccessPolicy(_) => ProposalOperationType::AddAccessPolicy,
        ProposalOperation::EditAccessPolicy(_) => ProposalOperationType::EditAccessPolicy,
        ProposalOperation::RemoveAccessPolicy(_) => ProposalOperationType::RemoveAccessPolicy,
        ProposalOperation::AddProposalPolicy(_) => ProposalOperationType::AddProposalPolicy,
        ProposalOperation::EditProposalPolicy(_) => ProposalOperationType::EditProposalPolicy,
        ProposalOperation::RemoveProposalPolicy(_) => ProposalOperationType::RemoveProposalPolicy,
    }
}

impl From<&ProposalOperation> for ProposalOperationType {
    fn from(op: &ProposalOperation) -> (t: Self) {
        match op {
            ProposalOperation::Transfer(_) => ProposalOperationType::Transfer,
            ProposalOperation::AddAccount(_) => ProposalOperationType::AddAccount,
            ProposalOperation::EditAccount(_) => ProposalOperationType::EditAccount,
            ProposalOperation::AddUser(_) => ProposalOperationType::AddUser,
            ProposalOperation::EditUser(_) => ProposalOperationType::EditUser,
            ProposalOperation::AddUserGroup(_) => ProposalOperationType::AddUserGroup,
            ProposalOperation::EditUserGroup(_) => ProposalOperationType::EditUserGroup,
            ProposalOperation::RemoveUserGroup(_) => ProposalOperationType::RemoveUserGroup,
            ProposalOperation::Upgrade(_) => ProposalOperationType::Upgrade,
            ProposalOperation::AddAccessPolicy(_) => ProposalOperationType::AddAccessPolicy,
            ProposalOperation::EditAccessPolicy(_) => ProposalOperationType::EditAccessPolicy,
            ProposalOperation::RemoveAccessPolicy(_) => ProposalOperationType::RemoveAccessPolicy,
            ProposalOperation::AddProposalPolicy(_) => ProposalOperationType::AddProposalPolicy,
            ProposalOperation::EditProposalPolicy(_) => ProposalOperationType::EditProposalPolicy,
            ProposalOperation::RemoveProposalPolicy(_) => {
                ProposalOperationType::RemoveProposalPolicy
            },
        }
    }
}

impl vstd::std_specs::convert::FromSpecImpl<&ProposalOperation> for ProposalOperationType {
    open spec fn obeys_from_spec() -> bool {
        true
    }

    open spec fn from_spec(op: &ProposalOperation) -> Self {
        spec_operation_type(*op)
    }
}

/// Errors of the proposal lifecycle operations.
#[derive(Clone, Copy, Debug, PartialEq, Eq, Structural)]
pub enum ProposalError {
    NotFound,
    AlreadyDecided,
    DuplicateVote,
    Unauthorized,
    UnexpectedError,
}

/// No two votes come from the same voter.
pub open spec fn unique_voters(votes: Seq<ProposalVote>) -> bool {
    forall|i: int, j: int|
        0 <= i < j < votes.len() ==> votes[i].user_id != votes[j].user_id
}

/// The given user has a vote in the sequence.
pub open spec fn spec_has_voted(votes: Seq<ProposalVote>, user: UserId) -> bool {
    exists|i: int| 0 <= i < votes.len() && votes[i].user_id == user
}

pub fn has_voted(votes: &Vec<ProposalVote>, user: UserId) -> (r: bool)
    ensures
        r == spec_has_voted(votes@, user),
{
    let mut k: usize = 0;
    while k < votes.len()
        invariant
            0 <= k <= votes@.len(),
            forall|i: int| 0 <= i < k ==> votes@[i].user_id != user,
        decreases votes@.len() - k,
    {
        if votes[k].user_id == user {
            return true;
        }
        k = k + 1;
    }
    false
}

/// The central entity: a proposed change, its votes and its status.
#[derive(Clone, Debug, PartialEq, Eq)]
pub struct Proposal {
    pub id: ProposalId,
    pub proposed_by: UserId,
    pub operation: ProposalOperation,
    pub status: ProposalStatus,
    pub votes: Vec<ProposalVote>,
    pub created_timestamp: Timestamp,
    pub expiration_dt: Timestamp,
    pub execution_result: Option<ExecutionOutcome>,
}

/// Diagnostic recorded when a proposal leaves the `Executing` status.
#[derive(Clone, Copy, Debug, PartialEq, Eq, Structural)]
pub enum ExecutionOutcome {
    Succeeded,
    FailedChecksumMismatch,
    FailedNotController,
    FailedUnauthorized,
    FailedRemoteCall,
    FailedUnexpected,
}

impl Proposal {
    /// Well-formedness: voters are unique, and an execution outcome is
    /// recorded only once execution has finished.
    pub open spec fn wf(self) -> bool {
        &&& unique_voters(self.votes@)
        &&& (self.execution_result is Some ==> (self.status is Completed
            || self.status is Failed))
    }

    /// Appends a vote, rejecting a voter who already voted; leaves every
    /// other field unchanged.
    pub fn add_vote(&mut self, vote: ProposalVote) -> (r: Result<(), ProposalError>)
        requires
            old(self).wf(),
            old(self).status is Created,
        ensures
            final(self).wf(),
            spec_has_voted(old(self).votes@, vote.user_id) ==> (r
                == Err::<(), ProposalError>(ProposalError::DuplicateVote)
                && *final(self) == *old(self)),
            !spec_has_voted(old(self).votes@, vote.user_id) ==> (r == Ok::<(), ProposalError>(())
                && *final(self) == (Proposal { votes: final(self).votes, ..*old(self) })
                && final(self).votes@ == old(self).votes@.push(vote)),
    {
        if has_voted(&self.votes, vote.user_id) {
            return Err(ProposalError::DuplicateVote);
        }
        self.votes.push(vote);
        Ok(())
    }

    /// Forces the lazy `Created -> Expired` transition when the clock has
    /// passed the expiration time; no other field changes.
    pub fn check_expiration(&mut self, now: Timestamp)
        ensures
            old(self).status is Created && now > old(self).expiration_dt ==> *final(self)
                == (Proposal { status: ProposalStatus::Expired, ..*old(self) }),
            !(old(self).status is Created && now > old(self).expiration_dt) ==> (*final(self)
                == *old(self)),
            final(self).wf() == old(self).wf(),
    {
        if matches!(self.status, ProposalStatus::Created) && now > self.expiration_dt {
            self.status = ProposalStatus::Expired;
        }
    }
}

} // verus!
