//! Policy and authorization evaluation: allow-list access checks and the
//! quorum rule that decides adoption or rejection of a proposal.

use vstd::prelude::*;

use crate::model::{
    spec_has_voted, unique_voters, GroupId, ProposalOperationType, ProposalVote, UserId,
    VoteDecision,
};
use crate::model::has_voted;

verus! {

/// Outcome of evaluating a quorum rule over a vote sequence.
#[derive(Clone, Copy, Debug, PartialEq, Eq, Structural)]
pub enum QuorumVerdict {
    Pending,
    Satisfied,
    Unsatisfiable,
}

/// A quorum rule: at least `min_approved` approvals from the named approvers.
#[derive(Clone, Debug)]
pub struct QuorumRule {
    pub approvers: Vec<UserId>,
    pub min_approved: u64,
}

/// A vote counts toward the quorum when it approves and its voter is one of
/// the named approvers.
pub open spec fn is_approval(rule: QuorumRule, v: ProposalVote) -> bool {
    v.decision is Approved && rule.approvers@.contains(v.user_id)
}

/// Number of votes that count toward the quorum.
pub open spec fn count_approvals(rule: QuorumRule, votes: Seq<ProposalVote>) -> nat
    decreases votes.len(),
{
    if votes.len() == 0 {
        0
    } else {
        count_approvals(rule, votes.drop_last()) + if is_approval(rule, votes.last()) {
            1nat
        } else {
            0nat
        }
    }
}

/// Number of named approvers who have not voted yet: the most approvals that
/// could still arrive.
pub open spec fn count_remaining(approvers: Seq<UserId>, votes: Seq<ProposalVote>) -> nat
    decreases approvers.len(),
{
    if approvers.len() == 0 {
        0
    } else {
        count_remaining(approvers.drop_last(), votes) + if spec_has_voted(
            votes,
            approvers.last(),
        ) {
            0nat
        } else {
            1nat
        }
    }
}

/// The verdict of a quorum rule over a vote sequence: satisfied once enough
/// approvals are in; unsatisfiable once even every remaining approver
/// approving could not reach the minimum; pending otherwise.
pub open spec fn spec_evaluate_quorum(rule: QuorumRule, votes: Seq<ProposalVote>) -> QuorumVerdict {
    if count_approvals(rule, votes) >= rule.min_approved {
        QuorumVerdict::Satisfied
    } else if count_approvals(rule, votes) + count_remaining(rule.approvers@, votes)
        < rule.min_approved {
        QuorumVerdict::Unsatisfiable
    } else {
        QuorumVerdict::Pending
    }
}

fn approvals_so_far(rule: &QuorumRule, votes: &Vec<ProposalVote>) -> (n: usize)
    ensures
        n == count_approvals(*rule, votes@),
{
    let mut n: usize = 0;
    let mut k: usize = 0;
    while k < votes.len()
        invariant
            0 <= k <= votes@.len(),
            n == count_approvals(*rule, votes@.take(k as int)),
            n <= k,
        decreases votes@.len() - k,
    {
        let v = votes[k];
        let counts = matches!(v.decision, VoteDecision::Approved) && contains_id(
            &rule.approvers,
            v.user_id,
        );
        proof {
            assert(votes@.take(k + 1).drop_last() =~= votes@.take(k as int));
            assert(votes@.take(k + 1).last() == votes@[k as int]);
        }
        if counts {
            n = n + 1;
        }
        k = k + 1;
    }
    proof {
        assert(votes@.take(votes@.len() as int) =~= votes@);
    }
    n
}

fn remaining_approvals(rule: &QuorumRule, votes: &Vec<ProposalVote>) -> (n: usize)
    ensures
        n == count_remaining(rule.approvers@, votes@),
{
    let mut n: usize = 0;
    let mut k: usize = 0;
    while k < rule.approvers.len()
        invariant
            0 <= k <= rule.approvers@.len(),
            n == count_remaining(rule.approvers@.take(k as int), votes@),
            n <= k,
        decreases rule.approvers@.len() - k,
    {
        let voted = has_voted(votes, rule.approvers[k]);
        proof {
            assert(rule.approvers@.take(k + 1).drop_last() =~= rule.approvers@.take(k as int));
            assert(rule.approvers@.take(k + 1).last() == rule.approvers@[k as int]);
        }
        if !voted {
            n = n + 1;
        }
        k = k + 1;
    }
    proof {
        assert(rule.approvers@.take(rule.approvers@.len() as int) =~= rule.approvers@);
    }
    n
}

/// Folds the vote sequence against the quorum rule.
pub fn evaluate_quorum(rule: &QuorumRule, votes: &Vec<ProposalVote>) -> (v: QuorumVerdict)
    ensures
        v == spec_evaluate_quorum(*rule, votes@),
{
    let approvals = approvals_so_far(rule, votes);
    let remaining = remaining_approvals(rule, votes);
    if approvals as u128 >= rule.min_approved as u128 {
        QuorumVerdict::Satisfied
    } else if (approvals as u128) + (remaining as u128) < rule.min_approved as u128 {
        QuorumVerdict::Unsatisfiable
    } else {
        QuorumVerdict::Pending
    }
}

/// Membership test over a list of identifiers.
pub fn contains_id(ids: &Vec<UserId>, x: UserId) -> (r: bool)
    ensures
        r == ids@.contains(x),
{
    let mut k: usize = 0;
    while k < ids.len()
        invariant
            0 <= k <= ids@.len(),
            forall|i: int| 0 <= i < k ==> ids@[i] != x,
        decreases ids@.len() - k,
    {
        if ids[k] == x {
            return true;
        }
        k = k + 1;
    }
    false
}

proof fn lemma_count_approvals_push(rule: QuorumRule, votes: Seq<ProposalVote>, v: ProposalVote)
    ensures
        count_approvals(rule, votes.push(v)) == count_approvals(rule, votes) + if is_approval(
            rule,
            v,
        ) {
            1nat
        } else {
            0nat
        },
{
    assert(votes.push(v).drop_last() =~= votes);
}

proof fn lemma_has_voted_push(votes: Seq<ProposalVote>, v: ProposalVote, u: UserId)
    ensures
        spec_has_voted(votes, u) ==> spec_has_voted(votes.push(v), u),
        v.user_id == u ==> spec_has_voted(votes.push(v), u),
        !spec_has_voted(votes, u) && v.user_id != u ==> !spec_has_voted(votes.push(v), u),
{
    if spec_has_voted(votes, u) {
        let i = choose|i: int| 0 <= i < votes.len() && votes[i].user_id == u;
        assert(votes.push(v)[i].user_id == u);
    }
    if v.user_id == u {
        assert(votes.push(v)[votes.len() as int].user_id == u);
    }
    if !spec_has_voted(votes, u) && v.user_id != u {
        assert forall|i: int| 0 <= i < votes.push(v).len() implies votes.push(v)[i].user_id
            != u by {
            if i < votes.len() {
                assert(votes.push(v)[i] == votes[i]);
            }
        }
    }
}

proof fn lemma_count_remaining_push(
    approvers: Seq<UserId>,
    votes: Seq<ProposalVote>,
    v: ProposalVote,
)
    ensures
        count_remaining(approvers, votes.push(v)) <= count_remaining(approvers, votes),
        approvers.contains(v.user_id) && !spec_has_voted(votes, v.user_id) ==> count_remaining(
            approvers,
            votes.push(v),
        ) + 1 <= count_remaining(approvers, votes),
    decreases approvers.len(),
{
    if approvers.len() > 0 {
        lemma_count_remaining_push(approvers.drop_last(), votes, v);
        lemma_has_voted_push(votes, v, approvers.last());
        if approvers.contains(v.user_id) && !spec_has_voted(votes, v.user_id) {
            if approvers.last() == v.user_id {
                assert(spec_has_voted(votes.push(v), approvers.last()));
            } else {
                let i = choose|i: int|
                    0 <= i < approvers.len() && approvers[i] == v.user_id;
                assert(approvers.drop_last()[i] == v.user_id);
                assert(approvers.drop_last().contains(v.user_id));
            }
        }
    }
}

/// Adding one vote from a voter who has not voted yet never moves a decided
/// verdict back: `Satisfied` stays satisfied and `Unsatisfiable` stays
/// unsatisfiable.
pub proof fn lemma_quorum_monotonic_push(
    rule: QuorumRule,
    votes: Seq<ProposalVote>,
    v: ProposalVote,
)
    requires
        !spec_has_voted(votes, v.user_id),
    ensures
        spec_evaluate_quorum(rule, votes) is Satisfied ==> spec_evaluate_quorum(
            rule,
            votes.push(v),
        ) is Satisfied,
        spec_evaluate_quorum(rule, votes) is Unsatisfiable ==> spec_evaluate_quorum(
            rule,
            votes.push(v),
        ) is Unsatisfiable,
{
    lemma_count_approvals_push(rule, votes, v);
    lemma_count_remaining_push(rule.approvers@, votes, v);
}

/// The quorum verdict is monotonic along any extension of the vote sequence
/// with fresh voters: once `Satisfied` or `Unsatisfiable`, every valid
/// super-sequence of the votes yields the same verdict.
pub proof fn lemma_quorum_monotonic(rule: QuorumRule, votes: Seq<ProposalVote>, ext: Seq<ProposalVote>)
    requires
        unique_voters(votes + ext),
    ensures
        spec_evaluate_quorum(rule, votes) is Satisfied ==> spec_evaluate_quorum(
            rule,
            votes + ext,
        ) is Satisfied,
        spec_evaluate_quorum(rule, votes) is Unsatisfiable ==> spec_evaluate_quorum(
            rule,
            votes + ext,
        ) is Unsatisfiable,
    decreases ext.len(),
{
    if ext.len() == 0 {
        assert(votes + ext =~= votes);
    } else {
        let shorter = votes + ext.drop_last();
        assert(unique_voters(shorter)) by {
            assert forall|i: int, j: int|
                0 <= i < j < shorter.len() implies shorter[i].user_id != shorter[j].user_id by {
                assert(shorter[i] == (votes + ext)[i]);
                assert(shorter[j] == (votes + ext)[j]);
            }
        }
        lemma_quorum_monotonic(rule, votes, ext.drop_last());
        let w = ext.last();
        assert(!spec_has_voted(shorter, w.user_id)) by {
            assert forall|i: int| 0 <= i < shorter.len() implies shorter[i].user_id
                != w.user_id by {
                assert(shorter[i] == (votes + ext)[i]);
                assert(w == (votes + ext)[shorter.len() as int]);
            }
        }
        lemma_quorum_monotonic_push(rule, shorter, w);
        assert(shorter.push(w) =~= votes + ext);
    }
}

/// Ties an operation type to the quorum rule that governs it.
#[derive(Clone, Debug)]
pub struct ProposalPolicy {
    pub operation_type: ProposalOperationType,
    pub rule: QuorumRule,
}

/// Index of the first policy whose operation type matches, if any.
pub open spec fn spec_resolve_policy(
    policies: Seq<ProposalPolicy>,
    t: ProposalOperationType,
) -> Option<int> {
    if exists|i: int| 0 <= i < policies.len() && policies[i].operation_type == t {
        Some(choose|i: int|
            0 <= i < policies.len() && policies[i].operation_type == t && forall|j: int|
                0 <= j < i ==> policies[j].operation_type != t)
    } else {
        None
    }
}

/// Looks up the quorum rule for an operation type: the first policy whose
/// type matches.
pub fn resolve_policy(policies: &Vec<ProposalPolicy>, t: ProposalOperationType) -> (r: Option<
    usize,
>)
    ensures
        r is Some ==> {
            let i = r->Some_0 as int;
            &&& 0 <= i < policies@.len()
            &&& policies@[i].operation_type == t
            &&& forall|j: int| 0 <= j < i ==> policies@[j].operation_type != t
        },
        r is None ==> forall|i: int|
            0 <= i < policies@.len() ==> policies@[i].operation_type != t,
{
    let mut k: usize = 0;
    while k < policies.len()
        invariant
            0 <= k <= policies@.len(),
            forall|i: int| 0 <= i < k ==> policies@[i].operation_type != t,
        decreases policies@.len() - k,
    {
        if policies[k].operation_type == t {
            return Some(k);
        }
        k = k + 1;
    }
    None
}

/// A resource-and-action descriptor subject to an access check.
#[derive(Clone, Copy, Debug, PartialEq, Eq, Structural)]
pub enum ResourceSpecifier {
    CreateProposal,
    ReadProposal,
    VoteOnProposal,
    ReadUserGroup,
    ListUserGroups,
}

/// Allow-list rule for one resource: named users, or whole groups.
#[derive(Clone, Debug)]
pub struct AccessPolicy {
    pub resource: ResourceSpecifier,
    pub allowed_users: Vec<UserId>,
    pub allowed_groups: Vec<GroupId>,
}

/// A caller of the engine: a user with its group memberships.
#[derive(Clone, Debug)]
pub struct User {
    pub id: UserId,
    pub groups: Vec<GroupId>,
}

/// Group membership test, the identity provider's interface: the user
/// carries its resolved group memberships.
pub fn is_member(user: &User, group: GroupId) -> (r: bool)
    ensures
        r == user.groups@.contains(group),
{
    contains_id(&user.groups, group)
}

/// The policy allows the user directly or through one of its groups.
pub open spec fn spec_policy_allows(p: AccessPolicy, user: User) -> bool {
    p.allowed_users@.contains(user.id) || exists|i: int|
        0 <= i < user.groups@.len() && p.allowed_groups@.contains(user.groups@[i])
}

/// Some policy for this resource allows the user.
pub open spec fn spec_authorize(
    user: User,
    resource: ResourceSpecifier,
    policies: Seq<AccessPolicy>,
) -> bool {
    exists|i: int|
        0 <= i < policies.len() && policies[i].resource == resource && spec_policy_allows(
            policies[i],
            user,
        )
}

fn policy_allows(p: &AccessPolicy, user: &User) -> (r: bool)
    ensures
        r == spec_policy_allows(*p, *user),
{
    if contains_id(&p.allowed_users, user.id) {
        return true;
    }
    let mut k: usize = 0;
    while k < user.groups.len()
        invariant
            0 <= k <= user.groups@.len(),
            forall|i: int| 0 <= i < k ==> !p.allowed_groups@.contains(user.groups@[i]),
        decreases user.groups@.len() - k,
    {
        if contains_id(&p.allowed_groups, user.groups[k]) {
            return true;
        }
        k = k + 1;
    }
    false
}

/// Decides ALLOW/DENY for a caller against a resource-and-action descriptor:
/// allowed exactly when some policy for the resource names the caller or one
/// of the caller's groups.
pub fn authorize(user: &User, resource: ResourceSpecifier, policies: &Vec<AccessPolicy>) -> (r:
    bool)
    ensures
        r == spec_authorize(*user, resource, policies@),
{
    let mut k: usize = 0;
    while k < policies.len()
        invariant
            0 <= k <= policies@.len(),
            forall|i: int|
                0 <= i < k ==> !(policies@[i].resource == resource && spec_policy_allows(
                    policies@[i],
                    *user,
                )),
        decreases policies@.len() - k,
    {
        let p = &policies[k];
        if p.resource == resource {
            if policy_allows(p, user) {
                return true;
            }
        }
        k = k + 1;
    }
    false
}

} // verus!
