//! Derived indexes over the proposal set: composite ordered keys on the
//! persistent ordered map, answering range queries without a full scan.

use vstd::prelude::*;

use crate::model::{AccountId, Proposal, ProposalId, ProposalOperation, Timestamp};

verus! {

/// Key of the expiration-time index: proposals ordered by expiration time,
/// then by identifier.
#[derive(Clone, Copy, Debug, PartialEq, Eq, Structural)]
pub struct ProposalExpirationTimeIndex {
    pub expiration_dt: Timestamp,
    pub proposal_id: ProposalId,
}

/// Window of expiration times to query; an unset bound means the type's
/// minimum or maximum sentinel.
#[derive(Clone, Copy, Debug)]
pub struct ProposalExpirationTimeIndexCriteria {
    pub from_dt: Option<Timestamp>,
    pub to_dt: Option<Timestamp>,
}

/// Order of the composite keys: by timestamp, then by identifier; the same
/// order in which the ordered map stores them.
pub open spec fn key_le(a: (u64, u128), b: (u64, u128)) -> bool {
    a.0 < b.0 || (a.0 == b.0 && a.1 <= b.1)
}

/// Index of proposals by expiration time, kept on the persistent ordered
/// map of the storage crate; the verifier sees it only through the named
/// contents below.
#[verifier::external_body]
pub struct ProposalExpirationTimeIndexRepository {
    db: ic_stable_structures::BTreeMap<(u64, u128), (), ic_stable_structures::VectorMemory>,
}

/// The set of composite keys the ordered map holds.
pub uninterp spec fn expiration_entries(
    repo: ProposalExpirationTimeIndexRepository,
) -> Set<(u64, u128)>;

impl Default for ProposalExpirationTimeIndexRepository {
    /// Relies on BTreeMap::new: a map created on fresh memory holds no
    /// entries.
    #[verifier::external_body]
    fn default() -> (r: Self)
        ensures
            expiration_entries(r) == Set::<(u64, u128)>::empty(),
    {
        ProposalExpirationTimeIndexRepository {
            db: ic_stable_structures::BTreeMap::new(
                ic_stable_structures::VectorMemory::default(),
            ),
        }
    }
}

impl ProposalExpirationTimeIndexRepository {
    /// The keys currently stored.
    pub open spec fn entries(self) -> Set<(u64, u128)> {
        expiration_entries(self)
    }

    /// Relies on BTreeMap::contains_key: a key is found exactly when a prior
    /// insert put it there and no remove took it out.
    #[verifier::external_body]
    pub fn contains_index(&self, index: &ProposalExpirationTimeIndex) -> (r: bool)
        ensures
            r == expiration_entries(*self).contains((index.expiration_dt, index.proposal_id)),
    {
        self.db.contains_key(&(index.expiration_dt, index.proposal_id))
    }

    /// Relies on BTreeMap::insert: afterwards the key maps to the value and
    /// every other entry is unchanged.
    #[verifier::external_body]
    pub fn insert(&mut self, index: ProposalExpirationTimeIndex)
        ensures
            expiration_entries(*final(self)) == expiration_entries(*old(self)).insert(
                (index.expiration_dt, index.proposal_id),
            ),
    {
        self.db.insert((index.expiration_dt, index.proposal_id), ());
    }

    /// Relies on BTreeMap::remove: takes the key out and tells whether it was
    /// present; every other entry is unchanged.
    #[verifier::external_body]
    pub fn remove(&mut self, index: &ProposalExpirationTimeIndex) -> (r: bool)
        ensures
            expiration_entries(*final(self)) == expiration_entries(*old(self)).remove(
                (index.expiration_dt, index.proposal_id),
            ),
            r == expiration_entries(*old(self)).contains((index.expiration_dt, index.proposal_id)),
    {
        self.db.remove(&(index.expiration_dt, index.proposal_id)).is_some()
    }

    /// Relies on BTreeMap::range over the lexicographic order of the keys:
    /// yields exactly the stored keys between the two bounds, both ends
    /// in range, in ascending key order.
    #[verifier::external_body]
    fn range_keys(&self, lo: (u64, u128), hi: (u64, u128)) -> (r: Vec<(u64, u128)>)
        ensures
            forall|k: (u64, u128)| #[trigger]
                r@.contains(k) <==> (expiration_entries(*self).contains(k) && key_le(lo, k) && key_le(
                    k,
                    hi,
                )),
            forall|i: int, j: int|
                0 <= i < j < r@.len() ==> (key_le(r@[i], r@[j]) && r@[i] != r@[j]),
    {
        self.db.range(lo..=hi).map(|e| *e.key()).collect()
    }

    /// Inclusive ordered range scan between the criteria bounds, identifier
    /// sentinels at both ends, projecting out the set of proposal
    /// identifiers: sound, complete for the window, and duplicate-free.
    pub fn find_by_criteria(&self, criteria: ProposalExpirationTimeIndexCriteria) -> (r: Vec<
        ProposalId,
    >)
        ensures
            r@.no_duplicates(),
            forall|id: ProposalId| #[trigger]
                r@.contains(id) <==> (exists|t: Timestamp|
                    self.entries().contains((t, id)) && criteria_from(criteria) <= t
                        && t <= criteria_to(criteria)),
    {
        let lo: u64 = match criteria.from_dt {
            Some(t) => t,
            None => u64::MIN,
        };
        let hi: u64 = match criteria.to_dt {
            Some(t) => t,
            None => u64::MAX,
        };
        let keys = self.range_keys((lo, u128::MIN), (hi, u128::MAX));
        let mut r: Vec<ProposalId> = Vec::new();
        let mut k: usize = 0;
        while k < keys.len()
            invariant
                0 <= k <= keys@.len(),
                r@.no_duplicates(),
                forall|id: ProposalId| #[trigger]
                    r@.contains(id) <==> (exists|i: int| 0 <= i < k && keys@[i].1 == id),
            decreases keys@.len() - k,
        {
            let key = keys[k];
            let ghost prev = r@;
            if !crate::policy::contains_id(&r, key.1) {
                r.push(key.1);
                proof {
                    assert forall|a: int, b: int|
                        0 <= a < b < r@.len() implies r@[a] != r@[b] by {
                        if b == r@.len() - 1 {
                            assert(r@[a] == prev[a]);
                            assert(prev.contains(prev[a]));
                        }
                    }
                }
            }
            proof {
                assert forall|id: ProposalId| #[trigger] r@.contains(id) implies (exists|i: int|
                    0 <= i < k + 1 && keys@[i].1 == id) by {
                    let j = choose|j: int| 0 <= j < r@.len() && r@[j] == id;
                    if j < prev.len() {
                        assert(prev[j] == id);
                        assert(prev.contains(id));
                    } else {
                        assert(keys@[k as int].1 == id);
                    }
                }
                assert forall|id: ProposalId|
                    (exists|i: int| 0 <= i < k + 1 && keys@[i].1 == id) implies #[trigger]
                    r@.contains(id) by {
                    let i = choose|i: int| 0 <= i < k + 1 && keys@[i].1 == id;
                    if i < k {
                        assert(prev.contains(id));
                        let j = choose|j: int| 0 <= j < prev.len() && prev[j] == id;
                        assert(r@[j] == id);
                    } else {
                        if prev.contains(id) {
                            let j = choose|j: int| 0 <= j < prev.len() && prev[j] == id;
                            assert(r@[j] == id);
                        } else {
                            assert(r@.last() == id);
                        }
                    }
                }
            }
            k = k + 1;
        }
        proof {
            assert forall|id: ProposalId| #[trigger] r@.contains(id) implies (exists|t: Timestamp|
                self.entries().contains((t, id)) && criteria_from(criteria) <= t && t
                    <= criteria_to(criteria)) by {
                let i = choose|i: int| 0 <= i < keys@.len() && keys@[i].1 == id;
                assert(keys@.contains(keys@[i]));
                let t = keys@[i].0;
                assert(self.entries().contains((t, id)));
            }
            assert forall|id: ProposalId|
                (exists|t: Timestamp|
                    self.entries().contains((t, id)) && criteria_from(criteria) <= t && t
                        <= criteria_to(criteria)) implies #[trigger] r@.contains(id) by {
                let t = choose|t: Timestamp|
                    self.entries().contains((t, id)) && criteria_from(criteria) <= t && t
                        <= criteria_to(criteria);
                assert(key_le((lo, u128::MIN), (t, id)));
                assert(key_le((t, id), (hi, u128::MAX)));
                assert(keys@.contains((t, id)));
                let i = choose|i: int| 0 <= i < keys@.len() && keys@[i] == (t, id);
                assert(keys@[i].1 == id);
            }
        }
        r
    }
}

/// Lower bound of a criteria window, the minimum sentinel when unset.
pub open spec fn criteria_from(c: ProposalExpirationTimeIndexCriteria) -> Timestamp {
    match c.from_dt {
        Some(t) => t,
        None => u64::MIN,
    }
}

/// Upper bound of a criteria window, the maximum sentinel when unset.
pub open spec fn criteria_to(c: ProposalExpirationTimeIndexCriteria) -> Timestamp {
    match c.to_dt {
        Some(t) => t,
        None => u64::MAX,
    }
}

/// Key of the account index: the account a transfer proposal touches, the
/// creation time, and the proposal identifier.
#[derive(Clone, Copy, Debug, PartialEq, Eq, Structural)]
pub struct ProposalAccountIndex {
    pub account_id: AccountId,
    pub created_at: Timestamp,
    pub proposal_id: ProposalId,
}

/// Query window of the account index: one account, bounded creation times.
#[derive(Clone, Copy, Debug)]
pub struct ProposalAccountIndexCriteria {
    pub account_id: AccountId,
    pub from_dt: Option<Timestamp>,
    pub to_dt: Option<Timestamp>,
}

/// The account-index entry a proposal gives rise to: one entry for a
/// transfer operation, none otherwise.
pub open spec fn spec_to_index_for_account(p: Proposal) -> Option<ProposalAccountIndex> {
    match p.operation {
        ProposalOperation::Transfer(ctx) => Some(
            ProposalAccountIndex {
                account_id: ctx.account_id,
                created_at: p.created_timestamp,
                proposal_id: p.id,
            },
        ),
        _ => None,
    }
}

impl Proposal {
    /// Recomputes this proposal's account-index entry from its current
    /// state; only transfer operations are indexed by account.
    pub fn to_index_for_account(&self) -> (r: Option<ProposalAccountIndex>)
        ensures
            r == spec_to_index_for_account(*self),
    {
        match &self.operation {
            ProposalOperation::Transfer(ctx) => Some(
                ProposalAccountIndex {
                    account_id: ctx.account_id,
                    created_at: self.created_timestamp,
                    proposal_id: self.id,
                },
            ),
            _ => None,
        }
    }
}

/// An account-index entry lies in the criteria window.
pub open spec fn account_matches(e: ProposalAccountIndex, c: ProposalAccountIndexCriteria) -> bool {
    &&& e.account_id == c.account_id
    &&& account_from(c) <= e.created_at
    &&& e.created_at <= account_to(c)
}

/// Lower bound of an account criteria window, the minimum sentinel when
/// unset.
pub open spec fn account_from(c: ProposalAccountIndexCriteria) -> Timestamp {
    match c.from_dt {
        Some(t) => t,
        None => u64::MIN,
    }
}

/// Upper bound of an account criteria window, the maximum sentinel when
/// unset.
pub open spec fn account_to(c: ProposalAccountIndexCriteria) -> Timestamp {
    match c.to_dt {
        Some(t) => t,
        None => u64::MAX,
    }
}

/// Index of transfer proposals by account, held in engine memory.
#[derive(Clone, Debug)]
pub struct ProposalAccountIndexRepository {
    pub items: Vec<ProposalAccountIndex>,
}

impl Default for ProposalAccountIndexRepository {
    fn default() -> (r: Self)
        ensures
            r.items@ =~= Seq::<ProposalAccountIndex>::empty(),
    {
        ProposalAccountIndexRepository { items: Vec::new() }
    }
}

impl ProposalAccountIndexRepository {
    /// Well-formedness: no entry occurs twice.
    pub open spec fn wf(self) -> bool {
        forall|i: int, j: int|
            0 <= i < j < self.items@.len() ==> self.items@[i] != self.items@[j]
    }

    /// The entry is currently stored.
    pub open spec fn has_entry(self, e: ProposalAccountIndex) -> bool {
        self.items@.contains(e)
    }

    pub fn contains_index(&self, e: &ProposalAccountIndex) -> (r: bool)
        ensures
            r == self.has_entry(*e),
    {
        let mut k: usize = 0;
        while k < self.items.len()
            invariant
                0 <= k <= self.items@.len(),
                forall|i: int| 0 <= i < k ==> self.items@[i] != *e,
            decreases self.items@.len() - k,
        {
            if self.items[k] == *e {
                return true;
            }
            k = k + 1;
        }
        false
    }

    /// Stores the entry; a second insert of the same entry changes nothing.
    pub fn insert(&mut self, e: ProposalAccountIndex)
        requires
            old(self).wf(),
        ensures
            final(self).wf(),
            forall|x: ProposalAccountIndex| #[trigger]
                final(self).has_entry(x) <==> (old(self).has_entry(x) || x == e),
    {
        if !self.contains_index(&e) {
            self.items.push(e);
            proof {
                assert forall|x: ProposalAccountIndex| #[trigger]
                    final(self).has_entry(x) <==> (old(self).has_entry(x) || x == e) by {
                    if final(self).has_entry(x) {
                        let j = choose|j: int|
                            0 <= j < self.items@.len() && self.items@[j] == x;
                        if j < old(self).items@.len() {
                            assert(old(self).items@[j] == x);
                        }
                    }
                    if old(self).has_entry(x) {
                        let j = choose|j: int|
                            0 <= j < old(self).items@.len() && old(self).items@[j] == x;
                        assert(self.items@[j] == x);
                    }
                    if x == e {
                        assert(self.items@.last() == e);
                    }
                }
                assert forall|i: int, j: int|
                    0 <= i < j < self.items@.len() implies self.items@[i]
                    != self.items@[j] by {
                    if j == self.items@.len() - 1 {
                        assert(old(self).items@[i] == self.items@[i]);
                        assert(old(self).has_entry(self.items@[i]));
                    }
                }
            }
        }
    }

    /// Takes the entry out and tells whether it was present.
    pub fn remove(&mut self, e: &ProposalAccountIndex) -> (r: bool)
        requires
            old(self).wf(),
        ensures
            final(self).wf(),
            r == old(self).has_entry(*e),
            forall|x: ProposalAccountIndex| #[trigger]
                final(self).has_entry(x) <==> (old(self).has_entry(x) && x != *e),
    {
        let ghost orig: Seq<ProposalAccountIndex> = self.items@;
        let mut k: usize = 0;
        while k < self.items.len()
            invariant
                0 <= k <= self.items@.len(),
                self.items@ == orig,
                orig == old(self).items@,
                forall|i: int| 0 <= i < k ==> orig[i] != *e,
                forall|i: int, j: int| 0 <= i < j < orig.len() ==> orig[i] != orig[j],
            decreases self.items@.len() - k,
        {
            if self.items[k] == *e {
                self.items.remove(k);
                proof {
                    assert(orig[k as int] == *e);
                    assert(orig.contains(*e));
                    assert(self.items@ == orig.remove(k as int));
                    assert forall|x: ProposalAccountIndex| #[trigger]
                        self.items@.contains(x) <==> (orig.contains(x) && x != *e) by {
                        if self.items@.contains(x) {
                            let j = choose|j: int|
                                0 <= j < self.items@.len() && self.items@[j] == x;
                            if j < k {
                                assert(orig[j] == x);
                            } else {
                                assert(orig[j + 1] == x);
                            }
                            assert(orig.contains(x));
                        }
                        if orig.contains(x) && x != *e {
                            let j = choose|j: int| 0 <= j < orig.len() && orig[j] == x;
                            if j < k {
                                assert(self.items@[j] == x);
                            } else {
                                assert(j != k);
                                assert(self.items@[j - 1] == x);
                            }
                        }
                    }
                    assert forall|i: int, j: int|
                        0 <= i < j < self.items@.len() implies self.items@[i]
                        != self.items@[j] by {
                        let a: int = if i < k { i } else { i + 1 };
                        let b: int = if j < k { j } else { j + 1 };
                        assert(self.items@[i] == orig[a]);
                        assert(self.items@[j] == orig[b]);
                    }
                }
                return true;
            }
            k = k + 1;
        }
        proof {
            assert forall|x: ProposalAccountIndex| #[trigger]
                self.items@.contains(x) implies x != *e by {
                let j = choose|j: int| 0 <= j < orig.len() && orig[j] == x;
            }
            assert(!orig.contains(*e));
        }
        false
    }

    /// The set of proposal identifiers whose entry lies in the criteria
    /// window: sound, complete, and duplicate-free.
    pub fn find_by_criteria(&self, criteria: ProposalAccountIndexCriteria) -> (r: Vec<ProposalId>)
        ensures
            r@.no_duplicates(),
            forall|id: ProposalId| #[trigger]
                r@.contains(id) <==> (exists|e: ProposalAccountIndex|
                    self.has_entry(e) && account_matches(e, criteria) && e.proposal_id == id),
    {
        let from: u64 = match criteria.from_dt {
            Some(t) => t,
            None => u64::MIN,
        };
        let to: u64 = match criteria.to_dt {
            Some(t) => t,
            None => u64::MAX,
        };
        let mut r: Vec<ProposalId> = Vec::new();
        let mut k: usize = 0;
        while k < self.items.len()
            invariant
                0 <= k <= self.items@.len(),
                from == account_from(criteria),
                to == account_to(criteria),
                r@.no_duplicates(),
                forall|id: ProposalId| #[trigger]
                    r@.contains(id) <==> (exists|i: int|
                        0 <= i < k && account_matches(self.items@[i], criteria)
                            && self.items@[i].proposal_id == id),
            decreases self.items@.len() - k,
        {
            let e = self.items[k];
            let ghost prev = r@;
            let in_window = e.account_id == criteria.account_id && from <= e.created_at
                && e.created_at <= to;
            if in_window && !crate::policy::contains_id(&r, e.proposal_id) {
                r.push(e.proposal_id);
                proof {
                    assert forall|a: int, b: int|
                        0 <= a < b < r@.len() implies r@[a] != r@[b] by {
                        if b == r@.len() - 1 {
                            assert(r@[a] == prev[a]);
                            assert(prev.contains(prev[a]));
                        }
                    }
                }
            }
            proof {
                assert forall|id: ProposalId| #[trigger] r@.contains(id) implies (exists|i: int|
                    0 <= i < k + 1 && account_matches(self.items@[i], criteria)
                        && self.items@[i].proposal_id == id) by {
                    let j = choose|j: int| 0 <= j < r@.len() && r@[j] == id;
                    if j < prev.len() {
                        assert(prev[j] == id);
                        assert(prev.contains(id));
                    } else {
                        assert(account_matches(self.items@[k as int], criteria));
                        assert(self.items@[k as int].proposal_id == id);
                    }
                }
                assert forall|id: ProposalId|
                    (exists|i: int|
                        0 <= i < k + 1 && account_matches(self.items@[i], criteria)
                            && self.items@[i].proposal_id == id) implies #[trigger] r@.contains(
                    id,
                ) by {
                    let i = choose|i: int|
                        0 <= i < k + 1 && account_matches(self.items@[i], criteria)
                            && self.items@[i].proposal_id == id;
                    if i < k {
                        assert(prev.contains(id));
                        let j = choose|j: int| 0 <= j < prev.len() && prev[j] == id;
                        assert(r@[j] == id);
                    } else {
                        if prev.contains(id) {
                            let j = choose|j: int| 0 <= j < prev.len() && prev[j] == id;
                            assert(r@[j] == id);
                        } else {
                            assert(r@.last() == id);
                        }
                    }
                }
            }
            k = k + 1;
        }
        proof {
            assert forall|id: ProposalId| #[trigger] r@.contains(id) implies (exists|
                e: ProposalAccountIndex,
            |
                self.has_entry(e) && account_matches(e, criteria) && e.proposal_id == id) by {
                let i = choose|i: int|
                    0 <= i < self.items@.len() && account_matches(self.items@[i], criteria)
                        && self.items@[i].proposal_id == id;
                assert(self.items@.contains(self.items@[i]));
            }
            assert forall|id: ProposalId|
                (exists|e: ProposalAccountIndex|
                    self.has_entry(e) && account_matches(e, criteria) && e.proposal_id
                        == id) implies #[trigger] r@.contains(id) by {
                let e = choose|e: ProposalAccountIndex|
                    self.has_entry(e) && account_matches(e, criteria) && e.proposal_id == id;
                let i = choose|i: int|
                    0 <= i < self.items@.len() && self.items@[i] == e;
            }
        }
        r
    }
}

} // verus!
