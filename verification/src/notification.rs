//! User notifications: the store the notification trigger writes into and
//! the access-checked reads and status updates over it.

use vstd::prelude::*;
use vstd::pervasive::VecAdditionalExecFns;

use crate::model::{ProposalId, Timestamp, UserId, UUID};

verus! {

pub type NotificationId = UUID;

#[derive(Clone, Copy, Debug, PartialEq, Eq, Structural)]
pub enum NotificationStatus {
    Sent,
    Read,
}

/// What a notification is about.
#[derive(Clone, Copy, Debug, PartialEq, Eq, Structural)]
pub enum NotificationType {
    SystemMessage,
    ProposalCreated(ProposalId),
    TransferProposalCreated(ProposalId),
}

/// The kind of a notification, without its payload; used as a list filter.
#[derive(Clone, Copy, Debug, PartialEq, Eq, Structural)]
pub enum NotificationKind {
    SystemMessage,
    ProposalCreated,
    TransferProposalCreated,
}

/// The kind of a notification type.
pub open spec fn spec_notification_kind(t: NotificationType) -> NotificationKind {
    match t {
        NotificationType::SystemMessage => NotificationKind::SystemMessage,
        NotificationType::ProposalCreated(_) => NotificationKind::ProposalCreated,
        NotificationType::TransferProposalCreated(_) => NotificationKind::TransferProposalCreated,
    }
}

#[derive(Clone, Copy, Debug, PartialEq, Eq, Structural)]
pub enum NotificationError {
    NotFound,
    Forbidden,
}

/// A displayed text together with its localization key.
#[derive(Clone, Debug, PartialEq, Eq)]
pub struct LocalizedText {
    pub body: String,
    pub key: String,
}

/// A notification addressed to one user, with a localized title and
/// message.
#[derive(Clone, Debug, PartialEq, Eq)]
pub struct Notification {
    pub id: NotificationId,
    pub status: NotificationStatus,
    pub target_user_id: UserId,
    pub title: LocalizedText,
    pub message: LocalizedText,
    pub notification_type: NotificationType,
    pub created_timestamp: Timestamp,
    pub last_modification_timestamp: Timestamp,
}

/// Filter of a notification listing: a creation-time window, and optional
/// status and kind.
#[derive(Clone, Copy, Debug)]
pub struct NotificationFindClause {
    pub from_dt: Option<Timestamp>,
    pub to_dt: Option<Timestamp>,
    pub status: Option<NotificationStatus>,
    pub kind: Option<NotificationKind>,
}

/// A notification lies in the clause's window and matches its filters and
/// addressee.
pub open spec fn notification_matches(
    n: Notification,
    caller: UserId,
    clause: NotificationFindClause,
) -> bool {
    &&& n.target_user_id == caller
    &&& (clause.from_dt matches Some(t) ==> t <= n.created_timestamp)
    &&& (clause.to_dt matches Some(t) ==> n.created_timestamp <= t)
    &&& (clause.status matches Some(st) ==> n.status == st)
    &&& (clause.kind matches Some(k) ==> spec_notification_kind(n.notification_type) == k)
}

/// The notification store and its access-checked operations.
pub struct NotificationService {
    pub notifications: Vec<Notification>,
}

impl NotificationService {
    /// Well-formedness: notification identifiers are unique.
    pub open spec fn wf(self) -> bool {
        forall|i: int, j: int|
            0 <= i < j < self.notifications@.len() ==> self.notifications@[i].id
                != self.notifications@[j].id
    }

    pub open spec fn spec_contains(self, id: NotificationId) -> bool {
        exists|i: int|
            0 <= i < self.notifications@.len() && self.notifications@[i].id == id
    }

    pub open spec fn spec_position(self, id: NotificationId) -> int {
        choose|i: int|
            0 <= i < self.notifications@.len() && self.notifications@[i].id == id
    }

    pub open spec fn spec_notification(self, id: NotificationId) -> Notification {
        self.notifications@[self.spec_position(id)]
    }

    pub fn new() -> (r: Self)
        ensures
            r.wf(),
            r.notifications@ =~= Seq::<Notification>::empty(),
    {
        NotificationService { notifications: Vec::new() }
    }

    fn position_of(&self, id: NotificationId) -> (r: Option<usize>)
        ensures
            match r {
                Some(k) => 0 <= k < self.notifications@.len() && self.notifications@[
                    k as int
                ].id == id,
                None => !self.spec_contains(id),
            },
    {
        let mut k: usize = 0;
        while k < self.notifications.len()
            invariant
                0 <= k <= self.notifications@.len(),
                forall|i: int| 0 <= i < k ==> self.notifications@[i].id != id,
            decreases self.notifications@.len() - k,
        {
            if self.notifications[k].id == id {
                return Some(k);
            }
            k = k + 1;
        }
        None
    }

    /// Access-checked read of one notification: only its addressee may see
    /// it.
    pub fn get_notification(&self, id: NotificationId, caller: UserId) -> (r: Result<
        &Notification,
        NotificationError,
    >)
        requires
            self.wf(),
        ensures
            !self.spec_contains(id) ==> (r is Err && r->Err_0 == NotificationError::NotFound),
            (self.spec_contains(id) && self.spec_notification(id).target_user_id != caller) ==> (
            r is Err && r->Err_0 == NotificationError::Forbidden),
            (self.spec_contains(id) && self.spec_notification(id).target_user_id == caller) ==> (
            r is Ok && *r->Ok_0 == self.spec_notification(id)),
    {
        let pos = match self.position_of(id) {
            None => {
                return Err(NotificationError::NotFound);
            },
            Some(k) => k,
        };
        proof {
            lemma_notification_position_unique(*self, pos as int);
        }
        let n = &self.notifications[pos];
        if n.target_user_id != caller {
            return Err(NotificationError::Forbidden);
        }
        Ok(n)
    }

    /// Lists the identifiers of the caller's notifications that match the
    /// clause.
    pub fn list_notifications(&self, caller: UserId, clause: NotificationFindClause) -> (r: Vec<
        NotificationId,
    >)
        requires
            self.wf(),
        ensures
            r@.no_duplicates(),
            forall|id: NotificationId| #[trigger]
                r@.contains(id) <==> (exists|i: int|
                    0 <= i < self.notifications@.len() && self.notifications@[i].id == id
                        && notification_matches(self.notifications@[i], caller, clause)),
    {
        let mut r: Vec<NotificationId> = Vec::new();
        let mut k: usize = 0;
        while k < self.notifications.len()
            invariant
                0 <= k <= self.notifications@.len(),
                self.wf(),
                r@.no_duplicates(),
                forall|id: NotificationId| #[trigger]
                    r@.contains(id) <==> (exists|i: int|
                        0 <= i < k && self.notifications@[i].id == id && notification_matches(
                            self.notifications@[i],
                            caller,
                            clause,
                        )),
            decreases self.notifications@.len() - k,
        {
            let n = &self.notifications[k];
            let ghost prev = r@;
            let in_window = (match clause.from_dt {
                Some(t) => t <= n.created_timestamp,
                None => true,
            }) && (match clause.to_dt {
                Some(t) => n.created_timestamp <= t,
                None => true,
            });
            let status_ok = match clause.status {
                Some(st) => n.status == st,
                None => true,
            };
            let kind_ok = match clause.kind {
                Some(kind) => {
                    let nk = match n.notification_type {
                        NotificationType::SystemMessage => NotificationKind::SystemMessage,
                        NotificationType::ProposalCreated(_) => NotificationKind::ProposalCreated,
                        NotificationType::TransferProposalCreated(_) => {
                            NotificationKind::TransferProposalCreated
                        },
                    };
                    nk == kind
                },
                None => true,
            };
            if n.target_user_id == caller && in_window && status_ok && kind_ok {
                proof {
                    if prev.contains(n.id) {
                        let i = choose|i: int|
                            0 <= i < k && self.notifications@[i].id == n.id
                                && notification_matches(self.notifications@[i], caller, clause);
                        assert(self.notifications@[i].id != self.notifications@[k as int].id);
                    }
                }
                r.push(n.id);
            }
            proof {
                assert forall|id: NotificationId| #[trigger] r@.contains(id) implies (exists|
                    i: int,
                |
                    0 <= i < k + 1 && self.notifications@[i].id == id && notification_matches(
                        self.notifications@[i],
                        caller,
                        clause,
                    )) by {
                    let j = choose|j: int| 0 <= j < r@.len() && r@[j] == id;
                    if j < prev.len() {
                        assert(prev[j] == id);
                        assert(prev.contains(id));
                    } else {
                        assert(self.notifications@[k as int].id == id);
                        assert(notification_matches(self.notifications@[k as int], caller, clause));
                    }
                }
                assert forall|id: NotificationId|
                    (exists|i: int|
                        0 <= i < k + 1 && self.notifications@[i].id == id && notification_matches(
                            self.notifications@[i],
                            caller,
                            clause,
                        )) implies #[trigger] r@.contains(id) by {
                    let i = choose|i: int|
                        0 <= i < k + 1 && self.notifications@[i].id == id && notification_matches(
                            self.notifications@[i],
                            caller,
                            clause,
                        );
                    if i < k {
                        assert(prev.contains(id));
                        let j = choose|j: int| 0 <= j < prev.len() && prev[j] == id;
                        assert(r@[j] == id);
                    } else {
                        assert(r@.last() == id);
                    }
                }
            }
            k = k + 1;
        }
        r
    }

    /// Sets the read flag of each listed notification, after checking that
    /// every one is present and addressed to the caller; on any violation
    /// nothing changes. Violations are reported in the order the
    /// identifiers were given.
    pub fn mark_read(
        &mut self,
        ids: &Vec<NotificationId>,
        read: bool,
        caller: UserId,
        now: Timestamp,
    ) -> (r: Result<(), NotificationError>)
        requires
            old(self).wf(),
        ensures
            final(self).wf(),
            first_violation(*old(self), ids@, caller) matches Some(e) ==> (r == Err::<
                (),
                NotificationError,
            >(e) && *final(self) == *old(self)),
            first_violation(*old(self), ids@, caller) is None ==> (r == Ok::<
                (),
                NotificationError,
            >(()) && final(self).notifications@.len() == old(self).notifications@.len() && forall|
                j: int,
            |
                0 <= j < old(self).notifications@.len() ==> #[trigger] final(self).notifications@[j]
                    == (if ids@.contains(old(self).notifications@[j].id) {
                    mark_read_shape(old(self).notifications@[j], read, now)
                } else {
                    old(self).notifications@[j]
                })),
    {
        let ghost pre = *self;
        proof {
            assert(ids@.skip(0) =~= ids@);
        }
        let mut k: usize = 0;
        while k < ids.len()
            invariant
                0 <= k <= ids@.len(),
                *self == pre,
                pre.wf(),
                first_violation(pre, ids@.skip(k as int), caller) == first_violation(
                    pre,
                    ids@,
                    caller,
                ),
            decreases ids@.len() - k,
        {
            proof {
                assert(ids@.skip(k as int).len() > 0);
                assert(ids@.skip(k as int)[0] == ids@[k as int]);
                assert(ids@.skip(k as int).drop_first() =~= ids@.skip(k + 1));
            }
            match self.position_of(ids[k]) {
                None => {
                    return Err(NotificationError::NotFound);
                },
                Some(p) => {
                    proof {
                        lemma_notification_position_unique(pre, p as int);
                    }
                    if self.notifications[p].target_user_id != caller {
                        return Err(NotificationError::Forbidden);
                    }
                },
            }
            k = k + 1;
        }
        proof {
            assert(ids@.skip(ids@.len() as int) =~= Seq::<NotificationId>::empty());
        }
        let new_status = if read {
            NotificationStatus::Read
        } else {
            NotificationStatus::Sent
        };
        let mut k: usize = 0;
        while k < self.notifications.len()
            invariant
                0 <= k <= self.notifications@.len(),
                self.notifications@.len() == pre.notifications@.len(),
                new_status == (if read {
                    NotificationStatus::Read
                } else {
                    NotificationStatus::Sent
                }),
                forall|j: int|
                    0 <= j < k ==> #[trigger] self.notifications@[j] == (if ids@.contains(
                        pre.notifications@[j].id,
                    ) {
                        mark_read_shape(pre.notifications@[j], read, now)
                    } else {
                        pre.notifications@[j]
                    }),
                forall|j: int|
                    k <= j < self.notifications@.len() ==> #[trigger] self.notifications@[j]
                        == pre.notifications@[j],
            decreases self.notifications@.len() - k,
        {
            let listed = {
                let n = &self.notifications[k];
                crate::policy::contains_id(ids, n.id)
            };
            if listed {
                let mut n = placeholder_notification();
                self.notifications.set_and_swap(k, &mut n);
                n.status = new_status;
                n.last_modification_timestamp = now;
                self.notifications.set_and_swap(k, &mut n);
            }
            k = k + 1;
        }
        proof {
            assert forall|i: int, j: int|
                0 <= i < j < self.notifications@.len() implies self.notifications@[i].id
                != self.notifications@[j].id by {
                assert(self.notifications@[i].id == pre.notifications@[i].id);
                assert(self.notifications@[j].id == pre.notifications@[j].id);
            }
        }
        Ok(())
    }

    /// Stores a freshly sent notification, filling in the default title and
    /// message of its type when none are given; refuses an identifier that
    /// is already taken.
    pub fn send_notification(
        &mut self,
        id: NotificationId,
        user_id: UserId,
        notification_type: NotificationType,
        title: Option<LocalizedText>,
        message: Option<LocalizedText>,
        now: Timestamp,
    ) -> (r: bool)
        requires
            old(self).wf(),
        ensures
            final(self).wf(),
            old(self).spec_contains(id) ==> (r == false && *final(self) == *old(self)),
            !old(self).spec_contains(id) ==> (r == true && final(self).notifications@.drop_last()
                == old(self).notifications@ && final(self).notifications@.len() == old(
                self,
            ).notifications@.len() + 1 && sent_shape(
                final(self).notifications@.last(),
                id,
                user_id,
                notification_type,
                title,
                message,
                now,
            )),
    {
        if let Some(_p) = self.position_of(id) {
            return false;
        }
        let title_text = match title {
            Some(t) => t,
            None => match &notification_type {
                NotificationType::SystemMessage => LocalizedText {
                    body: "system_message_title".to_owned(),
                    key: "system_message_title".to_owned(),
                },
                NotificationType::ProposalCreated(_) => LocalizedText {
                    body: "New proposal created".to_owned(),
                    key: "notification_proposal_created".to_owned(),
                },
                NotificationType::TransferProposalCreated(_) => LocalizedText {
                    body: "New transfer requested".to_owned(),
                    key: "notification_transfer_proposal_created_title".to_owned(),
                },
            },
        };
        let message_text = match message {
            Some(m) => m,
            None => match &notification_type {
                NotificationType::SystemMessage => LocalizedText {
                    body: "".to_owned(),
                    key: "".to_owned(),
                },
                NotificationType::ProposalCreated(_) => LocalizedText {
                    body: "Please review it and vote on the action to be taken.".to_owned(),
                    key: "notification_proposal_created_message".to_owned(),
                },
                NotificationType::TransferProposalCreated(_) => LocalizedText {
                    body: "Please review it and vote on the action to be taken.".to_owned(),
                    key: "notification_transfer_proposal_created_message".to_owned(),
                },
            },
        };
        let ghost pre = *self;
        self.notifications.push(
            Notification {
                id,
                status: NotificationStatus::Sent,
                target_user_id: user_id,
                title: title_text,
                message: message_text,
                notification_type,
                created_timestamp: now,
                last_modification_timestamp: now,
            },
        );
        proof {
            assert forall|i: int, j: int|
                0 <= i < j < self.notifications@.len() implies self.notifications@[i].id
                != self.notifications@[j].id by {
                if j == self.notifications@.len() - 1 {
                    assert(self.notifications@[i] == pre.notifications@[i]);
                    assert(!pre.spec_contains(id));
                }
            }
        }
        true
    }
}

/// A notification after its read flag is set: only the status and the
/// modification time move.
pub open spec fn mark_read_shape(n: Notification, read: bool, now: Timestamp) -> Notification {
    Notification {
        status: if read {
            NotificationStatus::Read
        } else {
            NotificationStatus::Sent
        },
        last_modification_timestamp: now,
        ..n
    }
}

/// The first problem a read-flag update would hit, scanning the given
/// identifiers in order: an unknown identifier, or one addressed to
/// somebody else.
pub open spec fn first_violation(
    s: NotificationService,
    ids: Seq<NotificationId>,
    caller: UserId,
) -> Option<NotificationError>
    decreases ids.len(),
{
    if ids.len() == 0 {
        None
    } else if !s.spec_contains(ids[0]) {
        Some(NotificationError::NotFound)
    } else if s.spec_notification(ids[0]).target_user_id != caller {
        Some(NotificationError::Forbidden)
    } else {
        first_violation(s, ids.drop_first(), caller)
    }
}

/// Shape of a freshly sent notification: status `Sent`, both timestamps at
/// the send time, and the given or default title and message of its type.
pub open spec fn sent_shape(
    n: Notification,
    id: NotificationId,
    user_id: UserId,
    notification_type: NotificationType,
    title: Option<LocalizedText>,
    message: Option<LocalizedText>,
    now: Timestamp,
) -> bool {
    &&& n.id == id
    &&& n.status is Sent
    &&& n.target_user_id == user_id
    &&& n.notification_type == notification_type
    &&& n.created_timestamp == now
    &&& n.last_modification_timestamp == now
    &&& (title matches Some(t) ==> n.title == t)
    &&& (title is None ==> default_title_shape(n.title, notification_type))
    &&& (message matches Some(m) ==> n.message == m)
    &&& (message is None ==> default_message_shape(n.message, notification_type))
}

/// The default title of each notification type.
pub open spec fn default_title_shape(t: LocalizedText, notification_type: NotificationType) -> bool {
    match notification_type {
        NotificationType::SystemMessage => t.body@ == "system_message_title"@ && t.key@
            == "system_message_title"@,
        NotificationType::ProposalCreated(_) => t.body@ == "New proposal created"@ && t.key@
            == "notification_proposal_created"@,
        NotificationType::TransferProposalCreated(_) => t.body@ == "New transfer requested"@
            && t.key@ == "notification_transfer_proposal_created_title"@,
    }
}

/// The default message of each notification type.
pub open spec fn default_message_shape(
    m: LocalizedText,
    notification_type: NotificationType,
) -> bool {
    match notification_type {
        NotificationType::SystemMessage => m.body@ == ""@ && m.key@ == ""@,
        NotificationType::ProposalCreated(_) => m.body@
            == "Please review it and vote on the action to be taken."@ && m.key@
            == "notification_proposal_created_message"@,
        NotificationType::TransferProposalCreated(_) => m.body@
            == "Please review it and vote on the action to be taken."@ && m.key@
            == "notification_transfer_proposal_created_message"@,
    }
}

/// An inert notification value, used only to swap a stored notification
/// out for in-place modification.
fn placeholder_notification() -> Notification {
    Notification {
        id: 0,
        status: NotificationStatus::Sent,
        target_user_id: 0,
        title: LocalizedText { body: String::new(), key: String::new() },
        message: LocalizedText { body: String::new(), key: String::new() },
        notification_type: NotificationType::SystemMessage,
        created_timestamp: 0,
        last_modification_timestamp: 0,
    }
}

/// Position, membership and lookup agree on a stored notification when
/// identifiers are unique.
pub proof fn lemma_notification_position_unique(s: NotificationService, i: int)
    requires
        s.wf(),
        0 <= i < s.notifications@.len(),
    ensures
        s.spec_contains(s.notifications@[i].id),
        s.spec_position(s.notifications@[i].id) == i,
        s.spec_notification(s.notifications@[i].id) == s.notifications@[i],
{
    let id = s.notifications@[i].id;
    assert(s.spec_contains(id));
    let cp = s.spec_position(id);
    assert(0 <= cp < s.notifications@.len() && s.notifications@[cp].id == id);
    if cp != i {
        assert(s.notifications@[cp].id != s.notifications@[i].id);
    }
}

} // verus!
