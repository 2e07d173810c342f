use station::notification::{
    LocalizedText, Notification, NotificationError, NotificationFindClause, NotificationKind,
    NotificationService, NotificationStatus, NotificationType,
};

fn mock_notification(id: u128, target_user_id: u128) -> Notification {
    Notification {
        id,
        status: NotificationStatus::Read,
        target_user_id,
        title: LocalizedText { body: String::from("title"), key: String::from("title_key") },
        message: LocalizedText { body: String::from("body"), key: String::from("body_key") },
        notification_type: NotificationType::SystemMessage,
        created_timestamp: 10,
        last_modification_timestamp: 10,
    }
}

fn empty_clause() -> NotificationFindClause {
    NotificationFindClause { from_dt: None, to_dt: None, status: None, kind: None }
}

#[test]
fn get_notification() {
    let caller: u128 = 9;
    let mut service = NotificationService::new();
    let notification = mock_notification(1, caller);
    service.notifications.push(notification.clone());

    let result = service.get_notification(notification.id, caller);

    assert_eq!(notification, *result.unwrap());
}

#[test]
fn fail_get_notification_not_allowed() {
    let caller: u128 = 9;
    let mut service = NotificationService::new();
    let notification = mock_notification(1, 0x01010101010101010101010101010101);
    service.notifications.push(notification);

    let result = service.get_notification(1, caller);

    assert!(result.is_err());
    assert_eq!(result.unwrap_err(), NotificationError::Forbidden);
}

#[test]
fn read_notification_happy_path() {
    let caller: u128 = 9;
    let mut service = NotificationService::new();
    let mut notification = mock_notification(42, caller);
    notification.status = NotificationStatus::Sent;
    service.notifications.push(notification);

    let result = service.mark_read(&vec![42], true, caller, 77);

    assert!(result.is_ok());
    let updated = service.get_notification(42, caller).unwrap();
    assert_eq!(updated.status, NotificationStatus::Read);
    assert_eq!(updated.last_modification_timestamp, 77);
}

#[test]
fn mark_read_reports_first_violation_and_changes_nothing() {
    let caller: u128 = 9;
    let mut service = NotificationService::new();
    let mut mine = mock_notification(1, caller);
    mine.status = NotificationStatus::Sent;
    service.notifications.push(mine);
    service.notifications.push(mock_notification(2, 8));

    assert_eq!(
        service.mark_read(&vec![1, 3], true, caller, 77),
        Err(NotificationError::NotFound)
    );
    assert_eq!(
        service.mark_read(&vec![1, 2], true, caller, 77),
        Err(NotificationError::Forbidden)
    );
    assert_eq!(
        service.get_notification(1, caller).unwrap().status,
        NotificationStatus::Sent
    );
}

#[test]
fn mark_unread_restores_sent_status() {
    let caller: u128 = 9;
    let mut service = NotificationService::new();
    service.notifications.push(mock_notification(1, caller));
    assert!(service.mark_read(&vec![1], false, caller, 99).is_ok());
    let updated = service.get_notification(1, caller).unwrap();
    assert_eq!(updated.status, NotificationStatus::Sent);
    assert_eq!(updated.last_modification_timestamp, 99);
}

#[test]
fn send_notification_fills_default_texts() {
    let mut service = NotificationService::new();
    assert!(service.send_notification(
        1,
        9,
        NotificationType::ProposalCreated(10),
        None,
        None,
        55,
    ));
    let n = service.get_notification(1, 9).unwrap();
    assert_eq!(n.status, NotificationStatus::Sent);
    assert_eq!(n.title.body, "New proposal created");
    assert_eq!(n.title.key, "notification_proposal_created");
    assert_eq!(n.message.body, "Please review it and vote on the action to be taken.");
    assert_eq!(n.message.key, "notification_proposal_created_message");
    assert_eq!(n.created_timestamp, 55);

    assert!(service.send_notification(2, 9, NotificationType::SystemMessage, None, None, 56));
    let n = service.get_notification(2, 9).unwrap();
    assert_eq!(n.title.body, "system_message_title");
    assert_eq!(n.message.body, "");

    assert!(service.send_notification(
        3,
        9,
        NotificationType::TransferProposalCreated(11),
        None,
        None,
        57,
    ));
    let n = service.get_notification(3, 9).unwrap();
    assert_eq!(n.title.body, "New transfer requested");
    assert_eq!(n.message.key, "notification_transfer_proposal_created_message");
}

#[test]
fn send_notification_keeps_given_texts_and_refuses_duplicates() {
    let mut service = NotificationService::new();
    let title = LocalizedText { body: String::from("custom"), key: String::from("custom_key") };
    assert!(service.send_notification(
        1,
        9,
        NotificationType::SystemMessage,
        Some(title.clone()),
        None,
        55,
    ));
    let n = service.get_notification(1, 9).unwrap();
    assert_eq!(n.title, title);
    assert!(!service.send_notification(1, 9, NotificationType::SystemMessage, None, None, 56));
    assert_eq!(service.notifications.len(), 1);
}

#[test]
fn list_notifications_applies_every_filter() {
    let caller: u128 = 9;
    let mut service = NotificationService::new();
    let mut a = mock_notification(1, caller);
    a.created_timestamp = 10;
    a.status = NotificationStatus::Sent;
    a.notification_type = NotificationType::ProposalCreated(5);
    let mut b = mock_notification(2, caller);
    b.created_timestamp = 20;
    b.status = NotificationStatus::Read;
    let c = mock_notification(3, 8);
    service.notifications.push(a);
    service.notifications.push(b);
    service.notifications.push(c);

    assert_eq!(service.list_notifications(caller, empty_clause()), vec![1, 2]);

    let mut windowed = empty_clause();
    windowed.from_dt = Some(15);
    assert_eq!(service.list_notifications(caller, windowed), vec![2]);

    let mut by_status = empty_clause();
    by_status.status = Some(NotificationStatus::Sent);
    assert_eq!(service.list_notifications(caller, by_status), vec![1]);

    let mut by_kind = empty_clause();
    by_kind.kind = Some(NotificationKind::ProposalCreated);
    assert_eq!(service.list_notifications(caller, by_kind), vec![1]);

    assert_eq!(service.list_notifications(8, empty_clause()), vec![3]);
}
