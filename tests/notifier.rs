use api_gen::notifier::{NotificationError, Notifier, NotifierState};

#[test]
fn should_notify_successfully() {
    let data = 1;
    let mut notifier = Notifier::new();

    let _ = notifier.notify(data);

    let result = notifier.take_notification().unwrap();
    assert!(result.is_ok());
    assert_eq!(data, result.unwrap());
}

#[test]
fn should_not_allow_multiple_notifications() {
    let data = 1;
    let mut notifier = Notifier::new();

    let _first_result = notifier.notify(data);
    let second_result = notifier.notify(data);

    assert!(second_result.is_err());
    assert!(matches!(second_result, Err(NotificationError::AlreadyFired)));
}

#[test]
fn should_get_result_immediately_if_notification_already_fired() {
    let data = 1;
    let mut notifier = Notifier::new();

    let _ = notifier.notify(data);

    let notification_result = notifier.take_notification().unwrap();
    assert!(notification_result.is_ok());
    assert_eq!(data, notification_result.unwrap());
}

#[test]
fn should_become_corrupted_if_data_cannot_be_saved() {
    let mut notifier: Notifier<i32> = Notifier::new();

    let result = notifier.notify_unsaved();

    assert!(result.is_ok());
    assert!(matches!(notifier.get_state(), NotifierState::Corrupted));
}

#[test]
fn should_fail_with_unavailable_data_for_corrupted_notifier() {
    let mut notifier: Notifier<i32> = Notifier::new();

    let _ = notifier.notify_unsaved();

    let result = notifier.take_notification().unwrap();
    assert!(result.is_err());
    assert!(matches!(result, Err(NotificationError::NoAvailableData)));
}

#[test]
fn pending_notifier_has_nothing_to_take() {
    let mut notifier: Notifier<i32> = Notifier::new();

    assert!(notifier.can_notify());
    assert!(matches!(notifier.get_state(), NotifierState::Pending));
    assert!(notifier.take_notification().is_none());
    assert!(notifier.can_notify());
}

#[test]
fn payload_is_delivered_once() {
    let mut notifier = Notifier::new();

    assert!(notifier.notify(7).is_ok());
    assert!(!notifier.can_notify());
    assert_eq!(notifier.take_notification().unwrap().unwrap(), 7);
    assert!(matches!(
        notifier.take_notification(),
        Some(Err(NotificationError::NoAvailableData))
    ));
    assert!(matches!(notifier.notify(8), Err(NotificationError::AlreadyFired)));
    assert!(matches!(
        notifier.take_notification(),
        Some(Err(NotificationError::NoAvailableData))
    ));
}

#[test]
fn corrupted_notifier_refuses_later_notification() {
    let mut notifier = Notifier::new();

    assert!(notifier.notify_unsaved().is_ok());
    assert!(matches!(notifier.notify(3), Err(NotificationError::AlreadyFired)));
    assert!(matches!(notifier.get_state(), NotifierState::Corrupted));
}
