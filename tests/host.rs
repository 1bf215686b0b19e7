use bevy_uikit::host::{AppHost, Dispatch, HostPhase};

#[test]
fn message_to_free_application_is_delivered_now() {
    let mut host: AppHost<String, u32> = AppHost::new();
    assert_eq!(host.phase(), HostPhase::Vacant);
    host.store("app".to_string());
    assert_eq!(host.phase(), HostPhase::Running);
    match host.send(5) {
        Dispatch::Now(app, message) => {
            assert_eq!(app, "app");
            assert_eq!(message, 5);
            assert!(host.is_in_use());
            host.release(app);
        }
        Dispatch::Deferred => panic!("a free application must take the message"),
    }
    assert!(!host.is_in_use());
    assert_eq!(host.deferred_len(), 0);
}

#[test]
fn reentrant_message_is_deferred_and_delivered_once() {
    let mut host: AppHost<String, u32> = AppHost::new();
    host.store("app".to_string());
    let app = host.access();
    // A callback fired while the application is in use.
    assert!(matches!(host.send(1), Dispatch::Deferred));
    assert!(matches!(host.send(2), Dispatch::Deferred));
    assert_eq!(host.deferred_len(), 2);
    // Nothing is delivered while the application is out.
    assert!(host.next_deferred().is_none());
    host.release(app);

    let mut delivered = Vec::new();
    while let Some((app, message)) = host.next_deferred() {
        assert!(host.is_in_use());
        delivered.push(message);
        host.release(app);
    }
    assert_eq!(delivered, vec![1, 2]);
    assert_eq!(host.deferred_len(), 0);
    assert!(host.next_deferred().is_none());
}

#[test]
fn terminate_hands_back_application() {
    let mut host: AppHost<String, u32> = AppHost::new();
    host.store("app".to_string());
    let app = host.terminate();
    assert_eq!(app, "app");
    assert_eq!(host.phase(), HostPhase::Terminated);
    assert!(host.next_deferred().is_none());
}
