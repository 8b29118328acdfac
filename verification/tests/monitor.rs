use honestly::database::{
    MonitorAction, MonitorEvent, MonitorState, CHECK_INTERVAL_SECS, MAX_RECONNECT_ATTEMPTS,
};

#[test]
fn open_connection_keeps_watching() {
    let s = MonitorState::new();
    assert_eq!(s.next(MonitorEvent::Ticked { closed: false }), (MonitorState::Watching, MonitorAction::WaitTick));
    assert_eq!(CHECK_INTERVAL_SECS, 30);
}

#[test]
fn lost_connection_is_retried_with_growing_waits() {
    let mut s = MonitorState::new();
    let (n, a) = s.next(MonitorEvent::Ticked { closed: true });
    assert_eq!(a, MonitorAction::Connect { attempt: 1 });
    s = n;
    let mut sleeps = Vec::new();
    let mut connects = 1;
    loop {
        let (n, a) = s.next(MonitorEvent::ConnectFailed);
        s = n;
        match a {
            MonitorAction::Sleep { secs } => {
                sleeps.push(secs);
                let (n, a) = s.next(MonitorEvent::Slept);
                s = n;
                assert!(matches!(a, MonitorAction::Connect { .. }));
                connects += 1;
            }
            MonitorAction::WaitTick => break,
            other => panic!("unexpected {:?}", other),
        }
    }
    assert_eq!(sleeps, vec![2, 4, 6, 8]);
    assert_eq!(connects, MAX_RECONNECT_ATTEMPTS);
    assert_eq!(s, MonitorState::Watching);
}

#[test]
fn reconnection_installs_the_client() {
    let s = MonitorState::new();
    let (s, _) = s.next(MonitorEvent::Ticked { closed: true });
    let (s, _) = s.next(MonitorEvent::ConnectFailed);
    let (s, a) = s.next(MonitorEvent::Slept);
    assert_eq!(a, MonitorAction::Connect { attempt: 2 });
    let (s, a) = s.next(MonitorEvent::Connected);
    assert_eq!(a, MonitorAction::Install);
    assert_eq!(s, MonitorState::Watching);
}

#[test]
fn monitor_accepts_only_expected_events() {
    let s = MonitorState::new();
    assert!(s.accepts(MonitorEvent::Ticked { closed: true }));
    assert!(!s.accepts(MonitorEvent::Slept));
    let (s, _) = s.next(MonitorEvent::Ticked { closed: true });
    assert!(s.accepts(MonitorEvent::Connected));
    assert!(s.accepts(MonitorEvent::ConnectFailed));
    assert!(!s.accepts(MonitorEvent::Slept));
}
