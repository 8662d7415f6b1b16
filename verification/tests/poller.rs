use server_bootstrap::poller::{
    PollAction, PollEvent, PollState, Poller, MAX_ATTEMPTS, RETRY_INTERVAL_MS, SETTLE_DELAY_MS,
};

/// Drives a poller against a listener that accepts from attempt `ready_at`
/// on (counted from 0). Returns the final action and the attempts made.
fn drive(ready_at: u32) -> (PollAction, u32) {
    let mut poller = Poller::new();
    let mut attempts: u32 = 0;
    loop {
        let outcome = if attempts >= ready_at { PollEvent::Accepted } else { PollEvent::Refused };
        attempts += 1;
        let pause = poller.on_event(outcome);
        assert!(matches!(pause, PollAction::Sleep { .. }));
        let next = poller.on_event(PollEvent::Elapsed);
        if next != PollAction::Connect {
            return (next, attempts);
        }
    }
}

#[test]
fn budget_and_delays_are_fixed() {
    assert_eq!(MAX_ATTEMPTS, 150);
    assert_eq!(RETRY_INTERVAL_MS, 200);
    assert_eq!(SETTLE_DELAY_MS, 300);
}

#[test]
fn listener_that_accepts_within_the_budget_gives_success() {
    for ready_at in [0, 1, 17, 148, 149] {
        let (action, attempts) = drive(ready_at);
        assert_eq!(action, PollAction::Succeed);
        assert_eq!(attempts, ready_at + 1);
    }
}

#[test]
fn listener_that_accepts_too_late_gives_timeout() {
    for ready_at in [150, 151, 1000] {
        let (action, attempts) = drive(ready_at);
        assert_eq!(action, PollAction::TimeOut);
        assert_eq!(attempts, 150);
    }
}

#[test]
fn accepted_connection_settles_before_success() {
    let mut poller = Poller::new();
    assert_eq!(poller.on_event(PollEvent::Accepted), PollAction::Sleep { millis: 300 });
    assert_eq!(poller.state, PollState::Settling);
    assert!(!poller.is_ready());
    assert_eq!(poller.on_event(PollEvent::Elapsed), PollAction::Succeed);
    assert!(poller.is_ready());
    assert!(!poller.is_timed_out());
}

#[test]
fn refused_connection_waits_before_the_next_attempt() {
    let mut poller = Poller::new();
    assert_eq!(poller.on_event(PollEvent::Refused), PollAction::Sleep { millis: 200 });
    assert_eq!(poller, Poller { state: PollState::Waiting, refused: 1 });
    assert_eq!(poller.on_event(PollEvent::Elapsed), PollAction::Connect);
    assert_eq!(poller, Poller { state: PollState::Connecting, refused: 1 });
}

#[test]
fn finished_poller_stays_as_it_is() {
    let mut poller = Poller::new();
    poller.on_event(PollEvent::Accepted);
    poller.on_event(PollEvent::Elapsed);
    let ready = poller;
    for event in [PollEvent::Accepted, PollEvent::Refused, PollEvent::Elapsed] {
        assert_eq!(poller.on_event(event), PollAction::Stay);
        assert_eq!(poller, ready);
    }
}

#[test]
fn event_out_of_turn_is_ignored() {
    let mut poller = Poller::new();
    assert_eq!(poller.on_event(PollEvent::Elapsed), PollAction::Stay);
    assert_eq!(poller, Poller::new());
    poller.on_event(PollEvent::Refused);
    assert_eq!(poller.on_event(PollEvent::Accepted), PollAction::Stay);
    assert_eq!(poller.state, PollState::Waiting);
}
