use league_overlay::{Action, DecodeError, Event, FetchOutcome, Mode, Poller, ACTIVE_WAIT_MS, IDLE_WAIT_MS};

#[test]
fn new_poller_is_idle_and_probes() {
    let p = Poller::new();
    assert_eq!(p.mode, Mode::Idle);
    assert_eq!(p.pending, Action::Probe);
    assert!(!p.is_active());
}

#[test]
fn pauses_last_five_and_one_seconds() {
    assert_eq!(IDLE_WAIT_MS, 5000);
    assert_eq!(ACTIVE_WAIT_MS, 1000);
}

#[test]
fn negative_probe_waits_then_probes() {
    let mut p = Poller::new();
    assert_eq!(p.step(Event::Probed { active: false }), Action::Sleep { millis: 5000 });
    assert_eq!(p.mode, Mode::Idle);
    assert_eq!(p.step(Event::Probed { active: true }), Action::Sleep { millis: 5000 });
    assert_eq!(p.step(Event::Slept), Action::Probe);
}

#[test]
fn three_failed_probes_then_a_fetch() {
    let mut p = Poller::new();
    let mut actions = Vec::new();
    for _ in 0..3 {
        actions.push(p.step(Event::Probed { active: false }));
        actions.push(p.step(Event::Slept));
    }
    for a in &actions {
        assert_ne!(*a, Action::Fetch);
        assert_ne!(*a, Action::Publish);
    }
    assert_eq!(
        actions,
        vec![
            Action::Sleep { millis: 5000 },
            Action::Probe,
            Action::Sleep { millis: 5000 },
            Action::Probe,
            Action::Sleep { millis: 5000 },
            Action::Probe,
        ]
    );
    assert_eq!(p.step(Event::Probed { active: true }), Action::Fetch);
    assert!(p.is_active());
}

#[test]
fn decoded_snapshot_is_published_then_waits() {
    let mut p = Poller::new();
    p.step(Event::Probed { active: true });
    assert_eq!(p.step(Event::Fetched { outcome: FetchOutcome::Decoded }), Action::Publish);
    assert_eq!(p.step(Event::Published { delivered: true }), Action::Sleep { millis: 1000 });
    assert_eq!(p.step(Event::Slept), Action::Probe);
    assert_eq!(p.mode, Mode::Active);
}

#[test]
fn decode_failure_stays_active_and_waits_one_second() {
    let mut p = Poller::new();
    p.step(Event::Probed { active: true });
    assert_eq!(
        p.step(Event::Fetched { outcome: FetchOutcome::DecodeFailed }),
        Action::Sleep { millis: 1000 }
    );
    assert_eq!(p.mode, Mode::Active);
    assert_eq!(p.step(Event::Slept), Action::Probe);
    assert_eq!(p.mode, Mode::Active);
}

#[test]
fn transport_failure_stays_active() {
    let mut p = Poller::new();
    p.step(Event::Probed { active: true });
    assert_eq!(
        p.step(Event::Fetched { outcome: FetchOutcome::TransportFailed }),
        Action::Sleep { millis: 1000 }
    );
    assert_eq!(p.mode, Mode::Active);
    assert_eq!(p.step(Event::Slept), Action::Probe);
    assert_eq!(p.step(Event::Probed { active: false }), Action::Sleep { millis: 5000 });
    assert_eq!(p.mode, Mode::Idle);
}

#[test]
fn consumer_gone_stops_the_loop() {
    let mut p = Poller::new();
    p.step(Event::Probed { active: true });
    p.step(Event::Fetched { outcome: FetchOutcome::Decoded });
    assert_eq!(p.step(Event::Published { delivered: false }), Action::Stop);
    assert_eq!(p.step(Event::Slept), Action::Stop);
    assert_eq!(p.step(Event::Probed { active: true }), Action::Stop);
}

#[test]
fn unrelated_event_repeats_the_pending_action() {
    let mut p = Poller::new();
    assert_eq!(p.step(Event::Slept), Action::Probe);
    p.step(Event::Probed { active: true });
    assert_eq!(p.step(Event::Published { delivered: true }), Action::Fetch);
    assert_eq!(p.mode, Mode::Active);
}

#[test]
fn body_missing_a_field_is_reported_and_the_loop_stays_active() {
    let mut p = Poller::new();
    assert_eq!(p.step(Event::Probed { active: true }), Action::Fetch);

    // `Range` decodes from an object with the fields `start` and `end`.
    let body = "{\n  \"start\": 4\n}\n";
    let err = serde_json::from_str::<std::ops::Range<u64>>(body).unwrap_err();
    let report = DecodeError::new(err.to_string(), body, err.line(), err.column());
    assert_eq!(report.line, err.line());
    assert_eq!(report.context, vec!["{".to_string(), "  \"start\": 4".to_string(), "}".to_string()]);

    let next = p.step(Event::Fetched { outcome: FetchOutcome::DecodeFailed });
    assert_eq!(next, Action::Sleep { millis: ACTIVE_WAIT_MS });
    assert_ne!(next, Action::Publish);
    assert_eq!(p.mode, Mode::Active);
    assert_eq!(p.step(Event::Slept), Action::Probe);
}
