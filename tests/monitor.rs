use garage_door_monitor::alert::{decimal_string, maybe_send, open_for_time, plural, webhook_body};
use garage_door_monitor::status::{door_json, open_for_secs, route, secs_since_notified, status_line, Route};
use garage_door_monitor::{AtomicDoorState, DoorState, State, Timestamp};

fn state(door_state: DoorState, timestamp: Timestamp, notified_at: Option<u64>) -> State {
    State { door_state, timestamp, notified_at }
}

#[test]
fn duration_formatting() {
    assert_eq!(open_for_time(1_000), "1 second");
    assert_eq!(open_for_time(2_000), "2 seconds");
    assert_eq!(open_for_time(60_000), "60 seconds");
    assert_eq!(open_for_time(61_000), "1 minute");
    assert_eq!(open_for_time(125_000), "2 minutes");
}

#[test]
fn duration_formatting_truncates() {
    assert_eq!(open_for_time(0), "0 seconds");
    assert_eq!(open_for_time(60_999), "60 seconds");
    assert_eq!(open_for_time(119_999), "1 minute");
    assert_eq!(open_for_time(120_000), "2 minutes");
    assert_eq!(open_for_time(3_600_000), "60 minutes");
}

#[test]
fn plural_suffix_values() {
    assert_eq!(plural(0), "s");
    assert_eq!(plural(1), "");
    assert_eq!(plural(2), "s");
}

#[test]
fn decimal_values() {
    assert_eq!(decimal_string(0), "0");
    assert_eq!(decimal_string(7), "7");
    assert_eq!(decimal_string(10), "10");
    assert_eq!(decimal_string(9_876_543_210), "9876543210");
    assert_eq!(decimal_string(u64::MAX), u64::MAX.to_string());
}

#[test]
fn door_state_codes_and_names() {
    for d in [DoorState::Open, DoorState::Closed, DoorState::Unknown] {
        assert_eq!(DoorState::from_code(d.to_code()), d);
        assert_eq!(DoorState::from(d.to_code()), d);
    }
    assert_eq!(DoorState::from_code(9), DoorState::Unknown);
    assert_eq!(DoorState::Open.to_string(), "Open");
    assert_eq!(DoorState::Closed.to_string(), "Closed");
    assert_eq!(DoorState::Unknown.to_string(), "Unknown");
}

#[test]
fn classify_levels() {
    assert_eq!(DoorState::from_level(false), DoorState::Open);
    assert_eq!(DoorState::from_level(true), DoorState::Closed);
    assert_eq!(DoorState::classify(Some(false)), DoorState::Open);
    assert_eq!(DoorState::classify(Some(true)), DoorState::Closed);
    assert_eq!(DoorState::classify(None), DoorState::Unknown);
}

#[test]
fn atomic_door_state_shared_between_handles() {
    let a = AtomicDoorState::new(DoorState::Unknown);
    let b = a.clone();
    assert_eq!(a.get_state(), DoorState::Unknown);
    b.open();
    assert_eq!(a.get_state(), DoorState::Open);
    a.closed();
    assert_eq!(b.get_state(), DoorState::Closed);
    b.unknown();
    assert_eq!(a.get_state(), DoorState::Unknown);
    a.set_state(DoorState::Open);
    assert_eq!(b.get_state(), DoorState::Open);
}

#[test]
fn transition_table() {
    let idle = state(DoorState::Closed, Timestamp::Idle, Some(5));
    assert_eq!(
        idle.next_state(DoorState::Open, 100),
        state(DoorState::Open, Timestamp::OpenSince(100), None)
    );
    let open = state(DoorState::Open, Timestamp::OpenSince(100), Some(400));
    assert_eq!(open.next_state(DoorState::Open, 900), open);
    assert_eq!(
        open.next_state(DoorState::Closed, 900),
        state(DoorState::Closed, Timestamp::Idle, None)
    );
    assert_eq!(
        open.next_state(DoorState::Unknown, 900),
        state(DoorState::Unknown, Timestamp::OpenSince(100), Some(400))
    );
    let after = state(DoorState::Closed, Timestamp::ClosedAfter(400_000), None);
    assert_eq!(after.next_state(DoorState::Closed, 900), after);
    assert_eq!(
        after.next_state(DoorState::Unknown, 900),
        state(DoorState::Unknown, Timestamp::ClosedAfter(400_000), None)
    );
    assert_eq!(
        after.next_state(DoorState::Open, 900),
        state(DoorState::Open, Timestamp::OpenSince(900), None)
    );
}

#[test]
fn reopen_clears_notification() {
    let mut s = State::new();
    s.apply_sample(DoorState::Open, 0);
    s.record_notification(400_000);
    s.apply_sample(DoorState::Closed, 500_000);
    s.record_notification(500_001);
    s.apply_sample(DoorState::Open, 600_000);
    assert_eq!(s.timestamp, Timestamp::OpenSince(600_000));
    assert_eq!(s.notified_at, None);
}

#[test]
fn equal_sample_does_not_write() {
    let mut s = state(DoorState::Open, Timestamp::OpenSince(10), Some(400_000));
    assert!(!s.apply_sample(DoorState::Open, 500_000));
    assert_eq!(s.notified_at, Some(400_000));
    let mut c = state(DoorState::Closed, Timestamp::Idle, None);
    assert!(!c.apply_sample(DoorState::Closed, 5));
    let mut u = State::new();
    assert!(!u.apply_sample(DoorState::Unknown, 5));
    assert_eq!(u, State::new());
    assert!(u.apply_sample(DoorState::Closed, 6));
    assert_eq!(u, state(DoorState::Closed, Timestamp::Idle, None));
}

#[test]
fn open_then_alert_once_then_close() {
    let t0: u64 = 1_000;
    let mut s = State::new();
    assert!(s.apply_sample(DoorState::Open, t0));
    assert_eq!(s.timestamp, Timestamp::OpenSince(t0));
    assert_eq!(s.notified_at, None);
    assert_eq!(maybe_send(s.timestamp, s.notified_at, t0 + 5_000), None);
    let now = t0 + 301_000;
    let message = maybe_send(s.timestamp, s.notified_at, now);
    assert_eq!(message.as_deref(), Some("Garage door has been open for 5 minutes"));
    s.record_notification(now);
    assert_eq!(s.notified_at, Some(t0 + 301_000));
    assert!(!s.apply_sample(DoorState::Open, now + 1_000));
    assert_eq!(maybe_send(s.timestamp, s.notified_at, now + 5_000), None);
    assert_eq!(maybe_send(s.timestamp, s.notified_at, now + 600_000), None);
    assert!(s.apply_sample(DoorState::Closed, now + 6_000));
    assert_eq!(s.timestamp, Timestamp::Idle);
    assert_eq!(s.notified_at, None);
}

#[test]
fn failed_delivery_stays_owed() {
    let mut s = State::new();
    s.apply_sample(DoorState::Open, 0);
    assert!(maybe_send(s.timestamp, s.notified_at, 301_000).is_some());
    // delivery failed: nothing is recorded, so the next tick tries again
    assert_eq!(
        maybe_send(s.timestamp, s.notified_at, 306_000).as_deref(),
        Some("Garage door has been open for 5 minutes")
    );
}

#[test]
fn threshold_is_strict() {
    let ts = Timestamp::OpenSince(0);
    assert_eq!(maybe_send(ts, None, 300_000), None);
    assert!(maybe_send(ts, None, 300_001).is_some());
    assert_eq!(maybe_send(ts, Some(1), 900_000), None);
    assert_eq!(maybe_send(Timestamp::Idle, None, 900_000), None);
    assert_eq!(maybe_send(Timestamp::OpenSince(500), None, 100), None);
}

#[test]
fn closed_after_message() {
    assert_eq!(
        maybe_send(Timestamp::ClosedAfter(421_000), None, 0).as_deref(),
        Some("Garage door closed after 7 minutes open")
    );
    assert_eq!(maybe_send(Timestamp::ClosedAfter(300_000), None, 0), None);
    assert_eq!(maybe_send(Timestamp::ClosedAfter(421_000), Some(3), 0), None);
}

#[test]
fn unreadable_sensor_never_alerts() {
    let mut s = State::new();
    for tick in 0..1_000u64 {
        let now = tick * 1_000;
        s.apply_sample(DoorState::classify(None), now);
        assert_eq!(s.door_state, DoorState::Unknown);
        assert_eq!(maybe_send(s.timestamp, s.notified_at, now), None);
    }
    assert_eq!(s, State::new());
}

#[test]
fn door_json_never_opened() {
    let body = door_json(&State::new(), 12_345);
    let parsed = json::parse(&body).unwrap();
    let mut expected = json::JsonValue::new_object();
    expected.insert("state", "Unknown").unwrap();
    expected.insert("secs_since_notified", json::JsonValue::Null).unwrap();
    expected.insert("open_for", json::JsonValue::Null).unwrap();
    assert_eq!(parsed, expected);
}

#[test]
fn door_json_open_and_notified() {
    let s = state(DoorState::Open, Timestamp::OpenSince(1_000), Some(302_000));
    assert_eq!(secs_since_notified(&s, 312_500), Some(10));
    assert_eq!(open_for_secs(&s, 312_500), Some(311));
    let parsed = json::parse(&door_json(&s, 312_500)).unwrap();
    assert_eq!(parsed["state"], "Open");
    assert_eq!(parsed["secs_since_notified"], 10u64);
    assert_eq!(parsed["open_for"], 311u64);
}

#[test]
fn webhook_body_holds_text() {
    let body = webhook_body("Garage door has been open for 6 minutes");
    let parsed = json::parse(&body).unwrap();
    assert_eq!(parsed["text"], "Garage door has been open for 6 minutes");
    assert_eq!(parsed.len(), 1);
}

#[test]
fn routes() {
    assert_eq!(route("/"), Route::Home);
    assert_eq!(route("/door.json"), Route::DoorJson);
    assert_eq!(route("/door.jso"), Route::NotFound);
    assert_eq!(route(""), Route::NotFound);
    assert_eq!(route("/favicon.ico"), Route::NotFound);
}

#[test]
fn status_lines() {
    assert_eq!(status_line(&State::new(), 0), "\u{1F535} Unknown");
    assert_eq!(status_line(&state(DoorState::Closed, Timestamp::Idle, None), 0), "\u{1F7E2} Closed");
    assert_eq!(
        status_line(&state(DoorState::Open, Timestamp::Idle, None), 0),
        "\u{1F534} Opened at an unknown time"
    );
    assert_eq!(
        status_line(&state(DoorState::Open, Timestamp::OpenSince(0), None), 3_600_000),
        "\u{1F534} Opened 1 hour ago"
    );
}

#[test]
fn changed_state_only_on_difference() {
    let s = State::new();
    assert_eq!(s.changed_state(DoorState::Unknown, 3), None);
    assert_eq!(
        s.changed_state(DoorState::Open, 3),
        Some(state(DoorState::Open, Timestamp::OpenSince(3), None))
    );
    let open = state(DoorState::Open, Timestamp::OpenSince(3), Some(400_000));
    assert_eq!(open.changed_state(DoorState::Open, 500_000), None);
}
