use session::error::SessionError;
use session::session::{RequestSession, Session, StoredRecord};
use session::time::{now, TimeSpan, Timestamp};

fn ts(secs: i64, nanos: u32) -> Timestamp {
    Timestamp { secs, nanos }
}

fn envelope(max_age: Option<TimeSpan>, expires: Option<Timestamp>) -> Session<u32> {
    Session { session_id: 7, created_at: ts(1_000, 0), value: 42, max_age, expires }
}

#[test]
fn ttl_uses_max_age_when_present() {
    let s = envelope(Some(TimeSpan { secs: 3600, nanos: 0 }), Some(ts(5_000, 0)));
    assert_eq!(s.ttl_seconds(), Some(3600));
}

#[test]
fn ttl_from_expires_minus_created_at() {
    let s = envelope(None, Some(ts(1_090, 500_000_000)));
    assert_eq!(s.ttl_seconds(), Some(90));
}

#[test]
fn ttl_absent_without_directives() {
    let s = envelope(None, None);
    assert_eq!(s.ttl_seconds(), None);
}

#[test]
fn ttl_rounds_toward_zero_when_expired() {
    // expires 1.5 s before creation
    let s = Session { session_id: 1, created_at: ts(100, 500_000_000), value: (), max_age: None, expires: Some(ts(99, 0)) };
    assert_eq!(s.ttl_seconds(), Some(-1));
}

#[test]
fn span_seconds_round_toward_zero() {
    // -1.5 s is -2 s plus half a second
    assert_eq!(TimeSpan { secs: -2, nanos: 500_000_000 }.num_seconds(), -1);
    assert_eq!(TimeSpan { secs: 2, nanos: 999_999_999 }.num_seconds(), 2);
    assert_eq!(TimeSpan { secs: -3, nanos: 0 }.num_seconds(), -3);
}

#[test]
fn timestamp_after_carries_nanos() {
    let t = ts(10, 700_000_000);
    assert_eq!(t.timestamp_after(&TimeSpan { secs: 5, nanos: 400_000_000 }), 16);
    assert_eq!(t.timestamp_after(&TimeSpan { secs: -1, nanos: 0 }), 9);
    assert_eq!(t.timestamp(), 10);
}

#[test]
fn now_is_well_formed() {
    let t = now();
    assert!(t.nanos < 1_000_000_000);
    assert!(t.secs > 1_600_000_000);
}

#[test]
fn map_keeps_every_other_field() {
    let s = envelope(Some(TimeSpan { secs: 5, nanos: 0 }), None);
    let m = s.map(|v| format!("v{v}"));
    assert_eq!(m.value, "v42");
    assert_eq!(m.session_id, 7);
    assert_eq!(m.created_at, ts(1_000, 0));
    assert_eq!(m.max_age, Some(TimeSpan { secs: 5, nanos: 0 }));
    assert_eq!(m.expires, None);
}

#[test]
fn try_map_passes_error_on() {
    let s = envelope(None, None);
    let ok: Result<Session<u64>, String> = s.clone().try_map(|v| Ok(v as u64 * 2));
    assert_eq!(ok.unwrap().value, 84);
    let err: Result<Session<u64>, String> = s.try_map(|_| Err("bad".to_string()));
    assert_eq!(err.unwrap_err(), "bad");
}

#[test]
fn record_round_trip_takes_requested_id() {
    let s = Session { session_id: 99, created_at: ts(5, 6), value: "payload".to_string(), max_age: None, expires: None };
    let record = s.clone().into_record();
    assert_eq!(record.created_at, ts(5, 6));
    let back = record.into_session(1234);
    assert_eq!(back.session_id, 1234);
    assert_eq!(back.created_at, s.created_at);
    assert_eq!(back.value, s.value);
    assert_eq!(back.max_age, None);
    assert_eq!(back.expires, None);
}

#[test]
fn record_drops_expiry_directives() {
    let s = envelope(Some(TimeSpan { secs: 60, nanos: 0 }), Some(ts(2_000, 0)));
    let back = s.into_record().into_session(7);
    assert_eq!(back.max_age, None);
    assert_eq!(back.expires, None);
    let r = StoredRecord { created_at: ts(1, 2), value: 3u8 };
    assert_eq!(r.into_session(5).value, 3);
}

#[test]
fn request_session_variants_are_distinct() {
    let none: RequestSession<()> = RequestSession::NoSession;
    assert!(matches!(none, RequestSession::NoSession));
    let e = SessionError::NotFound;
    assert_ne!(e, SessionError::DecodeError);
}
