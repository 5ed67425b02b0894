use tilt_relay::publish::{
    is_success_response, render_body, render_request, CycleVerdict, FailureTracker, PublishCycle,
    Wrapper, MAX_CYCLE_FAILURES, MAX_POST_ATTEMPTS,
};
use tilt_relay::tilt::TiltData;

#[test]
fn body_renders_exact_payload() {
    let body = render_body(&TiltData::new(650, 10125, Some(12)));
    assert_eq!(
        String::from_utf8(body).unwrap(),
        "{\"name\":\"Tilt\",\"temp\":65.0,\"temp_unit\":\"F\",\"gravity\":1.0125,\
         \"gravity_unit\":\"G\",\"battery\":12}"
    );
}

#[test]
fn body_renders_missing_battery_as_zero() {
    let body = render_body(&TiltData::new(5, 0, None));
    assert_eq!(
        String::from_utf8(body).unwrap(),
        "{\"name\":\"Tilt\",\"temp\":0.5,\"temp_unit\":\"F\",\"gravity\":0.0000,\
         \"gravity_unit\":\"G\",\"battery\":0}"
    );
}

#[test]
fn request_renders_envelope_with_exact_length() {
    let req = render_request(b"abc123", b"log.example.net", b"0123456789");
    assert_eq!(
        String::from_utf8(req).unwrap(),
        "POST /stream?id=abc123 HTTP/1.1\r\nHost: log.example.net\r\n\
         Content-Type: application/json\r\nContent-Length: 10\r\n\r\n0123456789"
    );
}

#[test]
fn request_wraps_rendered_body() {
    let body = render_body(&TiltData::new(651, 10125, Some(5)));
    let len = body.len();
    let req = render_request(b"id", b"host", &body);
    let text = String::from_utf8(req).unwrap();
    assert!(text.contains(&format!("Content-Length: {}\r\n\r\n", len)));
    assert!(text.ends_with("\"battery\":5}"));
}

#[test]
fn response_success_only_on_200_ok_status_line() {
    assert!(is_success_response(b"HTTP/1.1 200 OK\r\nContent-Length: 0\r\n\r\n"));
    assert!(is_success_response(b"HTTP/1.1 200 OK"));
    assert!(!is_success_response(b"HTTP/1.1 500 Internal Server Error\r\n"));
    assert!(!is_success_response(b"HTTP/1.1 404 Not Found"));
    assert!(!is_success_response(b"HTTP/1.0 200 OK"));
    assert!(!is_success_response(b"HTTP/1.1 200"));
    assert!(!is_success_response(b""));
}

#[test]
fn backoff_schedule_ascends_and_caps() {
    let mut cycle = PublishCycle::new();
    let mut backoffs: Vec<Option<u64>> = Vec::new();
    while cycle.should_attempt() {
        backoffs.push(cycle.backoff_ms());
        cycle.record_attempt(false);
    }
    assert_eq!(backoffs, vec![None, Some(100), Some(500), Some(1000), Some(1000)]);
}

#[test]
fn cycle_stops_after_success() {
    let mut cycle = PublishCycle::new();
    assert!(cycle.should_attempt());
    cycle.record_attempt(false);
    assert!(cycle.should_attempt());
    cycle.record_attempt(true);
    assert!(!cycle.should_attempt());
    assert!(cycle.succeeded());
}

#[test]
fn cycle_exhausts_attempts() {
    let mut cycle = PublishCycle::new();
    let mut attempts = 0;
    while cycle.should_attempt() {
        cycle.record_attempt(false);
        attempts += 1;
    }
    assert_eq!(attempts, MAX_POST_ATTEMPTS);
    assert!(!cycle.succeeded());
}

#[test]
fn success_resets_failure_counter() {
    let mut tracker = FailureTracker::new();
    assert_eq!(tracker.record_cycle(false), CycleVerdict::Continue);
    assert_eq!(tracker.record_cycle(false), CycleVerdict::Continue);
    assert_eq!(tracker.failures(), 2);
    // A successful publish resets the counter to zero.
    assert_eq!(tracker.record_cycle(true), CycleVerdict::Continue);
    assert_eq!(tracker.failures(), 0);
}

#[test]
fn repeated_cycle_failures_escalate_to_restart() {
    let mut tracker = FailureTracker::new();
    for _ in 0..MAX_CYCLE_FAILURES - 1 {
        assert_eq!(tracker.record_cycle(false), CycleVerdict::Continue);
    }
    assert_eq!(tracker.record_cycle(false), CycleVerdict::FatalRestart);
}

#[test]
fn failed_publish_scenario_reaches_restart() {
    // Every attempt of every cycle sees a 500: each cycle exhausts its
    // attempts, and the third failed cycle forces a restart.
    let mut tracker = FailureTracker::new();
    let mut verdict = CycleVerdict::Continue;
    for _ in 0..MAX_CYCLE_FAILURES {
        let mut cycle = PublishCycle::new();
        while cycle.should_attempt() {
            let ok = is_success_response(b"HTTP/1.1 500 Internal Server Error");
            cycle.record_attempt(ok);
        }
        verdict = tracker.record_cycle(cycle.succeeded());
    }
    assert_eq!(verdict, CycleVerdict::FatalRestart);
}

#[test]
fn successful_publish_scenario_resets_counter() {
    let mut tracker = FailureTracker::new();
    assert_eq!(tracker.record_cycle(false), CycleVerdict::Continue);
    let mut cycle = PublishCycle::new();
    while cycle.should_attempt() {
        let ok = is_success_response(b"HTTP/1.1 200 OK\r\n\r\n");
        cycle.record_attempt(ok);
    }
    assert!(cycle.succeeded());
    assert_eq!(tracker.record_cycle(cycle.succeeded()), CycleVerdict::Continue);
    assert_eq!(tracker.failures(), 0);
}

#[test]
fn wrapper_writes_within_bounds() {
    let mut w = Wrapper::new(vec![0u8; 8]);
    assert!(w.write_bytes(b"abc").is_ok());
    assert!(w.write_bytes(b"defgh").is_ok());
    assert_eq!(w.into_written(), b"abcdefgh".to_vec());
}

#[test]
fn wrapper_refuses_overflowing_write_unchanged() {
    let mut w = Wrapper::new(vec![0u8; 4]);
    assert!(w.write_bytes(b"abc").is_ok());
    assert!(w.write_bytes(b"de").is_err());
    assert!(w.write_bytes(b"d").is_ok());
    assert_eq!(w.into_written(), b"abcd".to_vec());
}
