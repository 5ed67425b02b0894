use tilt_relay::relay::{
    wait_expired, Mailbox, Schedule, MAX_WAIT_MS, PUBLISH_INTERVAL_MS, SCAN_WINDOW_MS,
};
use tilt_relay::tilt::TiltData;

#[test]
fn schedule_starts_one_window_from_now() {
    let s = Schedule::new(1_000, PUBLISH_INTERVAL_MS, SCAN_WINDOW_MS);
    assert_eq!(s.next_publish(), 1_000 + SCAN_WINDOW_MS);
    assert_eq!(s.scan_start(), 1_000);
}

#[test]
fn schedule_advances_by_the_interval() {
    let mut s = Schedule::new(0, PUBLISH_INTERVAL_MS, SCAN_WINDOW_MS);
    assert_eq!(s.next_publish(), 60_000);
    s.advance();
    assert_eq!(s.next_publish(), 60_000 + 900_000);
    assert_eq!(s.scan_start(), 900_000);
    s.advance();
    assert_eq!(s.next_publish(), 60_000 + 2 * 900_000);
}

#[test]
fn mailbox_latest_value_wins() {
    let mut m = Mailbox::new();
    assert!(m.take().is_none());
    m.signal(TiltData::new(650, 10125, None));
    m.signal(TiltData::new(652, 10130, Some(4)));
    let got = m.take().expect("the most recent reading is pending");
    assert_eq!(got.temperature(), 652);
    assert_eq!(got.gravity(), 10130);
    assert_eq!(got.battery(), Some(4));
    assert!(m.take().is_none(), "the slot empties once consumed");
}

#[test]
fn bounded_wait_expires_strictly_after_the_limit() {
    assert!(!wait_expired(0, MAX_WAIT_MS, MAX_WAIT_MS));
    assert!(wait_expired(0, MAX_WAIT_MS + 1, MAX_WAIT_MS));
    assert!(!wait_expired(500, 500, MAX_WAIT_MS));
}
