use tilt_relay::hci::{
    hci_le_add_to_white_list, hci_le_set_event_mask, hci_le_set_scan_enable,
    hci_le_set_scan_params, hci_reset, hci_set_event_mask,
};
use tilt_relay::scanner::{InitPhase, ScanSession, ScannerEngine};
use tilt_relay::tilt::TiltPacket;

fn tilt_adv(addr: [u8; 7], major: u16, minor: u16, power: u8) -> Vec<u8> {
    let mut v = vec![0x04u8, 0x3E, 0x2A, 0x02, 0x01, 0x03];
    v.extend_from_slice(&addr);
    v.extend_from_slice(&[0x1E, 0x02, 0x01, 0x04, 0x1A, 0xFF, 0x4C, 0x00, 0x02, 0x15]);
    v.extend_from_slice(&[0u8; 16]);
    v.extend_from_slice(&major.to_be_bytes());
    v.extend_from_slice(&minor.to_be_bytes());
    v.push(power);
    v.push(0xC5);
    v
}

const ADDR: [u8; 7] = [0x00, 0xDE, 0xAD, 0xBE, 0xEF, 0x01, 0x02];

#[test]
fn init_sequence_commands_in_order() {
    let mut engine = ScannerEngine::new();
    assert_eq!(engine.phase(), InitPhase::Reset);
    assert_eq!(engine.pending_command().unwrap(), hci_reset());
    engine.on_command_complete();
    assert_eq!(engine.pending_command().unwrap(), hci_set_event_mask());
    engine.on_command_complete();
    assert_eq!(engine.pending_command().unwrap(), hci_le_set_event_mask());
    engine.on_command_complete();
    assert_eq!(engine.pending_command().unwrap(), hci_le_set_scan_params(false));
    engine.on_command_complete();
    assert_eq!(engine.pending_command().unwrap(), hci_le_set_scan_enable(true, true));
    engine.on_command_complete();
    assert_eq!(engine.phase(), InitPhase::AwaitBeacon);
    assert!(engine.pending_command().is_none());

    // A foreign advertisement is ignored; scanning continues.
    assert!(!engine.on_advertisement(&[0x04, 0x3E, 0x00]));
    assert_eq!(engine.phase(), InitPhase::AwaitBeacon);

    // The beacon arrives: 65.0 degrees, gravity 1.0125, 12 weeks.
    let adv = tilt_adv(ADDR, 650, 10125, 12);
    assert!(engine.on_advertisement(&adv));
    assert_eq!(engine.phase(), InitPhase::DisableDiscovery);
    assert_eq!(engine.pending_command().unwrap(), hci_le_set_scan_enable(false, true));
    engine.on_command_complete();

    // The captured address is allow-listed...
    let captured = TiltPacket::try_parse(&adv).unwrap();
    assert_eq!(engine.beacon().as_ref().unwrap().address(), &ADDR);
    assert_eq!(engine.pending_command().unwrap(), hci_le_add_to_white_list(&captured));
    engine.on_command_complete();

    // ...and the scan is reconfigured to filter to it.
    assert_eq!(engine.pending_command().unwrap(), hci_le_set_scan_params(true));
    engine.on_command_complete();
    assert_eq!(engine.phase(), InitPhase::Paired);
    assert!(engine.pending_command().is_none());
}

#[test]
fn clean_restart_pairs_identically() {
    let adv = tilt_adv(ADDR, 650, 10125, 12);
    let mut runs: Vec<ScannerEngine> = Vec::new();
    for _ in 0..2 {
        let mut engine = ScannerEngine::new();
        for _ in 0..5 {
            engine.on_command_complete();
        }
        assert!(engine.on_advertisement(&adv));
        for _ in 0..3 {
            engine.on_command_complete();
        }
        assert_eq!(engine.phase(), InitPhase::Paired);
        runs.push(engine);
    }
    assert_eq!(runs[0].phase(), runs[1].phase());
    assert_eq!(
        runs[0].beacon().as_ref().unwrap().address(),
        runs[1].beacon().as_ref().unwrap().address()
    );
}

#[test]
fn scan_window_aggregates_three_advertisements() {
    // Three advertisements during one window: 65.0/65.2/65.1 degrees,
    // gravity 1.0125 throughout, batteries unknown/unknown/5 weeks.
    let mut session = ScanSession::new();
    assert!(session.on_advertisement(&tilt_adv(ADDR, 650, 10125, 0xC5)));
    assert!(session.on_advertisement(&tilt_adv(ADDR, 652, 10125, 0xC5)));
    assert!(session.on_advertisement(&tilt_adv(ADDR, 651, 10125, 5)));
    let agg = session.finish().unwrap();
    assert_eq!(agg.temperature(), 651);
    assert_eq!(agg.gravity(), 10125);
    assert_eq!(agg.battery(), Some(5));
    assert_eq!(agg.temperature_str(), "65.1");
    assert_eq!(agg.gravity_str(), "1.0125");
}

#[test]
fn scan_window_with_no_beacon_yields_nothing() {
    let mut session = ScanSession::new();
    assert!(!session.on_advertisement(&[]));
    assert!(!session.on_advertisement(&[0x04, 0x3E, 0x2A]));
    assert!(session.finish().is_none());
}

#[test]
fn scan_window_ignores_foreign_advertisements() {
    let mut session = ScanSession::new();
    let mut foreign = tilt_adv(ADDR, 999, 999, 1);
    foreign[19] = 0x4D;  // not Apple's manufacturer ID
    assert!(!session.on_advertisement(&foreign));
    assert!(session.on_advertisement(&tilt_adv(ADDR, 700, 10000, 2)));
    let agg = session.finish().unwrap();
    assert_eq!(agg.temperature(), 700);
    assert_eq!(agg.gravity(), 10000);
    assert_eq!(agg.battery(), Some(2));
}
