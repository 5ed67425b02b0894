use tilt_relay::hci::{
    hci_cmd_packet, hci_le_add_to_white_list, hci_le_set_event_mask, hci_le_set_scan_enable,
    hci_le_set_scan_params, hci_reset, hci_set_event_mask, scan_for_completion, CommandAwait,
    ScanOutcome,
};
use tilt_relay::tilt::TiltPacket;

/// A command-complete event frame for `opcode` with the given status.
fn complete_event(opcode: u16, status: u8) -> Vec<u8> {
    vec![0x04, 0x0E, 0x04, 0x01, (opcode & 0xFF) as u8, (opcode >> 8) as u8, status]
}

/// An event frame of some other type with `payload_len` payload bytes.
fn other_event(payload_len: u8) -> Vec<u8> {
    let mut v = vec![0x04u8, 0x3E, payload_len];
    for i in 0..payload_len {
        v.push(i);
    }
    v
}

#[test]
fn command_packet_layout() {
    let p = hci_cmd_packet(0x200B, &[0xAA, 0xBB]);
    assert_eq!(p, vec![0x01, 0x0B, 0x20, 0x02, 0xAA, 0xBB]);
}

#[test]
fn reset_packet_bytes() {
    assert_eq!(hci_reset(), vec![0x01, 0x03, 0x0C, 0x00]);
}

#[test]
fn event_mask_packet_bytes() {
    assert_eq!(
        hci_set_event_mask(),
        vec![0x01, 0x01, 0x0C, 0x08, 0x00, 0x00, 0x00, 0x00, 0x00, 0x00, 0x00, 0x20]
    );
    assert_eq!(
        hci_le_set_event_mask(),
        vec![0x01, 0x01, 0x20, 0x08, 0x02, 0x00, 0x00, 0x00, 0x00, 0x00, 0x00, 0x00]
    );
}

#[test]
fn scan_params_packet_bytes() {
    assert_eq!(
        hci_le_set_scan_params(false),
        vec![0x01, 0x0B, 0x20, 0x07, 0x00, 0x30, 0x00, 0x30, 0x00, 0x00, 0x00]
    );
    assert_eq!(
        hci_le_set_scan_params(true),
        vec![0x01, 0x0B, 0x20, 0x07, 0x00, 0x30, 0x00, 0x30, 0x00, 0x00, 0x01]
    );
}

#[test]
fn scan_enable_packet_bytes() {
    assert_eq!(hci_le_set_scan_enable(true, true), vec![0x01, 0x0C, 0x20, 0x02, 0x01, 0x01]);
    assert_eq!(hci_le_set_scan_enable(true, false), vec![0x01, 0x0C, 0x20, 0x02, 0x01, 0x00]);
    assert_eq!(hci_le_set_scan_enable(false, false), vec![0x01, 0x0C, 0x20, 0x02, 0x00, 0x00]);
}

#[test]
fn white_list_packet_carries_address() {
    let mut buf = vec![0x04u8, 0x3E, 0x2A, 0x02, 0x01, 0x03];
    buf.extend_from_slice(&[0x01, 0x11, 0x22, 0x33, 0x44, 0x55, 0x66]);
    buf.extend_from_slice(&[0x1E, 0x02, 0x01, 0x04, 0x1A, 0xFF, 0x4C, 0x00, 0x02, 0x15]);
    buf.extend_from_slice(&[0u8; 22]);
    let tilt = TiltPacket::try_parse(&buf).unwrap();
    assert_eq!(
        hci_le_add_to_white_list(&tilt),
        vec![0x01, 0x11, 0x20, 0x07, 0x01, 0x11, 0x22, 0x33, 0x44, 0x55, 0x66]
    );
}

#[test]
fn scan_matches_first_relevant_of_concatenated_events() {
    // Two command-complete events in one read: the first relevant one
    // is matched; what follows it is never inspected.
    let mut read = complete_event(0x0C03, 0x00);
    read.extend_from_slice(&complete_event(0x0C01, 0x00));
    let (outcome, _) = scan_for_completion(&read, 0x0C03);
    assert_eq!(outcome, ScanOutcome::Complete);
}

#[test]
fn scan_skips_irrelevant_events_by_declared_length() {
    let mut read = other_event(9);
    read.extend_from_slice(&other_event(4));
    read.extend_from_slice(&complete_event(0x200C, 0x00));
    let (outcome, consumed) = scan_for_completion(&read, 0x200C);
    assert_eq!(outcome, ScanOutcome::Complete);
    assert_eq!(consumed, 12 + 7);
}

#[test]
fn await_reassembles_event_split_across_reads() {
    let mut aw = CommandAwait::new(0x200B);
    // An irrelevant event concatenated with the head of the
    // acknowledgement...
    let mut read1 = other_event(5);
    let complete = complete_event(0x200B, 0x00);
    read1.extend_from_slice(&complete[..3]);
    assert_eq!(aw.on_read(&read1), ScanOutcome::NeedMore);
    // ...whose tail arrives in the next read.
    assert_eq!(aw.on_read(&complete[3..]), ScanOutcome::Complete);
}

#[test]
fn await_walks_concatenated_then_split_stream() {
    // Two whole events in one read, the second the relevant
    // acknowledgement; then a fresh wait sees its event split.
    let mut first = CommandAwait::new(0x0C01);
    let mut read = other_event(7);
    read.extend_from_slice(&complete_event(0x0C01, 0x00));
    assert_eq!(first.on_read(&read), ScanOutcome::Complete);

    let mut second = CommandAwait::new(0x2001);
    let complete = complete_event(0x2001, 0x00);
    assert_eq!(second.on_read(&complete[..6]), ScanOutcome::NeedMore);
    assert_eq!(second.on_read(&complete[6..]), ScanOutcome::Complete);
}

#[test]
fn await_reassembles_event_split_across_three_reads() {
    let mut aw = CommandAwait::new(0x2011);
    let complete = complete_event(0x2011, 0x00);
    assert_eq!(aw.on_read(&complete[..2]), ScanOutcome::NeedMore);
    assert_eq!(aw.on_read(&complete[2..4]), ScanOutcome::NeedMore);
    assert_eq!(aw.on_read(&complete[4..]), ScanOutcome::Complete);
}

#[test]
fn scan_opcode_mismatch_is_fatal() {
    let read = complete_event(0x0C01, 0x00);
    let (outcome, _) = scan_for_completion(&read, 0x0C03);
    assert_eq!(outcome, ScanOutcome::OpcodeMismatch);
    assert!(outcome.is_fatal());
}

#[test]
fn scan_error_status_is_fatal() {
    let read = complete_event(0x0C03, 0x12);
    let (outcome, _) = scan_for_completion(&read, 0x0C03);
    assert_eq!(outcome, ScanOutcome::ErrorStatus(0x12));
    assert!(outcome.is_fatal());
}

#[test]
fn scan_unexpected_packet_type_is_fatal() {
    let read = [0x02u8, 0, 0, 0, 0, 0, 0];
    let (outcome, _) = scan_for_completion(&read, 0x0C03);
    assert_eq!(outcome, ScanOutcome::UnexpectedPacketType);
    assert!(outcome.is_fatal());
}

#[test]
fn scan_short_buffer_needs_more() {
    let (outcome, consumed) = scan_for_completion(&[0x04, 0x0E], 0x0C03);
    assert_eq!(outcome, ScanOutcome::NeedMore);
    assert_eq!(consumed, 0);
    assert!(!outcome.is_fatal());
}
