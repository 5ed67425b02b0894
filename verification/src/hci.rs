//! HCI wire format: command packet encoding and defragmentation of the
//! inbound event byte stream.
//!
//! The controller byte stream has no framing above the HCI event layer:
//! a single read may deliver several concatenated events or a fragment
//! of one. The scanner here walks whole frames, skips events it is not
//! waiting for, and recognizes the command-complete acknowledgement of
//! the one outstanding command. A mismatched opcode or an error status
//! is a protocol desynchronization: fatal, not recoverable.

use vstd::prelude::*;

use crate::tilt::TiltPacket;

verus! {

pub const PACKET_TYPE_COMMAND: u8 = 0x01;

pub const PACKET_TYPE_EVENT: u8 = 0x04;

pub const EVENT_COMMAND_COMPLETE: u8 = 0x0E;

pub const OPCODE_RESET: u16 = 0x0C03;

pub const OPCODE_SET_EVENT_MASK: u16 = 0x0C01;

pub const OPCODE_LE_SET_EVENT_MASK: u16 = 0x2001;

pub const OPCODE_SET_SCAN_PARAMS: u16 = 0x200B;

pub const OPCODE_SET_SCAN_ENABLE: u16 = 0x200C;

pub const OPCODE_ADD_TO_WHITELIST: u16 = 0x2011;

/// Scan interval and window in the BLE timing unit of 0.625 ms; 0x30
/// units is 30 ms.
pub const SCAN_PARAM_SCAN_INTERVAL: u16 = 0x0030;

pub const SCAN_PARAM_SCAN_WINDOW: u16 = 0x0030;

/// Report every advertisement.
pub const SCAN_PARAM_FILTER_ALLOW_ALL: u8 = 0x00;

/// Report only advertisements from allow-listed addresses.
pub const SCAN_PARAM_FILTER_ALLOW_LISTED: u8 = 0x01;

pub open spec fn opcode_lo(opcode: u16) -> u8 {
    (opcode as int % 256) as u8
}

pub open spec fn opcode_hi(opcode: u16) -> u8 {
    (opcode as int / 256) as u8
}

/// The bytes of an HCI command packet: the command packet-type marker,
/// the opcode little-endian, the parameter length, then the parameters.
pub open spec fn spec_cmd_packet(opcode: u16, params: Seq<u8>) -> Seq<u8> {
    seq![PACKET_TYPE_COMMAND, opcode_lo(opcode), opcode_hi(opcode), params.len() as u8] + params
}

pub(crate) fn push_all(v: &mut Vec<u8>, s: &[u8])
    ensures
        final(v)@ == old(v)@ + s@,
{
    let mut i: usize = 0;
    while i < s.len()
        invariant
            i <= s@.len(),
            v@ == old(v)@ + s@.take(i as int),
        decreases s@.len() - i,
    {
        v.push(s[i]);
        i = i + 1;
        proof {
            assert(v@ =~= old(v)@ + s@.take(i as int));
        }
    }
    proof {
        assert(v@ =~= old(v)@ + s@);
    }
}

/// Constructs an HCI command packet for `opcode` carrying `params`.
pub fn hci_cmd_packet(opcode: u16, params: &[u8]) -> (r: Vec<u8>)
    requires
        params@.len() <= 255,
    ensures
        r@ == spec_cmd_packet(opcode, params@),
{
    let mut packet: Vec<u8> = Vec::new();
    packet.push(PACKET_TYPE_COMMAND);
    packet.push((opcode % 256) as u8);
    packet.push((opcode / 256) as u8);
    packet.push(params.len() as u8);
    push_all(&mut packet, params);
    proof {
        assert(packet@ =~= spec_cmd_packet(opcode, params@));
    }
    packet
}

/// Resets the Bluetooth controller to its default state.
pub fn hci_reset() -> (r: Vec<u8>)
    ensures
        r@ == spec_cmd_packet(OPCODE_RESET, Seq::empty()),
{
    let params: [u8; 0] = [];
    let r = hci_cmd_packet(OPCODE_RESET, params.as_slice());
    proof {
        assert(params@ =~= Seq::<u8>::empty());
    }
    r
}

/// The event-mask parameters that suppress every event except the LE
/// meta event.
pub open spec fn event_mask_params() -> Seq<u8> {
    seq![0x00u8, 0x00u8, 0x00u8, 0x00u8, 0x00u8, 0x00u8, 0x00u8, 0x20u8]
}

/// Filters out all events except the LE meta event.
pub fn hci_set_event_mask() -> (r: Vec<u8>)
    ensures
        r@ == spec_cmd_packet(OPCODE_SET_EVENT_MASK, event_mask_params()),
{
    let params: [u8; 8] = [0x00, 0x00, 0x00, 0x00, 0x00, 0x00, 0x00, 0x20];
    let r = hci_cmd_packet(OPCODE_SET_EVENT_MASK, params.as_slice());
    proof {
        assert(params@ =~= event_mask_params());
    }
    r
}

/// The LE-event-mask parameters that suppress every LE event except the
/// advertising-report event.
pub open spec fn le_event_mask_params() -> Seq<u8> {
    seq![0x02u8, 0x00u8, 0x00u8, 0x00u8, 0x00u8, 0x00u8, 0x00u8, 0x00u8]
}

/// Filters out all LE meta events except the LE advertising-report
/// event.
pub fn hci_le_set_event_mask() -> (r: Vec<u8>)
    ensures
        r@ == spec_cmd_packet(OPCODE_LE_SET_EVENT_MASK, le_event_mask_params()),
{
    let params: [u8; 8] = [0x02, 0x00, 0x00, 0x00, 0x00, 0x00, 0x00, 0x00];
    let r = hci_cmd_packet(OPCODE_LE_SET_EVENT_MASK, params.as_slice());
    proof {
        assert(params@ =~= le_event_mask_params());
    }
    r
}

/// The scan parameters: passive scan, the fixed interval and window
/// little-endian, public own-address type, and the chosen filter policy.
pub open spec fn scan_params(filter: bool) -> Seq<u8> {
    seq![
        0x00u8,
        opcode_lo(SCAN_PARAM_SCAN_INTERVAL),
        opcode_hi(SCAN_PARAM_SCAN_INTERVAL),
        opcode_lo(SCAN_PARAM_SCAN_WINDOW),
        opcode_hi(SCAN_PARAM_SCAN_WINDOW),
        0x00u8,
        if filter {
            SCAN_PARAM_FILTER_ALLOW_LISTED
        } else {
            SCAN_PARAM_FILTER_ALLOW_ALL
        },
    ]
}

/// Configures a passive scan with the fixed interval and window,
/// optionally reporting only allow-listed addresses.
pub fn hci_le_set_scan_params(filter: bool) -> (r: Vec<u8>)
    ensures
        r@ == spec_cmd_packet(OPCODE_SET_SCAN_PARAMS, scan_params(filter)),
{
    let filter_param = if filter {
        SCAN_PARAM_FILTER_ALLOW_LISTED
    } else {
        SCAN_PARAM_FILTER_ALLOW_ALL
    };
    let params: [u8; 7] = [
        0x00,
        (SCAN_PARAM_SCAN_INTERVAL % 256) as u8,
        (SCAN_PARAM_SCAN_INTERVAL / 256) as u8,
        (SCAN_PARAM_SCAN_WINDOW % 256) as u8,
        (SCAN_PARAM_SCAN_WINDOW / 256) as u8,
        0x00,
        filter_param,
    ];
    let r = hci_cmd_packet(OPCODE_SET_SCAN_PARAMS, params.as_slice());
    proof {
        assert(params@ =~= scan_params(filter));
    }
    r
}

/// Adds the address of `tilt` to the controller's allow list, so that a
/// filtered scan reports its advertisements.
pub fn hci_le_add_to_white_list(tilt: &TiltPacket) -> (r: Vec<u8>)
    ensures
        r@ == spec_cmd_packet(OPCODE_ADD_TO_WHITELIST, tilt.spec_address()),
{
    hci_cmd_packet(OPCODE_ADD_TO_WHITELIST, tilt.address().as_slice())
}

/// The scan-enable parameters: the enable flag and the
/// duplicate-filtering flag.
pub open spec fn scan_enable_params(enable: bool, filter_duplicates: bool) -> Seq<u8> {
    seq![
        if enable {
            1u8
        } else {
            0u8
        },
        if filter_duplicates {
            1u8
        } else {
            0u8
        },
    ]
}

/// Enables or disables the LE scan, optionally filtering out duplicate
/// reports.
pub fn hci_le_set_scan_enable(enable: bool, filter_duplicates: bool) -> (r: Vec<u8>)
    ensures
        r@ == spec_cmd_packet(OPCODE_SET_SCAN_ENABLE, scan_enable_params(enable, filter_duplicates)),
{
    let enable_param: u8 = if enable {
        1
    } else {
        0
    };
    let duplicates_param: u8 = if filter_duplicates {
        1
    } else {
        0
    };
    let params: [u8; 2] = [enable_param, duplicates_param];
    let r = hci_cmd_packet(OPCODE_SET_SCAN_ENABLE, params.as_slice());
    proof {
        assert(params@ =~= scan_enable_params(enable, filter_duplicates));
    }
    r
}

/// What a scan of the unconsumed event bytes found while waiting for
/// one command's acknowledgement.
#[derive(Clone, Copy, Debug, PartialEq, Eq, Structural)]
pub enum ScanOutcome {
    /// A command-complete event for the expected opcode reported
    /// success.
    Complete,
    /// The bytes end before one more whole frame can be inspected; the
    /// next read must be appended.
    NeedMore,
    /// A packet that is not an HCI event arrived: fatal
    /// desynchronization.
    UnexpectedPacketType,
    /// A command-complete event echoed some other opcode: fatal
    /// desynchronization.
    OpcodeMismatch,
    /// A command-complete event carried this nonzero status: a fatal
    /// controller-reported error.
    ErrorStatus(u8),
}

impl ScanOutcome {
    /// Whether the outcome ends the exchange with a protocol violation.
    pub open spec fn spec_is_fatal(self) -> bool {
        match self {
            ScanOutcome::Complete => false,
            ScanOutcome::NeedMore => false,
            _ => true,
        }
    }

    pub fn is_fatal(&self) -> (r: bool)
        ensures
            r == self.spec_is_fatal(),
    {
        match self {
            ScanOutcome::Complete => false,
            ScanOutcome::NeedMore => false,
            _ => true,
        }
    }
}

/// The result of scanning `buf` for the command-complete event of
/// `opcode`, together with the count of leading bytes consumed by
/// skipped frames before the scan stopped.
///
/// Frames of other events are skipped whole, by their declared
/// parameter length plus the three header bytes; a buffer too short to
/// hold one more inspectable frame asks for more bytes.
pub open spec fn scan_events(buf: Seq<u8>, opcode: u16) -> (ScanOutcome, int)
    decreases buf.len(),
{
    if buf.len() < 7 {
        (ScanOutcome::NeedMore, 0)
    } else if buf[0] != PACKET_TYPE_EVENT {
        (ScanOutcome::UnexpectedPacketType, 0)
    } else if buf[1] != EVENT_COMMAND_COMPLETE {
        let frame_len = 3 + buf[2] as int;
        if buf.len() < frame_len {
            (ScanOutcome::NeedMore, 0)
        } else {
            let rest = scan_events(buf.skip(frame_len), opcode);
            (rest.0, rest.1 + frame_len)
        }
    } else if buf[4] != opcode_lo(opcode) || buf[5] != opcode_hi(opcode) {
        (ScanOutcome::OpcodeMismatch, 0)
    } else if buf[6] != 0 {
        (ScanOutcome::ErrorStatus(buf[6]), 0)
    } else {
        (ScanOutcome::Complete, 0)
    }
}

/// Scans `buf` for the command-complete event of `opcode`. Returns the
/// outcome and the number of leading bytes that skipped frames
/// consumed: on `NeedMore` the caller keeps `buf[consumed..]` and
/// appends the next read to it.
pub fn scan_for_completion(buf: &[u8], opcode: u16) -> (r: (ScanOutcome, usize))
    ensures
        ({
            let (o, c) = scan_events(buf@, opcode);
            r.0 == o && r.1 == c
        }),
        r.1 <= buf@.len(),
{
    let mut pos: usize = 0;
    proof {
        assert(buf@.skip(0) =~= buf@);
    }
    loop
        invariant
            pos <= buf@.len(),
            scan_events(buf@, opcode).0 == scan_events(buf@.skip(pos as int), opcode).0,
            scan_events(buf@, opcode).1 == scan_events(buf@.skip(pos as int), opcode).1 + pos,
        decreases buf@.len() - pos,
    {
        if buf.len() - pos < 7 {
            return (ScanOutcome::NeedMore, pos);
        }
        if buf[pos] != PACKET_TYPE_EVENT {
            return (ScanOutcome::UnexpectedPacketType, pos);
        }
        if buf[pos + 1] != EVENT_COMMAND_COMPLETE {
            let frame_len = 3 + buf[pos + 2] as usize;
            if buf.len() - pos < frame_len {
                return (ScanOutcome::NeedMore, pos);
            }
            proof {
                assert(buf@.skip(pos as int).skip(frame_len as int) =~= buf@.skip(
                    pos as int + frame_len as int,
                ));
            }
            pos = pos + frame_len;
        } else if buf[pos + 4] != (opcode % 256) as u8 || buf[pos + 5] != (opcode / 256) as u8 {
            return (ScanOutcome::OpcodeMismatch, pos);
        } else if buf[pos + 6] != 0 {
            return (ScanOutcome::ErrorStatus(buf[pos + 6]), pos);
        } else {
            return (ScanOutcome::Complete, pos);
        }
    }
}

/// The pending state of one command's acknowledgement wait: the opcode
/// written, and the bytes read so far that no whole frame has consumed.
pub struct CommandAwait {
    opcode: u16,
    pending: Vec<u8>,
}

impl CommandAwait {
    pub closed spec fn spec_opcode(self) -> u16 {
        self.opcode
    }

    pub closed spec fn spec_pending(self) -> Seq<u8> {
        self.pending@
    }

    /// Starts waiting for the command-complete event of `opcode`,
    /// with no bytes read yet.
    pub fn new(opcode: u16) -> (r: Self)
        ensures
            r.spec_opcode() == opcode,
            r.spec_pending() == Seq::<u8>::empty(),
    {
        Self { opcode, pending: Vec::new() }
    }

    /// Feeds the bytes of one read. Scans the retained bytes plus the
    /// chunk; on `NeedMore` the unconsumed tail is retained for the
    /// next read, so events split across reads are reassembled and
    /// concatenated events are walked frame by frame.
    pub fn on_read(&mut self, chunk: &[u8]) -> (r: ScanOutcome)
        ensures
            ({
                let buf = old(self).spec_pending() + chunk@;
                let (o, c) = scan_events(buf, old(self).spec_opcode());
                &&& r == o
                &&& final(self).spec_opcode() == old(self).spec_opcode()
                &&& final(self).spec_pending() == buf.skip(c)
            }),
    {
        push_all(&mut self.pending, chunk);
        let (outcome, consumed) = scan_for_completion(self.pending.as_slice(), self.opcode);
        drop_prefix(&mut self.pending, consumed);
        outcome
    }
}

fn drop_prefix(v: &mut Vec<u8>, n: usize)
    requires
        n <= old(v)@.len(),
    ensures
        final(v)@ == old(v)@.skip(n as int),
{
    let mut rest: Vec<u8> = Vec::new();
    let mut i: usize = n;
    while i < v.len()
        invariant
            n <= i <= v@.len(),
            v@ == old(v)@,
            rest@ == v@.subrange(n as int, i as int),
        decreases v@.len() - i,
    {
        let b = v[i];
        rest.push(b);
        i = i + 1;
        proof {
            assert(rest@ =~= v@.subrange(n as int, i as int));
        }
    }
    proof {
        assert(rest@ =~= old(v)@.skip(n as int));
    }
    *v = rest;
}

} // verus!
