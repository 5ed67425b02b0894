//! The beacon scanner's control logic: the one-time controller
//! initialization and pairing sequence, and the per-window scan session.
//!
//! The engines here decide; the caller owns the radio. It writes each
//! pending command, waits for its acknowledgement (see
//! [`crate::hci::CommandAwait`]), and feeds advertisement bytes back in.

use vstd::prelude::*;

use crate::hci::{
    hci_le_add_to_white_list, hci_le_set_event_mask, hci_le_set_scan_enable,
    hci_le_set_scan_params, hci_reset, hci_set_event_mask, spec_cmd_packet, scan_enable_params,
    scan_params, event_mask_params, le_event_mask_params, OPCODE_ADD_TO_WHITELIST, OPCODE_RESET,
    OPCODE_SET_EVENT_MASK, OPCODE_LE_SET_EVENT_MASK, OPCODE_SET_SCAN_PARAMS,
    OPCODE_SET_SCAN_ENABLE,
};
use crate::tilt::{
    is_tilt_packet, packet_address, packet_battery, packet_gravity, packet_temperature, opt_max,
    TiltData, TiltPacket, TiltStats,
};

verus! {

/// The phases of the one-time initialization and pairing sequence, in
/// the order they run.
#[derive(Clone, Copy, Debug, PartialEq, Eq, Structural)]
pub enum InitPhase {
    /// Reset the controller.
    Reset,
    /// Suppress every event except the LE meta event.
    EventMask,
    /// Suppress every LE event except the advertising report.
    LeEventMask,
    /// Configure an unfiltered passive scan.
    ParamsUnfiltered,
    /// Enable the discovery scan, filtering duplicate reports.
    EnableDiscovery,
    /// Wait for the first advertisement that decodes as a Tilt.
    AwaitBeacon,
    /// Disable the discovery scan.
    DisableDiscovery,
    /// Add the discovered address to the controller's allow list.
    Whitelist,
    /// Reconfigure a filtered scan that keeps duplicate reports.
    ParamsFiltered,
    /// Pairing is finished; scan windows may run.
    Paired,
}

/// The phase that follows `p` once the controller acknowledges the
/// phase's command.
pub open spec fn next_init_phase(p: InitPhase) -> InitPhase {
    match p {
        InitPhase::Reset => InitPhase::EventMask,
        InitPhase::EventMask => InitPhase::LeEventMask,
        InitPhase::LeEventMask => InitPhase::ParamsUnfiltered,
        InitPhase::ParamsUnfiltered => InitPhase::EnableDiscovery,
        InitPhase::EnableDiscovery => InitPhase::AwaitBeacon,
        InitPhase::AwaitBeacon => InitPhase::AwaitBeacon,
        InitPhase::DisableDiscovery => InitPhase::Whitelist,
        InitPhase::Whitelist => InitPhase::ParamsFiltered,
        InitPhase::ParamsFiltered => InitPhase::Paired,
        InitPhase::Paired => InitPhase::Paired,
    }
}

/// Whether phase `p` has a command outstanding to acknowledge.
pub open spec fn is_command_phase(p: InitPhase) -> bool {
    !(p is AwaitBeacon || p is Paired)
}

/// The observable state of the initialization engine: its phase and the
/// captured beacon address, if one was discovered yet.
pub ghost struct EngineModel {
    pub phase: InitPhase,
    pub address: Option<Seq<u8>>,
}

/// A fresh engine: at the start of the sequence, no beacon known.
pub open spec fn fresh_model() -> EngineModel {
    EngineModel { phase: InitPhase::Reset, address: Option::None }
}

/// How a command acknowledgement advances the engine.
pub open spec fn model_on_complete(m: EngineModel) -> EngineModel {
    EngineModel { phase: next_init_phase(m.phase), address: m.address }
}

/// How an advertisement received while awaiting the beacon advances the
/// engine: a well-formed Tilt packet is captured and the sequence moves
/// on; anything else is ignored.
pub open spec fn model_on_advertisement(m: EngineModel, adv: Seq<u8>) -> EngineModel {
    if is_tilt_packet(adv) {
        EngineModel { phase: InitPhase::DisableDiscovery, address: Option::Some(packet_address(adv)) }
    } else {
        m
    }
}

/// The whole initialization run from a fresh engine, when `adv` is the
/// first advertisement seen while awaiting the beacon: five
/// acknowledged commands, the advertisement, then three acknowledged
/// commands.
pub open spec fn model_run_init(adv: Seq<u8>) -> EngineModel {
    let m1 = model_on_complete(fresh_model());
    let m2 = model_on_complete(m1);
    let m3 = model_on_complete(m2);
    let m4 = model_on_complete(m3);
    let m5 = model_on_complete(m4);
    let m6 = model_on_advertisement(m5, adv);
    let m7 = model_on_complete(m6);
    let m8 = model_on_complete(m7);
    model_on_complete(m8)
}

/// A clean restart is idempotent: the initialization run from a fresh
/// engine is a function of the advertisement alone, so any two restarts
/// that see the same beacon reach the same `Paired` state with the same
/// captured address.
pub proof fn lemma_clean_restart_pairs_same(adv: Seq<u8>)
    requires
        is_tilt_packet(adv),
    ensures
        model_run_init(adv).phase == InitPhase::Paired,
        model_run_init(adv).address == Option::Some(packet_address(adv)),
{
}

/// The initialization and pairing engine. It owns no transport: the
/// caller writes each pending command, reports its acknowledgement,
/// and hands in advertisement bytes while the engine awaits the beacon.
pub struct ScannerEngine {
    phase: InitPhase,
    beacon: Option<TiltPacket>,
}

impl ScannerEngine {
    pub closed spec fn spec_phase(self) -> InitPhase {
        self.phase
    }

    pub closed spec fn spec_beacon(self) -> Option<TiltPacket> {
        self.beacon
    }

    pub closed spec fn model(self) -> EngineModel {
        EngineModel {
            phase: self.phase,
            address: match self.beacon {
                Option::Some(p) => Option::Some(p.spec_address()),
                Option::None => Option::None,
            },
        }
    }

    /// A beacon has been captured in every phase after discovery.
    pub open spec fn wf(self) -> bool {
        match self.spec_phase() {
            InitPhase::DisableDiscovery => self.spec_beacon() is Some,
            InitPhase::Whitelist => self.spec_beacon() is Some,
            InitPhase::ParamsFiltered => self.spec_beacon() is Some,
            InitPhase::Paired => self.spec_beacon() is Some,
            _ => true,
        }
    }

    pub fn new() -> (r: Self)
        ensures
            r.wf(),
            r.model() == fresh_model(),
            r.spec_phase() == InitPhase::Reset,
            r.spec_beacon() is None,
    {
        Self { phase: InitPhase::Reset, beacon: None }
    }

    pub fn phase(&self) -> (r: InitPhase)
        ensures
            r == self.spec_phase(),
    {
        self.phase
    }

    pub fn beacon(&self) -> (r: &Option<TiltPacket>)
        ensures
            *r == self.spec_beacon(),
    {
        &self.beacon
    }

    /// The command the current phase must write to the controller, or
    /// `None` while awaiting the beacon or once paired.
    pub fn pending_command(&self) -> (r: Option<Vec<u8>>)
        requires
            self.wf(),
        ensures
            r is Some <==> is_command_phase(self.spec_phase()),
            r matches Some(c) ==> c@ == self.spec_pending_command(),
    {
        match self.phase {
            InitPhase::Reset => Some(hci_reset()),
            InitPhase::EventMask => Some(hci_set_event_mask()),
            InitPhase::LeEventMask => Some(hci_le_set_event_mask()),
            InitPhase::ParamsUnfiltered => Some(hci_le_set_scan_params(false)),
            InitPhase::EnableDiscovery => Some(hci_le_set_scan_enable(true, true)),
            InitPhase::AwaitBeacon => None,
            InitPhase::DisableDiscovery => Some(hci_le_set_scan_enable(false, true)),
            InitPhase::Whitelist => Some(
                hci_le_add_to_white_list(self.beacon.as_ref().unwrap()),
            ),
            InitPhase::ParamsFiltered => Some(hci_le_set_scan_params(true)),
            InitPhase::Paired => None,
        }
    }

    /// The bytes of the current phase's command: reset, the two event
    /// masks, the unfiltered scan parameters, scan enable with
    /// duplicate filtering, scan disable, the allow-list entry for the
    /// captured address, and the filtered scan parameters that keep
    /// duplicates.
    pub open spec fn spec_pending_command(self) -> Seq<u8> {
        match self.spec_phase() {
            InitPhase::Reset => spec_cmd_packet(OPCODE_RESET, Seq::empty()),
            InitPhase::EventMask => spec_cmd_packet(OPCODE_SET_EVENT_MASK, event_mask_params()),
            InitPhase::LeEventMask => spec_cmd_packet(
                OPCODE_LE_SET_EVENT_MASK,
                le_event_mask_params(),
            ),
            InitPhase::ParamsUnfiltered => spec_cmd_packet(
                OPCODE_SET_SCAN_PARAMS,
                scan_params(false),
            ),
            InitPhase::EnableDiscovery => spec_cmd_packet(
                OPCODE_SET_SCAN_ENABLE,
                scan_enable_params(true, true),
            ),
            InitPhase::DisableDiscovery => spec_cmd_packet(
                OPCODE_SET_SCAN_ENABLE,
                scan_enable_params(false, true),
            ),
            InitPhase::Whitelist => spec_cmd_packet(
                OPCODE_ADD_TO_WHITELIST,
                self.spec_beacon().unwrap().spec_address(),
            ),
            InitPhase::ParamsFiltered => spec_cmd_packet(OPCODE_SET_SCAN_PARAMS, scan_params(true)),
            _ => Seq::empty(),
        }
    }

    /// Advances the sequence after the controller acknowledged the
    /// current phase's command.
    pub fn on_command_complete(&mut self)
        requires
            old(self).wf(),
            is_command_phase(old(self).spec_phase()),
        ensures
            final(self).wf(),
            final(self).model() == model_on_complete(old(self).model()),
            final(self).spec_phase() == next_init_phase(old(self).spec_phase()),
            final(self).spec_beacon() == old(self).spec_beacon(),
    {
        self.phase = match self.phase {
            InitPhase::Reset => InitPhase::EventMask,
            InitPhase::EventMask => InitPhase::LeEventMask,
            InitPhase::LeEventMask => InitPhase::ParamsUnfiltered,
            InitPhase::ParamsUnfiltered => InitPhase::EnableDiscovery,
            InitPhase::EnableDiscovery => InitPhase::AwaitBeacon,
            InitPhase::AwaitBeacon => InitPhase::AwaitBeacon,
            InitPhase::DisableDiscovery => InitPhase::Whitelist,
            InitPhase::Whitelist => InitPhase::ParamsFiltered,
            InitPhase::ParamsFiltered => InitPhase::Paired,
            InitPhase::Paired => InitPhase::Paired,
        };
    }

    /// Offers advertisement bytes while the engine awaits the beacon.
    /// Returns whether they decoded as a Tilt packet; if so the address
    /// is captured and the sequence moves on to disabling discovery,
    /// otherwise nothing changes and scanning continues.
    pub fn on_advertisement(&mut self, bytes: &[u8]) -> (r: bool)
        requires
            old(self).wf(),
            old(self).spec_phase() == InitPhase::AwaitBeacon,
        ensures
            final(self).wf(),
            r == is_tilt_packet(bytes@),
            final(self).model() == model_on_advertisement(old(self).model(), bytes@),
            r ==> final(self).spec_phase() == InitPhase::DisableDiscovery,
            r ==> (final(self).spec_beacon() matches Some(p) && p.spec_address() == packet_address(
                bytes@,
            )),
            !r ==> *final(self) == *old(self),
    {
        match TiltPacket::try_parse(bytes) {
            Some(packet) => {
                self.beacon = Some(packet);
                self.phase = InitPhase::DisableDiscovery;
                true
            },
            None => false,
        }
    }
}

/// One bounded scan window's readings, aggregated as they arrive.
/// Created fresh at the start of the window, fed each advertisement
/// read during it, and consumed once at the end.
pub struct ScanSession {
    stats: TiltStats,
}

impl ScanSession {
    pub closed spec fn spec_stats(self) -> TiltStats {
        self.stats
    }

    pub open spec fn wf(self) -> bool {
        self.spec_stats().wf()
    }

    pub fn new() -> (r: Self)
        ensures
            r.wf(),
            r.spec_stats().is_empty(),
    {
        Self { stats: TiltStats::new() }
    }

    /// Offers the bytes of one read. Returns whether they decoded as a
    /// Tilt packet; if so its reading joins the aggregate, otherwise
    /// (a foreign or malformed advertisement, or no data) nothing
    /// changes.
    pub fn on_advertisement(&mut self, bytes: &[u8]) -> (r: bool)
        requires
            old(self).wf(),
            old(self).spec_stats().spec_n_data() < u32::MAX,
        ensures
            final(self).wf(),
            r == is_tilt_packet(bytes@),
            r ==> {
                &&& final(self).spec_stats().spec_sum_temperature() == old(
                    self,
                ).spec_stats().spec_sum_temperature() + packet_temperature(bytes@)
                &&& final(self).spec_stats().spec_sum_gravity() == old(
                    self,
                ).spec_stats().spec_sum_gravity() + packet_gravity(bytes@)
                &&& final(self).spec_stats().spec_max_battery() == opt_max(
                    old(self).spec_stats().spec_max_battery(),
                    packet_battery(bytes@),
                )
                &&& final(self).spec_stats().spec_n_data() == old(
                    self,
                ).spec_stats().spec_n_data() + 1
            },
            r ==> ({
                let rs = final(self).spec_stats().spec_readings();
                &&& rs.len() == old(self).spec_stats().spec_readings().len() + 1
                &&& rs.drop_last() == old(self).spec_stats().spec_readings()
                &&& rs.last().spec_temperature() == packet_temperature(bytes@)
                &&& rs.last().spec_gravity() == packet_gravity(bytes@)
                &&& rs.last().spec_battery() == packet_battery(bytes@)
            }),
            !r ==> final(self).spec_stats() == old(self).spec_stats(),
    {
        match TiltPacket::try_parse(bytes) {
            Some(packet) => {
                self.stats.add(packet.data());
                proof {
                    assert(self.spec_stats().spec_readings().drop_last() =~= old(
                        self,
                    ).spec_stats().spec_readings());
                }
                true
            },
            None => false,
        }
    }

    /// Ends the window: the aggregate of everything added, or `None`
    /// if the window saw no beacon. The result depends only on the
    /// multiset of decoded readings, not on their order.
    pub fn finish(self) -> (r: Option<TiltData>)
        requires
            self.wf(),
        ensures
            r is Some <==> self.spec_stats().spec_n_data() != 0,
            r matches Some(d) ==> {
                &&& d.spec_temperature() == self.spec_stats().spec_sum_temperature() as int
                    / self.spec_stats().spec_n_data() as int
                &&& d.spec_gravity() == self.spec_stats().spec_sum_gravity() as int
                    / self.spec_stats().spec_n_data() as int
                &&& d.spec_battery() == self.spec_stats().spec_max_battery()
            },
            ({
                let agg = crate::tilt::aggregate_of(self.spec_stats().spec_readings());
                match r {
                    Option::None => agg is None,
                    Option::Some(d) => agg == Option::Some(
                        (
                            d.spec_temperature() as int,
                            d.spec_gravity() as int,
                            d.spec_battery(),
                        ),
                    ),
                }
            }),
    {
        self.stats.aggregate()
    }
}

} // verus!
