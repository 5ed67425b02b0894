//! Verified core of a Tilt hydrometer relay.
//!
//! The library holds the logic of a bridge device that scans for a Tilt
//! beacon over Bluetooth LE and relays aggregated readings to an HTTP
//! logging endpoint: the beacon packet decoder and fixed-point rendering,
//! the reading aggregator, the HCI command encoder and event defragmenter,
//! the scanner initialization and scan-window state machines, the publish
//! cadence schedule and delivery mailbox, and the publish pipeline's
//! serialization, retry/backoff and failure-escalation rules.
//!
//! Everything here is pure: the radio byte stream, the TCP socket, the
//! clock and the sleeps live with the caller, which feeds bytes and events
//! in and carries commands and requests out.

pub mod tilt;

pub mod hci;

pub mod scanner;

pub mod relay;

pub mod publish;
