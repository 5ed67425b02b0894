//! The relay cadence: the fixed publish schedule and the single-slot
//! delivery mailbox between the scanner loop and the publish pipeline.

use vstd::prelude::*;

use crate::tilt::TiltData;

verus! {

/// Milliseconds between publishes; the logging service accepts a post
/// at most every fifteen minutes.
pub const PUBLISH_INTERVAL_MS: u64 = 15 * 60 * 1000;

/// Milliseconds spent scanning before each publish, enough to pick up
/// the beacon's broadcast.
pub const SCAN_WINDOW_MS: u64 = 60 * 1000;

/// The fixed-cadence publish schedule. Each cycle scans during the
/// `scan_window` that ends at `next_publish`, then advances by
/// `publish_interval`. The window is strictly shorter than the
/// interval, so idle time always separates two scans.
pub struct Schedule {
    publish_interval: u64,
    scan_window: u64,
    next_publish: u64,
}

impl Schedule {
    pub closed spec fn spec_publish_interval(self) -> u64 {
        self.publish_interval
    }

    pub closed spec fn spec_scan_window(self) -> u64 {
        self.scan_window
    }

    pub closed spec fn spec_next_publish(self) -> u64 {
        self.next_publish
    }

    pub open spec fn wf(self) -> bool {
        &&& self.spec_scan_window() < self.spec_publish_interval()
        &&& self.spec_scan_window() <= self.spec_next_publish()
    }

    /// Starts the cadence at time `now`: the first publish comes one
    /// scan window from now, so the first scan starts immediately.
    pub fn new(now: u64, publish_interval: u64, scan_window: u64) -> (r: Self)
        requires
            scan_window < publish_interval,
            now + scan_window <= u64::MAX,
        ensures
            r.wf(),
            r.spec_publish_interval() == publish_interval,
            r.spec_scan_window() == scan_window,
            r.spec_next_publish() == now + scan_window,
    {
        Self { publish_interval, scan_window, next_publish: now + scan_window }
    }

    /// The time of the next publish, which also ends the scan window.
    pub fn next_publish(&self) -> (r: u64)
        ensures
            r == self.spec_next_publish(),
    {
        self.next_publish
    }

    /// The time to sleep until before scanning: one scan window before
    /// the next publish.
    pub fn scan_start(&self) -> (r: u64)
        requires
            self.wf(),
        ensures
            r == self.spec_next_publish() - self.spec_scan_window(),
    {
        self.next_publish - self.scan_window
    }

    /// Moves the schedule to the following cycle. A cycle advances
    /// whether or not it produced a reading.
    pub fn advance(&mut self)
        requires
            old(self).wf(),
            old(self).spec_next_publish() + old(self).spec_publish_interval() <= u64::MAX,
        ensures
            final(self).wf(),
            final(self).spec_publish_interval() == old(self).spec_publish_interval(),
            final(self).spec_scan_window() == old(self).spec_scan_window(),
            final(self).spec_next_publish() == old(self).spec_next_publish() + old(
                self,
            ).spec_publish_interval(),
    {
        self.next_publish = self.next_publish + self.publish_interval;
    }
}

/// The single-slot, latest-value-wins mailbox between the relay loop
/// and the publish pipeline. A writer overwrites unconditionally: an
/// unconsumed prior reading is discarded, since only the freshest one
/// is meaningful. It is not a queue and supports one consumer.
pub struct Mailbox {
    slot: Option<TiltData>,
}

impl Mailbox {
    pub closed spec fn spec_slot(self) -> Option<TiltData> {
        self.slot
    }

    pub fn new() -> (r: Self)
        ensures
            r.spec_slot() is None,
    {
        Self { slot: None }
    }

    /// Deposits a reading, overwriting whatever was pending.
    pub fn signal(&mut self, data: TiltData)
        ensures
            final(self).spec_slot() == Option::Some(data),
    {
        self.slot = Some(data);
    }

    /// Removes and returns the pending reading, leaving the slot empty
    /// until the next signal.
    pub fn take(&mut self) -> (r: Option<TiltData>)
        ensures
            r == old(self).spec_slot(),
            final(self).spec_slot() is None,
    {
        self.slot.take()
    }
}

/// Whether a bounded wait that began at `start` has exceeded `max_wait`
/// by time `now`. Callers treat an exceeded wait as one failed attempt,
/// never as fatal.
pub fn wait_expired(start: u64, now: u64, max_wait: u64) -> (r: bool)
    requires
        start <= now,
    ensures
        r == (now - start > max_wait),
{
    now - start > max_wait
}

/// Milliseconds a bounded wait may last before it fails.
pub const MAX_WAIT_MS: u64 = 60 * 1000;

} // verus!
