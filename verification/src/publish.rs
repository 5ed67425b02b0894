//! The publish pipeline's logic: serializing a reading to its wire
//! payload, building the HTTP request envelope, classifying responses,
//! the bounded retry schedule with backoff, and the cross-cycle failure
//! escalation that forces a device restart.
//!
//! The caller owns the socket and the clock: it connects, writes the
//! rendered request, reads the response, sleeps the backoff, and feeds
//! each attempt's outcome back in.

use vstd::prelude::*;

use crate::hci::push_all;
use crate::tilt::{pow10, pow10_u64, TiltData};

verus! {

/// The byte for one decimal digit.
pub open spec fn digit_byte(d: nat) -> u8 {
    (48 + d % 10) as u8
}

/// The decimal digits of `n` as bytes, most significant first, with no
/// leading zeros except for the single digit of zero itself.
pub open spec fn dec_bytes(n: nat) -> Seq<u8>
    decreases n,
{
    if n < 10 {
        seq![digit_byte(n)]
    } else {
        dec_bytes(n / 10).push(digit_byte(n % 10))
    }
}

/// The last `width` decimal digits of `n` as bytes, zero-padded on the
/// left.
pub open spec fn padded_bytes(n: nat, width: nat) -> Seq<u8>
    decreases width,
{
    if width == 0 {
        Seq::empty()
    } else {
        padded_bytes(n / 10, (width - 1) as nat).push(digit_byte(n % 10))
    }
}

/// The exact decimal rendering of `val / 10^places` as bytes.
pub open spec fn fixed_point_bytes(val: nat, places: nat) -> Seq<u8> {
    dec_bytes(val / pow10(places)) + seq![46u8] + padded_bytes(val, places)
}

fn push_dec_bytes(v: &mut Vec<u8>, n: u64)
    ensures
        final(v)@ == old(v)@ + dec_bytes(n as nat),
    decreases n,
{
    if n < 10 {
        v.push(48 + n as u8);
        proof {
            assert(final(v)@ =~= old(v)@ + dec_bytes(n as nat));
        }
    } else {
        push_dec_bytes(v, n / 10);
        v.push(48 + (n % 10) as u8);
        proof {
            assert(final(v)@ =~= old(v)@ + dec_bytes(n as nat));
        }
    }
}

fn push_padded_bytes(v: &mut Vec<u8>, n: u64, width: usize)
    ensures
        final(v)@ == old(v)@ + padded_bytes(n as nat, width as nat),
    decreases width,
{
    if width == 0 {
        proof {
            assert(final(v)@ =~= old(v)@ + padded_bytes(n as nat, 0));
        }
    } else {
        push_padded_bytes(v, n / 10, width - 1);
        v.push(48 + (n % 10) as u8);
        proof {
            assert(final(v)@ =~= old(v)@ + padded_bytes(n as nat, width as nat));
        }
    }
}

fn push_fixed_point(v: &mut Vec<u8>, val: u64, places: usize)
    requires
        1 <= places <= 4,
    ensures
        final(v)@ == old(v)@ + fixed_point_bytes(val as nat, places as nat),
{
    let p = pow10_u64(places);
    push_dec_bytes(v, val / p);
    v.push(46u8);
    push_padded_bytes(v, val, places);
    proof {
        assert(final(v)@ =~= old(v)@ + fixed_point_bytes(val as nat, places as nat));
    }
}

/// The opening of the payload, through the temperature key.
pub open spec fn json_head() -> Seq<u8> {
    seq![
        123u8, 34u8, 110u8, 97u8, 109u8, 101u8, 34u8, 58u8, 34u8, 84u8, 105u8, 108u8, 116u8, 34u8, 44u8,
        34u8, 116u8, 101u8, 109u8, 112u8, 34u8, 58u8,
    ]
}

/// Between the temperature value and the gravity value: the temperature
/// unit and the gravity key.
pub open spec fn json_mid_gravity() -> Seq<u8> {
    seq![
        44u8, 34u8, 116u8, 101u8, 109u8, 112u8, 95u8, 117u8, 110u8, 105u8, 116u8, 34u8, 58u8, 34u8, 70u8,
        34u8, 44u8, 34u8, 103u8, 114u8, 97u8, 118u8, 105u8, 116u8, 121u8, 34u8, 58u8,
    ]
}

/// Between the gravity value and the battery value: the gravity unit
/// and the battery key.
pub open spec fn json_mid_battery() -> Seq<u8> {
    seq![
        44u8, 34u8, 103u8, 114u8, 97u8, 118u8, 105u8, 116u8, 121u8, 95u8, 117u8, 110u8, 105u8, 116u8, 34u8,
        58u8, 34u8, 71u8, 34u8, 44u8, 34u8, 98u8, 97u8, 116u8, 116u8, 101u8, 114u8, 121u8, 34u8, 58u8,
    ]
}

pub open spec fn json_tail() -> Seq<u8> {
    seq![125u8]
}

/// The battery field of the payload: the age in weeks, or zero when the
/// beacon transmitted none.
pub open spec fn battery_weeks(b: Option<u8>) -> u8 {
    match b {
        Option::Some(w) => w,
        Option::None => 0,
    }
}

/// The wire payload for a reading: the fixed keys and units around the
/// exact fixed-point temperature and gravity strings and the battery
/// age.
pub open spec fn spec_body(temp: u16, grav: u16, batt: Option<u8>) -> Seq<u8> {
    json_head() + fixed_point_bytes(temp as nat, 1) + json_mid_gravity() + fixed_point_bytes(
        grav as nat,
        4,
    ) + json_mid_battery() + dec_bytes(battery_weeks(batt) as nat) + json_tail()
}

fn push_json_head(v: &mut Vec<u8>)
    ensures
        final(v)@ == old(v)@ + json_head(),
{
    let chunk: [u8; 22] = [
        123u8, 34u8, 110u8, 97u8, 109u8, 101u8, 34u8, 58u8, 34u8, 84u8, 105u8, 108u8, 116u8, 34u8, 44u8,
        34u8, 116u8, 101u8, 109u8, 112u8, 34u8, 58u8,
    ];
    push_all(v, chunk.as_slice());
    proof {
        assert(chunk@ =~= json_head());
    }
}

fn push_json_mid_gravity(v: &mut Vec<u8>)
    ensures
        final(v)@ == old(v)@ + json_mid_gravity(),
{
    let chunk: [u8; 27] = [
        44u8, 34u8, 116u8, 101u8, 109u8, 112u8, 95u8, 117u8, 110u8, 105u8, 116u8, 34u8, 58u8, 34u8, 70u8,
        34u8, 44u8, 34u8, 103u8, 114u8, 97u8, 118u8, 105u8, 116u8, 121u8, 34u8, 58u8,
    ];
    push_all(v, chunk.as_slice());
    proof {
        assert(chunk@ =~= json_mid_gravity());
    }
}

fn push_json_mid_battery(v: &mut Vec<u8>)
    ensures
        final(v)@ == old(v)@ + json_mid_battery(),
{
    let chunk: [u8; 30] = [
        44u8, 34u8, 103u8, 114u8, 97u8, 118u8, 105u8, 116u8, 121u8, 95u8, 117u8, 110u8, 105u8, 116u8, 34u8,
        58u8, 34u8, 71u8, 34u8, 44u8, 34u8, 98u8, 97u8, 116u8, 116u8, 101u8, 114u8, 121u8, 34u8, 58u8,
    ];
    push_all(v, chunk.as_slice());
    proof {
        assert(chunk@ =~= json_mid_battery());
    }
}

/// Serializes `data` to its wire payload.
pub fn render_body(data: &TiltData) -> (r: Vec<u8>)
    ensures
        r@ == spec_body(data.spec_temperature(), data.spec_gravity(), data.spec_battery()),
{
    let mut v: Vec<u8> = Vec::new();
    push_json_head(&mut v);
    push_fixed_point(&mut v, data.temperature() as u64, 1);
    push_json_mid_gravity(&mut v);
    push_fixed_point(&mut v, data.gravity() as u64, 4);
    push_json_mid_battery(&mut v);
    let weeks = match data.battery() {
        Some(w) => w,
        None => 0,
    };
    push_dec_bytes(&mut v, weeks as u64);
    v.push(125u8);
    proof {
        assert(v@ =~= spec_body(data.spec_temperature(), data.spec_gravity(), data.spec_battery()));
    }
    v
}

proof fn lemma_padded_bytes_len(n: nat, w: nat)
    ensures
        padded_bytes(n, w).len() == w,
    decreases w,
{
    if w > 0 {
        lemma_padded_bytes_len(n / 10, (w - 1) as nat);
    }
}

proof fn lemma_dec_bytes_len(n: nat, k: nat)
    requires
        k >= 1,
        n < pow10(k),
    ensures
        1 <= dec_bytes(n).len() <= k,
    decreases k,
{
    if n >= 10 {
        if k == 1 {
            assert(pow10(1) == 10) by {
                reveal_with_fuel(pow10, 2);
            }
        }
        crate::tilt::lemma_pow10_pos((k - 1) as nat);
        assert(n / 10 < pow10((k - 1) as nat)) by (nonlinear_arith)
            requires
                n < 10 * pow10((k - 1) as nat),
                pow10((k - 1) as nat) >= 1,
        ;
        lemma_dec_bytes_len(n / 10, (k - 1) as nat);
    }
}

/// The rendered payload always fits the fixed formatting buffer a
/// memory-constrained device would hand it: whatever the reading, the
/// body is at most 95 bytes.
pub proof fn lemma_body_bounded(temp: u16, grav: u16, batt: Option<u8>)
    ensures
        spec_body(temp, grav, batt).len() <= 95,
{
    assert(pow10(1) == 10 && pow10(3) == 1000 && pow10(4) == 10000) by {
        reveal_with_fuel(pow10, 5);
    }
    assert(temp as nat / 10 < 10000) by (nonlinear_arith)
        requires
            temp < 65536,
    ;
    lemma_dec_bytes_len(temp as nat / pow10(1), 4);
    lemma_padded_bytes_len(temp as nat, 1);
    assert(grav as nat / 10000 < 10) by (nonlinear_arith)
        requires
            grav < 65536,
    ;
    lemma_dec_bytes_len(grav as nat / pow10(4), 1);
    lemma_padded_bytes_len(grav as nat, 4);
    lemma_dec_bytes_len(battery_weeks(batt) as nat, 3);
}

/// The request line up to the stream identifier.
pub open spec fn request_post() -> Seq<u8> {
    seq![80u8, 79u8, 83u8, 84u8, 32u8, 47u8, 115u8, 116u8, 114u8, 101u8, 97u8, 109u8, 63u8, 105u8, 100u8, 61u8]
}

/// From the stream identifier to the host value.
pub open spec fn request_host_header() -> Seq<u8> {
    seq![
        32u8, 72u8, 84u8, 84u8, 80u8, 47u8, 49u8, 46u8, 49u8, 13u8, 10u8, 72u8, 111u8, 115u8, 116u8,
        58u8, 32u8,
    ]
}

/// From the host value to the content length value.
pub open spec fn request_length_header() -> Seq<u8> {
    seq![
        13u8, 10u8, 67u8, 111u8, 110u8, 116u8, 101u8, 110u8, 116u8, 45u8, 84u8, 121u8, 112u8, 101u8, 58u8,
        32u8, 97u8, 112u8, 112u8, 108u8, 105u8, 99u8, 97u8, 116u8, 105u8, 111u8, 110u8, 47u8, 106u8, 115u8,
        111u8, 110u8, 13u8, 10u8, 67u8, 111u8, 110u8, 116u8, 101u8, 110u8, 116u8, 45u8, 76u8, 101u8, 110u8,
        103u8, 116u8, 104u8, 58u8, 32u8,
    ]
}

/// The blank line that ends the headers.
pub open spec fn request_blank_line() -> Seq<u8> {
    seq![13u8, 10u8, 13u8, 10u8]
}

/// The full request for one publish: the POST line naming the stream,
/// the host header, the content type, the exact length of the body, and
/// the body itself.
pub open spec fn spec_request(stream_id: Seq<u8>, host: Seq<u8>, body: Seq<u8>) -> Seq<u8> {
    request_post() + stream_id + request_host_header() + host + request_length_header()
        + dec_bytes(body.len()) + request_blank_line() + body
}

fn push_request_post(v: &mut Vec<u8>)
    ensures
        final(v)@ == old(v)@ + request_post(),
{
    let chunk: [u8; 16] = [
        80u8, 79u8, 83u8, 84u8, 32u8, 47u8, 115u8, 116u8, 114u8, 101u8, 97u8, 109u8, 63u8, 105u8, 100u8,
        61u8,
    ];
    push_all(v, chunk.as_slice());
    proof {
        assert(chunk@ =~= request_post());
    }
}

fn push_request_host_header(v: &mut Vec<u8>)
    ensures
        final(v)@ == old(v)@ + request_host_header(),
{
    let chunk: [u8; 17] = [
        32u8, 72u8, 84u8, 84u8, 80u8, 47u8, 49u8, 46u8, 49u8, 13u8, 10u8, 72u8, 111u8, 115u8, 116u8,
        58u8, 32u8,
    ];
    push_all(v, chunk.as_slice());
    proof {
        assert(chunk@ =~= request_host_header());
    }
}

fn push_request_length_header(v: &mut Vec<u8>)
    ensures
        final(v)@ == old(v)@ + request_length_header(),
{
    let chunk: [u8; 50] = [
        13u8, 10u8, 67u8, 111u8, 110u8, 116u8, 101u8, 110u8, 116u8, 45u8, 84u8, 121u8, 112u8, 101u8, 58u8,
        32u8, 97u8, 112u8, 112u8, 108u8, 105u8, 99u8, 97u8, 116u8, 105u8, 111u8, 110u8, 47u8, 106u8, 115u8,
        111u8, 110u8, 13u8, 10u8, 67u8, 111u8, 110u8, 116u8, 101u8, 110u8, 116u8, 45u8, 76u8, 101u8, 110u8,
        103u8, 116u8, 104u8, 58u8, 32u8,
    ];
    push_all(v, chunk.as_slice());
    proof {
        assert(chunk@ =~= request_length_header());
    }
}

/// Builds the full HTTP request that posts `body` for `stream_id` to
/// `host`.
pub fn render_request(stream_id: &[u8], host: &[u8], body: &[u8]) -> (r: Vec<u8>)
    ensures
        r@ == spec_request(stream_id@, host@, body@),
{
    let mut v: Vec<u8> = Vec::new();
    push_request_post(&mut v);
    push_all(&mut v, stream_id);
    push_request_host_header(&mut v);
    push_all(&mut v, host);
    push_request_length_header(&mut v);
    push_dec_bytes(&mut v, body.len() as u64);
    let blank: [u8; 4] = [13u8, 10u8, 13u8, 10u8];
    push_all(&mut v, blank.as_slice());
    push_all(&mut v, body);
    proof {
        assert(blank@ =~= request_blank_line());
        assert(v@ =~= spec_request(stream_id@, host@, body@));
    }
    v
}

/// The status-line prefix that counts as success.
pub open spec fn ok_prefix() -> Seq<u8> {
    seq![72u8, 84u8, 84u8, 80u8, 47u8, 49u8, 46u8, 49u8, 32u8, 50u8, 48u8, 48u8, 32u8, 79u8, 75u8]
}

/// A response succeeds exactly when its status line begins with the
/// success prefix.
pub open spec fn response_ok(resp: Seq<u8>) -> bool {
    resp.len() >= 15 && resp.subrange(0, 15) == ok_prefix()
}

/// Classifies a response: success exactly when it begins with the
/// success status line.
pub fn is_success_response(resp: &[u8]) -> (r: bool)
    ensures
        r == response_ok(resp@),
{
    if resp.len() < 15 {
        return false;
    }
    let expected: [u8; 15] = [
        72u8, 84u8, 84u8, 80u8, 47u8, 49u8, 46u8, 49u8, 32u8, 50u8, 48u8, 48u8, 32u8, 79u8, 75u8,
    ];
    proof {
        assert(expected@ =~= ok_prefix());
    }
    let mut i: usize = 0;
    while i < 15
        invariant
            i <= 15,
            resp@.len() >= 15,
            expected@ == ok_prefix(),
            forall|j: int| 0 <= j < i ==> resp@[j] == ok_prefix()[j],
        decreases 15 - i,
    {
        if resp[i] != expected[i] {
            proof {
                assert(resp@.subrange(0, 15)[i as int] == resp@[i as int]);
            }
            return false;
        }
        i = i + 1;
    }
    proof {
        assert(resp@.subrange(0, 15) =~= ok_prefix());
    }
    true
}

/// How many delivery attempts one publish cycle may make.
pub const MAX_POST_ATTEMPTS: u32 = 5;

/// The backoff slept before attempt number `attempt` of a cycle: none
/// before the first, then a fixed ascending schedule capped at one
/// second.
pub open spec fn spec_backoff_ms(attempt: int) -> Option<u64> {
    if attempt <= 1 {
        Option::None
    } else if attempt == 2 {
        Option::Some(100)
    } else if attempt == 3 {
        Option::Some(500)
    } else {
        Option::Some(1000)
    }
}

/// The retry state of one publish cycle: which attempt comes next, and
/// whether an attempt has already succeeded.
pub struct PublishCycle {
    attempt: u32,
    success: bool,
}

impl PublishCycle {
    pub closed spec fn spec_attempt(self) -> u32 {
        self.attempt
    }

    pub closed spec fn spec_success(self) -> bool {
        self.success
    }

    pub open spec fn wf(self) -> bool {
        1 <= self.spec_attempt() <= MAX_POST_ATTEMPTS + 1
    }

    /// Whether another attempt should run: none has succeeded and the
    /// attempt budget is not exhausted.
    pub open spec fn spec_should_attempt(self) -> bool {
        !self.spec_success() && self.spec_attempt() <= MAX_POST_ATTEMPTS
    }

    pub fn new() -> (r: Self)
        ensures
            r.wf(),
            r.spec_attempt() == 1,
            !r.spec_success(),
    {
        Self { attempt: 1, success: false }
    }

    pub fn should_attempt(&self) -> (r: bool)
        ensures
            r == self.spec_should_attempt(),
    {
        !self.success && self.attempt <= MAX_POST_ATTEMPTS
    }

    /// The backoff to sleep before the coming attempt, if any.
    pub fn backoff_ms(&self) -> (r: Option<u64>)
        ensures
            r == spec_backoff_ms(self.spec_attempt() as int),
    {
        if self.attempt <= 1 {
            None
        } else if self.attempt == 2 {
            Some(100)
        } else if self.attempt == 3 {
            Some(500)
        } else {
            Some(1000)
        }
    }

    /// Records the outcome of one attempt: a connect, write, read or
    /// close failure, or a non-success response, leaves `ok` false and
    /// the cycle moves to its next attempt.
    pub fn record_attempt(&mut self, ok: bool)
        requires
            old(self).wf(),
            old(self).spec_should_attempt(),
        ensures
            final(self).wf(),
            final(self).spec_attempt() == old(self).spec_attempt() + 1,
            final(self).spec_success() == ok,
    {
        self.attempt = self.attempt + 1;
        self.success = ok;
    }

    /// Whether the cycle delivered its reading.
    pub fn succeeded(&self) -> (r: bool)
        ensures
            r == self.spec_success(),
    {
        self.success
    }
}

/// How many consecutive whole cycles may fail before the fault is
/// unrecoverable.
pub const MAX_CYCLE_FAILURES: u32 = 3;

/// The verdict after a publish cycle.
#[derive(Clone, Copy, Debug, PartialEq, Eq, Structural)]
pub enum CycleVerdict {
    /// Keep running; the schedule advances as usual.
    Continue,
    /// Too many consecutive cycles failed: restart the whole device,
    /// re-establishing radio and network state from scratch, rather
    /// than keep running possibly wedged.
    FatalRestart,
}

/// Counts consecutive publish cycles that exhausted every attempt.
pub struct FailureTracker {
    failures: u32,
}

impl FailureTracker {
    pub closed spec fn spec_failures(self) -> u32 {
        self.failures
    }

    pub fn new() -> (r: Self)
        ensures
            r.spec_failures() == 0,
    {
        Self { failures: 0 }
    }

    pub fn failures(&self) -> (r: u32)
        ensures
            r == self.spec_failures(),
    {
        self.failures
    }

    /// Records whether a whole cycle succeeded: success resets the
    /// count to zero; failure increments it, and reaching the limit is
    /// the unrecoverable verdict.
    pub fn record_cycle(&mut self, success: bool) -> (v: CycleVerdict)
        requires
            old(self).spec_failures() < MAX_CYCLE_FAILURES,
        ensures
            success ==> final(self).spec_failures() == 0 && v == CycleVerdict::Continue,
            !success ==> final(self).spec_failures() == old(self).spec_failures() + 1,
            !success ==> (v == CycleVerdict::FatalRestart <==> final(self).spec_failures()
                >= MAX_CYCLE_FAILURES),
    {
        if success {
            self.failures = 0;
            CycleVerdict::Continue
        } else {
            self.failures = self.failures + 1;
            if self.failures >= MAX_CYCLE_FAILURES {
                CycleVerdict::FatalRestart
            } else {
                CycleVerdict::Continue
            }
        }
    }
}

/// A bounded caller-owned formatting buffer: bytes are written at the
/// front, a write that would not fit is refused whole, and the written
/// prefix is taken out at the end. No allocation happens after
/// creation.
pub struct Wrapper {
    buffer: Vec<u8>,
    offset: usize,
}

impl Wrapper {
    pub closed spec fn spec_buffer(self) -> Seq<u8> {
        self.buffer@
    }

    pub closed spec fn spec_offset(self) -> int {
        self.offset as int
    }

    pub open spec fn wf(self) -> bool {
        0 <= self.spec_offset() <= self.spec_buffer().len()
    }

    /// The bytes written so far.
    pub open spec fn written(self) -> Seq<u8> {
        self.spec_buffer().take(self.spec_offset())
    }

    /// Wraps `buffer`; its length is the capacity.
    pub fn new(buffer: Vec<u8>) -> (r: Self)
        ensures
            r.wf(),
            r.spec_buffer() == buffer@,
            r.spec_offset() == 0,
    {
        Self { buffer, offset: 0 }
    }

    /// Appends `s` after what was already written. Refused, changing
    /// nothing, exactly when it does not fit in the remaining space.
    pub fn write_bytes(&mut self, s: &[u8]) -> (r: Result<(), ()>)
        requires
            old(self).wf(),
        ensures
            final(self).wf(),
            r is Ok <==> old(self).spec_offset() + s@.len() <= old(self).spec_buffer().len(),
            r is Ok ==> final(self).written() == old(self).written() + s@,
            r is Ok ==> final(self).spec_buffer().len() == old(self).spec_buffer().len(),
            r is Ok ==> final(self).spec_offset() == old(self).spec_offset() + s@.len(),
            r is Err ==> *final(self) == *old(self),
    {
        if s.len() > self.buffer.len() - self.offset {
            return Err(());
        }
        let mut i: usize = 0;
        while i < s.len()
            invariant
                i <= s@.len(),
                old(self).spec_offset() + s@.len() <= old(self).spec_buffer().len(),
                old(self).spec_buffer().len() <= usize::MAX,
                self.spec_offset() == old(self).spec_offset(),
                self.spec_buffer().len() == old(self).spec_buffer().len(),
                forall|j: int|
                    0 <= j < old(self).spec_offset() ==> self.spec_buffer()[j] == old(
                        self,
                    ).spec_buffer()[j],
                forall|j: int|
                    0 <= j < i ==> self.spec_buffer()[old(self).spec_offset() + j] == s@[j],
            decreases s@.len() - i,
        {
            let idx = self.offset + i;
            self.buffer[idx] = s[i];
            i = i + 1;
        }
        self.offset = self.offset + s.len();
        proof {
            assert(self.spec_buffer().take(self.spec_offset()) =~= old(self).written() + s@);
        }
        Ok(())
    }

    /// Consumes the buffer and returns exactly the written prefix.
    pub fn into_written(self) -> (r: Vec<u8>)
        requires
            self.wf(),
        ensures
            r@ == self.written(),
    {
        let mut buffer = self.buffer;
        let offset = self.offset;
        buffer.truncate(offset);
        proof {
            assert(buffer@ =~= self.written());
        }
        buffer
    }
}

} // verus!
