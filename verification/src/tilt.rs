//! Tilt beacon readings: fixed-point rendering, aggregation, and the
//! advertising-packet decoder.

use vstd::prelude::*;
use vstd::string::StringExecFns;

verus! {

/// Digits after the decimal point in a rendered temperature.
pub const TEMPERATURE_DECIMAL_PLACES: usize = 1;

/// Digits after the decimal point in a rendered gravity.
pub const GRAVITY_DECIMAL_PLACES: usize = 4;

pub open spec fn pow10(e: nat) -> nat
    decreases e,
{
    if e == 0 {
        1
    } else {
        10 * pow10((e - 1) as nat)
    }
}

/// The character for one decimal digit.
pub open spec fn digit_char(d: nat) -> char {
    if d == 0 {
        '0'
    } else if d == 1 {
        '1'
    } else if d == 2 {
        '2'
    } else if d == 3 {
        '3'
    } else if d == 4 {
        '4'
    } else if d == 5 {
        '5'
    } else if d == 6 {
        '6'
    } else if d == 7 {
        '7'
    } else if d == 8 {
        '8'
    } else {
        '9'
    }
}

/// The decimal digits of `n`, most significant first, with no leading
/// zeros except for the single digit of zero itself.
pub open spec fn dec_chars(n: nat) -> Seq<char>
    decreases n,
{
    if n < 10 {
        seq![digit_char(n)]
    } else {
        dec_chars(n / 10).push(digit_char(n % 10))
    }
}

/// The last `width` decimal digits of `n`, zero-padded on the left.
pub open spec fn padded_chars(n: nat, width: nat) -> Seq<char>
    decreases width,
{
    if width == 0 {
        Seq::empty()
    } else {
        padded_chars(n / 10, (width - 1) as nat).push(digit_char(n % 10))
    }
}

/// The exact decimal rendering of the fixed-point value
/// `val / 10^places`: the integer part (at least one digit, so a zero
/// leads when the integer part is zero), a point, then exactly `places`
/// fractional digits.
pub open spec fn fixed_point_chars(val: nat, places: nat) -> Seq<char> {
    dec_chars(val / pow10(places)) + seq!['.'] + padded_chars(val, places)
}

fn push_digit_char(s: &mut String, d: u64)
    requires
        d < 10,
    ensures
        final(s)@ == old(s)@ + seq![digit_char(d as nat)],
{
    proof {
        reveal_strlit("0");
        reveal_strlit("1");
        reveal_strlit("2");
        reveal_strlit("3");
        reveal_strlit("4");
        reveal_strlit("5");
        reveal_strlit("6");
        reveal_strlit("7");
        reveal_strlit("8");
        reveal_strlit("9");
    }
    if d == 0 {
        s.append("0");
    } else if d == 1 {
        s.append("1");
    } else if d == 2 {
        s.append("2");
    } else if d == 3 {
        s.append("3");
    } else if d == 4 {
        s.append("4");
    } else if d == 5 {
        s.append("5");
    } else if d == 6 {
        s.append("6");
    } else if d == 7 {
        s.append("7");
    } else if d == 8 {
        s.append("8");
    } else {
        s.append("9");
    }
    proof {
        assert(final(s)@ =~= old(s)@ + seq![digit_char(d as nat)]);
    }
}

fn push_dec_chars(s: &mut String, n: u64)
    ensures
        final(s)@ == old(s)@ + dec_chars(n as nat),
    decreases n,
{
    if n < 10 {
        push_digit_char(s, n);
    } else {
        push_dec_chars(s, n / 10);
        push_digit_char(s, n % 10);
        proof {
            assert(final(s)@ =~= old(s)@ + dec_chars(n as nat));
        }
    }
}

fn push_padded_chars(s: &mut String, n: u64, width: usize)
    ensures
        final(s)@ == old(s)@ + padded_chars(n as nat, width as nat),
    decreases width,
{
    if width == 0 {
        proof {
            assert(final(s)@ =~= old(s)@ + padded_chars(n as nat, 0));
        }
    } else {
        push_padded_chars(s, n / 10, width - 1);
        push_digit_char(s, n % 10);
        proof {
            assert(final(s)@ =~= old(s)@ + padded_chars(n as nat, width as nat));
        }
    }
}

pub(crate) fn pow10_u64(e: usize) -> (r: u64)
    requires
        e <= 4,
    ensures
        r as nat == pow10(e as nat),
        r >= 1,
{
    proof {
        reveal_with_fuel(pow10, 5);
    }
    if e == 0 {
        1
    } else if e == 1 {
        10
    } else if e == 2 {
        100
    } else if e == 3 {
        1000
    } else {
        10000
    }
}

/// Renders `val` as a decimal string with a point placed so that
/// `decimal_places` digits follow it: the string is the exact decimal
/// value of `val / 10^decimal_places`.
pub fn val_to_str(val: u16, decimal_places: usize) -> (s: String)
    requires
        1 <= decimal_places <= 4,
    ensures
        s@ == fixed_point_chars(val as nat, decimal_places as nat),
{
    let p = pow10_u64(decimal_places);
    let v = val as u64;
    let mut s = String::new();
    push_dec_chars(&mut s, v / p);
    proof {
        reveal_strlit(".");
    }
    s.append(".");
    proof {
        assert(s@ =~= dec_chars((val as nat) / pow10(decimal_places as nat)) + seq!['.']);
    }
    push_padded_chars(&mut s, v, decimal_places);
    proof {
        assert(s@ =~= fixed_point_chars(val as nat, decimal_places as nat));
    }
    s
}

/// One sensor reading transmitted by the Tilt: a fixed-point temperature
/// (one implied decimal place), a fixed-point specific gravity (four
/// implied decimal places), and an optional battery age in weeks.
#[derive(Copy, Clone, Debug)]
pub struct TiltData {
    temperature: u16,
    gravity: u16,
    battery: Option<u8>,
}

impl TiltData {
    pub closed spec fn spec_temperature(self) -> u16 {
        self.temperature
    }

    pub closed spec fn spec_gravity(self) -> u16 {
        self.gravity
    }

    pub closed spec fn spec_battery(self) -> Option<u8> {
        self.battery
    }

    pub fn new(temperature: u16, gravity: u16, battery: Option<u8>) -> (r: Self)
        ensures
            r.spec_temperature() == temperature,
            r.spec_gravity() == gravity,
            r.spec_battery() == battery,
    {
        Self { temperature, gravity, battery }
    }

    /// The temperature as its transmitted fixed-point integer.
    pub fn temperature(&self) -> (r: u16)
        ensures
            r == self.spec_temperature(),
    {
        self.temperature
    }

    /// The gravity as its transmitted fixed-point integer.
    pub fn gravity(&self) -> (r: u16)
        ensures
            r == self.spec_gravity(),
    {
        self.gravity
    }

    /// The number of weeks since the Tilt's battery was replaced, or
    /// `None` if the Tilt did not transmit it.
    pub fn battery(&self) -> (r: Option<u8>)
        ensures
            r == self.spec_battery(),
    {
        self.battery
    }

    /// The temperature as its exact decimal string. The Tilt transmits a
    /// scaled integer; rendering it digit by digit avoids any rounding.
    pub fn temperature_str(&self) -> (s: String)
        ensures
            s@ == fixed_point_chars(
                self.spec_temperature() as nat,
                TEMPERATURE_DECIMAL_PLACES as nat,
            ),
    {
        val_to_str(self.temperature, TEMPERATURE_DECIMAL_PLACES)
    }

    /// The gravity as its exact decimal string.
    pub fn gravity_str(&self) -> (s: String)
        ensures
            s@ == fixed_point_chars(self.spec_gravity() as nat, GRAVITY_DECIMAL_PLACES as nat),
    {
        val_to_str(self.gravity, GRAVITY_DECIMAL_PLACES)
    }
}

/// The larger of two optional battery ages, a missing value counting as
/// strictly less than any present one.
pub open spec fn opt_max(a: Option<u8>, b: Option<u8>) -> Option<u8> {
    match (a, b) {
        (Option::None, y) => y,
        (Option::Some(x), Option::None) => Option::Some(x),
        (Option::Some(x), Option::Some(y)) => if x >= y {
            Option::Some(x)
        } else {
            Option::Some(y)
        },
    }
}

/// Statistics accumulated over the readings of one scan window.
///
/// The running sums are wide enough that no realistic sample count can
/// overflow them: `wf` bounds each sum by the sample count times the
/// largest field value. A ghost record of the readings added so far
/// ties the sums to the fold [`stats_of`], so the aggregate is exactly
/// [`aggregate_of`] of what was added.
pub struct TiltStats {
    sum_temperature: u64,
    sum_gravity: u64,
    max_battery: Option<u8>,
    n_data: u32,
    readings: Ghost<Seq<TiltData>>,
}

impl Default for TiltStats {
    fn default() -> (r: Self)
        ensures
            r.is_empty(),
            r.wf(),
    {
        Self {
            sum_temperature: 0,
            sum_gravity: 0,
            max_battery: None,
            n_data: 0,
            readings: Ghost(Seq::empty()),
        }
    }
}

impl TiltStats {
    pub closed spec fn spec_sum_temperature(self) -> u64 {
        self.sum_temperature
    }

    pub closed spec fn spec_sum_gravity(self) -> u64 {
        self.sum_gravity
    }

    pub closed spec fn spec_max_battery(self) -> Option<u8> {
        self.max_battery
    }

    pub closed spec fn spec_n_data(self) -> u32 {
        self.n_data
    }

    /// The readings added so far, in arrival order.
    pub closed spec fn spec_readings(self) -> Seq<TiltData> {
        self.readings@
    }

    pub open spec fn wf(self) -> bool {
        &&& self.spec_sum_temperature() as int == stats_of(self.spec_readings()).0
        &&& self.spec_sum_gravity() as int == stats_of(self.spec_readings()).1
        &&& self.spec_max_battery() == stats_of(self.spec_readings()).2
        &&& self.spec_n_data() == self.spec_readings().len()
        &&& self.spec_sum_temperature() <= self.spec_n_data() as int * 65535
        &&& self.spec_sum_gravity() <= self.spec_n_data() as int * 65535
    }

    pub open spec fn is_empty(self) -> bool {
        &&& self.spec_sum_temperature() == 0
        &&& self.spec_sum_gravity() == 0
        &&& self.spec_max_battery() is None
        &&& self.spec_n_data() == 0
        &&& self.spec_readings() == Seq::<TiltData>::empty()
    }

    pub fn new() -> (r: Self)
        ensures
            r.is_empty(),
            r.wf(),
    {
        Self::default()
    }

    /// Adds `data` so that it will be included in the aggregate value.
    pub fn add(&mut self, data: TiltData)
        requires
            old(self).wf(),
            old(self).spec_n_data() < u32::MAX,
        ensures
            final(self).wf(),
            final(self).spec_readings() == old(self).spec_readings().push(data),
            final(self).spec_sum_temperature() == old(self).spec_sum_temperature()
                + data.spec_temperature(),
            final(self).spec_sum_gravity() == old(self).spec_sum_gravity() + data.spec_gravity(),
            final(self).spec_max_battery() == opt_max(
                old(self).spec_max_battery(),
                data.spec_battery(),
            ),
            final(self).spec_n_data() == old(self).spec_n_data() + 1,
    {
        proof {
            let n = old(self).spec_n_data() as int;
            assert((n + 1) * 65535 == n * 65535 + 65535) by (nonlinear_arith);
            assert((n + 1) * 65535 <= 0x1_0000_0000u64 * 65535) by (nonlinear_arith)
                requires
                    n + 1 <= 0x1_0000_0000,
            ;
            assert(old(self).spec_readings().push(data).drop_last() =~= old(
                self,
            ).spec_readings());
        }
        self.sum_temperature = self.sum_temperature + data.temperature as u64;
        self.sum_gravity = self.sum_gravity + data.gravity as u64;
        self.max_battery = match (self.max_battery, data.battery) {
            (None, y) => y,
            (Some(x), None) => Some(x),
            (Some(x), Some(y)) => if x >= y {
                Some(x)
            } else {
                Some(y)
            },
        };
        self.n_data = self.n_data + 1;
        proof {
            self.readings@ = old(self).spec_readings().push(data);
        }
    }

    /// The aggregate of all added readings: the integer-truncated mean of
    /// the temperatures and of the gravities, and the largest battery
    /// age. `None` if nothing was added. The result is exactly
    /// [`aggregate_of`] of the readings, so it depends only on their
    /// multiset ([`lemma_aggregate_permutation`]).
    pub fn aggregate(&self) -> (r: Option<TiltData>)
        requires
            self.wf(),
        ensures
            r is Some <==> self.spec_n_data() != 0,
            r matches Some(d) ==> {
                &&& d.spec_temperature() == self.spec_sum_temperature() as int
                    / self.spec_n_data() as int
                &&& d.spec_gravity() == self.spec_sum_gravity() as int / self.spec_n_data() as int
                &&& d.spec_battery() == self.spec_max_battery()
            },
            ({
                let agg = aggregate_of(self.spec_readings());
                match r {
                    Option::None => agg is None,
                    Option::Some(d) => agg == Option::Some(
                        (
                            d.spec_temperature() as int,
                            d.spec_gravity() as int,
                            d.spec_battery(),
                        ),
                    ),
                }
            }),
    {
        if self.n_data == 0 {
            return None;
        }
        proof {
            lemma_mean_fits_u16(self.spec_sum_temperature(), self.spec_n_data());
            lemma_mean_fits_u16(self.spec_sum_gravity(), self.spec_n_data());
        }
        let n = self.n_data as u64;
        Some(
            TiltData::new(
                (self.sum_temperature / n) as u16,
                (self.sum_gravity / n) as u16,
                self.max_battery,
            ),
        )
    }
}

/// Length of the BLE address in the packet: one address-type byte
/// followed by six address bytes.
pub const PACKET_ADDRESS_LENGTH: usize = 7;

/// Total length of a Tilt advertising packet.
pub const PACKET_LENGTH: usize = 45;

/// The fixed start of the Tilt's advertising packet, before the address:
/// event type, LE meta event, parameter length, advertising-report
/// subevent, report count, and the non-connectable undirected
/// advertising type.
pub open spec fn packet_pre_address() -> Seq<u8> {
    seq![0x04u8, 0x3Eu8, 0x2Au8, 0x02u8, 0x01u8, 0x03u8]
}

/// The fixed part of the packet after the address and before the sensor
/// data: report data length, flags, then the manufacturer-specific data
/// header with Apple's manufacturer ID and the iBeacon subtype and
/// length.
pub open spec fn packet_post_address() -> Seq<u8> {
    seq![0x1Eu8, 0x02u8, 0x01u8, 0x04u8, 0x1Au8, 0xFFu8, 0x4Cu8, 0x00u8, 0x02u8, 0x15u8]
}

/// Whether `b` is a well-formed Tilt advertising packet: long enough and
/// carrying both fixed preambles at their places.
pub open spec fn is_tilt_packet(b: Seq<u8>) -> bool {
    &&& b.len() >= PACKET_LENGTH
    &&& b.subrange(0, 6) == packet_pre_address()
    &&& b.subrange(13, 23) == packet_post_address()
}

/// The packet's embedded BLE address: the type byte and six address
/// bytes.
pub open spec fn packet_address(b: Seq<u8>) -> Seq<u8> {
    b.subrange(6, 13)
}

/// The big-endian major field, which the Tilt uses for the temperature.
pub open spec fn packet_temperature(b: Seq<u8>) -> u16 {
    (b[39] as int * 256 + b[40] as int) as u16
}

/// The big-endian minor field, which the Tilt uses for the gravity.
pub open spec fn packet_gravity(b: Seq<u8>) -> u16 {
    (b[41] as int * 256 + b[42] as int) as u16
}

/// The measured-power byte, whose sign the Tilt overloads: a
/// non-negative value is the battery age in weeks, a negative value
/// means no battery data.
pub open spec fn packet_battery(b: Seq<u8>) -> Option<u8> {
    if b[43] < 128 {
        Option::Some(b[43])
    } else {
        Option::None
    }
}

/// A parsed Tilt advertising packet: the beacon's address and its
/// decoded reading.
pub struct TiltPacket {
    address: [u8; 7],
    data: TiltData,
}

impl TiltPacket {
    pub closed spec fn spec_address(self) -> Seq<u8> {
        self.address@
    }

    pub closed spec fn spec_data(self) -> TiltData {
        self.data
    }

    /// Attempts to parse `buffer` as a Tilt advertising packet. Returns
    /// the parsed packet exactly when the buffer is well formed; a
    /// malformed or foreign advertisement yields `None`, never an error.
    pub fn try_parse(buffer: &[u8]) -> (r: Option<TiltPacket>)
        ensures
            r is Some <==> is_tilt_packet(buffer@),
            r matches Some(p) ==> {
                &&& p.spec_address() == packet_address(buffer@)
                &&& p.spec_data().spec_temperature() == packet_temperature(buffer@)
                &&& p.spec_data().spec_gravity() == packet_gravity(buffer@)
                &&& p.spec_data().spec_battery() == packet_battery(buffer@)
            },
    {
        if buffer.len() < PACKET_LENGTH {
            return None;
        }
        if buffer[0] != 0x04 || buffer[1] != 0x3E || buffer[2] != 0x2A || buffer[3] != 0x02
            || buffer[4] != 0x01 || buffer[5] != 0x03 {
            return None;
        }
        if buffer[13] != 0x1E || buffer[14] != 0x02 || buffer[15] != 0x01 || buffer[16] != 0x04
            || buffer[17] != 0x1A || buffer[18] != 0xFF || buffer[19] != 0x4C || buffer[20] != 0x00
            || buffer[21] != 0x02 || buffer[22] != 0x15 {
            return None;
        }
        proof {
            assert(buffer@.subrange(0, 6) =~= packet_pre_address());
            assert(buffer@.subrange(13, 23) =~= packet_post_address());
        }
        let address: [u8; 7] = [
            buffer[6],
            buffer[7],
            buffer[8],
            buffer[9],
            buffer[10],
            buffer[11],
            buffer[12],
        ];
        proof {
            assert(address@ =~= packet_address(buffer@));
        }
        let major = buffer[39] as u16 * 256 + buffer[40] as u16;
        let minor = buffer[41] as u16 * 256 + buffer[42] as u16;
        let power = buffer[43];
        let battery = if power < 128 {
            Some(power)
        } else {
            None
        };
        Some(Self { address, data: TiltData::new(major, minor, battery) })
    }

    /// The BLE address of the Tilt, including the address-type prefix
    /// byte.
    pub fn address(&self) -> (r: &[u8; 7])
        ensures
            r@ == self.spec_address(),
    {
        &self.address
    }

    /// The parsed reading.
    pub fn data(&self) -> (r: TiltData)
        ensures
            r == self.spec_data(),
    {
        self.data
    }
}

/// The numeric value of one digit character.
pub open spec fn char_digit(c: char) -> nat {
    if c == '0' {
        0
    } else if c == '1' {
        1
    } else if c == '2' {
        2
    } else if c == '3' {
        3
    } else if c == '4' {
        4
    } else if c == '5' {
        5
    } else if c == '6' {
        6
    } else if c == '7' {
        7
    } else if c == '8' {
        8
    } else {
        9
    }
}

/// The integer that a sequence of digit characters denotes.
pub open spec fn digits_value(s: Seq<char>) -> nat
    decreases s.len(),
{
    if s.len() == 0 {
        0
    } else {
        digits_value(s.drop_last()) * 10 + char_digit(s.last())
    }
}

pub proof fn lemma_pow10_pos(e: nat)
    ensures
        pow10(e) >= 1,
    decreases e,
{
    if e > 0 {
        lemma_pow10_pos((e - 1) as nat);
    }
}

pub proof fn lemma_padded_chars_len(n: nat, w: nat)
    ensures
        padded_chars(n, w).len() == w,
    decreases w,
{
    if w > 0 {
        lemma_padded_chars_len(n / 10, (w - 1) as nat);
    }
}

proof fn lemma_char_digit_inverse(d: nat)
    requires
        d < 10,
    ensures
        char_digit(digit_char(d)) == d,
{
    if d == 0 {
        assert(char_digit('0') == 0);
    } else if d == 1 {
        assert(char_digit('1') == 1);
    } else if d == 2 {
        assert(char_digit('2') == 2);
    } else if d == 3 {
        assert(char_digit('3') == 3);
    } else if d == 4 {
        assert(char_digit('4') == 4);
    } else if d == 5 {
        assert(char_digit('5') == 5);
    } else if d == 6 {
        assert(char_digit('6') == 6);
    } else if d == 7 {
        assert(char_digit('7') == 7);
    } else if d == 8 {
        assert(char_digit('8') == 8);
    } else {
        assert(char_digit('9') == 9);
    }
}

/// Reading the plain digit rendering back gives the value.
pub proof fn lemma_dec_chars_value(n: nat)
    ensures
        digits_value(dec_chars(n)) == n,
    decreases n,
{
    if n < 10 {
        lemma_char_digit_inverse(n);
        assert(digits_value(Seq::<char>::empty()) == 0);
        assert(seq![digit_char(n)].drop_last() =~= Seq::<char>::empty());
        assert(seq![digit_char(n)].last() == digit_char(n));
    } else {
        lemma_dec_chars_value(n / 10);
        lemma_char_digit_inverse(n % 10);
        let s = dec_chars(n / 10).push(digit_char(n % 10));
        assert(s.drop_last() =~= dec_chars(n / 10));
        vstd::arithmetic::div_mod::lemma_fundamental_div_mod(n as int, 10);
    }
}

/// Reading the zero-padded rendering back gives the value modulo the
/// padding's power of ten.
pub proof fn lemma_padded_chars_value(n: nat, w: nat)
    ensures
        digits_value(padded_chars(n, w)) == n % pow10(w),
    decreases w,
{
    if w == 0 {
        assert(n % 1 == 0) by (nonlinear_arith);
    } else {
        lemma_padded_chars_value(n / 10, (w - 1) as nat);
        let s = padded_chars(n / 10, (w - 1) as nat).push(digit_char(n % 10));
        assert(s.drop_last() =~= padded_chars(n / 10, (w - 1) as nat));
        lemma_pow10_pos((w - 1) as nat);
        vstd::arithmetic::div_mod::lemma_mod_breakdown(n as int, 10, pow10((w - 1) as nat) as int);
    }
}

/// Fixed-point rendering is a total, exact inverse of the encoding:
/// for every value and decimal-place count, the rendered string has
/// exactly `places` digits after the point, at least one before it,
/// and reading the two digit groups back recovers the value exactly.
pub proof fn lemma_fixed_point_round_trip(val: nat, places: nat)
    ensures
        ({
            let s = fixed_point_chars(val, places);
            let point = dec_chars(val / pow10(places)).len() as int;
            &&& point >= 1
            &&& s.len() == point + 1 + places
            &&& s[point] == '.'
            &&& digits_value(s.take(point)) * pow10(places) + digits_value(s.skip(point + 1))
                == val
        }),
{
    let s = fixed_point_chars(val, places);
    let ip = dec_chars(val / pow10(places));
    let point = ip.len() as int;
    lemma_pow10_pos(places);
    lemma_padded_chars_len(val, places);
    lemma_dec_chars_value(val / pow10(places));
    lemma_padded_chars_value(val, places);
    assert(s.take(point) =~= ip);
    assert(s.skip(point + 1) =~= padded_chars(val, places));
    assert(s[point] == '.');
    vstd::arithmetic::div_mod::lemma_fundamental_div_mod(val as int, pow10(places) as int);
    assert((val / pow10(places)) * pow10(places) == pow10(places) * (val / pow10(places)))
        by (nonlinear_arith);
}

/// The running totals that a sequence of readings folds to: the sums
/// of the temperatures and of the gravities, and the largest battery
/// age.
pub open spec fn stats_of(s: Seq<TiltData>) -> (int, int, Option<u8>)
    decreases s.len(),
{
    if s.len() == 0 {
        (0, 0, Option::None)
    } else {
        let r = stats_of(s.drop_last());
        (
            r.0 + s.last().spec_temperature(),
            r.1 + s.last().spec_gravity(),
            opt_max(r.2, s.last().spec_battery()),
        )
    }
}

/// One reading folded into running totals.
pub open spec fn stats_step(r: (int, int, Option<u8>), d: TiltData) -> (int, int, Option<u8>) {
    (r.0 + d.spec_temperature(), r.1 + d.spec_gravity(), opt_max(r.2, d.spec_battery()))
}

proof fn lemma_stats_remove(s: Seq<TiltData>, i: int)
    requires
        0 <= i < s.len(),
    ensures
        stats_of(s) == stats_step(stats_of(s.remove(i)), s[i]),
    decreases s.len(),
{
    if i == s.len() - 1 {
        assert(s.remove(i) =~= s.drop_last());
    } else {
        lemma_stats_remove(s.drop_last(), i);
        assert(s.remove(i).drop_last() =~= s.drop_last().remove(i));
        assert(s.remove(i).last() == s.last());
        assert(stats_of(s.remove(i)) == stats_step(stats_of(s.drop_last().remove(i)), s.last()));
        let m = stats_of(s.drop_last().remove(i));
        assert(stats_step(stats_step(m, s[i]), s.last()) == stats_step(
            stats_step(m, s.last()),
            s[i],
        ));
    }
}

/// Aggregation is order-insensitive: two sequences of readings with
/// the same multiset fold to the same totals, so the aggregate depends
/// only on which readings were added, not on the order they arrived
/// in.
pub proof fn lemma_stats_permutation(s1: Seq<TiltData>, s2: Seq<TiltData>)
    requires
        s1.to_multiset() == s2.to_multiset(),
    ensures
        s1.len() == s2.len(),
        stats_of(s1) == stats_of(s2),
    decreases s1.len(),
{
    s1.to_multiset_ensures();
    s2.to_multiset_ensures();
    if s1.len() == 0 {
        assert(s2.len() == 0);
    } else {
        let x = s1.last();
        assert(s1.contains(x));
        assert(s2.to_multiset().count(x) > 0);
        assert(s2.contains(x));
        let i = choose|i: int| 0 <= i < s2.len() && s2[i] == x;
        let s1p = s1.drop_last();
        let s2p = s2.remove(i);
        assert(s1.remove(s1.len() - 1) =~= s1p);
        assert(s1p.to_multiset() =~= s1.to_multiset().remove(x));
        assert(s2p.to_multiset() =~= s2.to_multiset().remove(x));
        lemma_stats_permutation(s1p, s2p);
        lemma_stats_remove(s2, i);
        assert(stats_of(s1) == stats_step(stats_of(s1p), x));
    }
}

/// The aggregate that a sequence of readings leads to: `None` for no
/// readings, else the truncated means and the largest battery age.
pub open spec fn aggregate_of(s: Seq<TiltData>) -> Option<(int, int, Option<u8>)> {
    if s.len() == 0 {
        Option::None
    } else {
        let r = stats_of(s);
        Option::Some((r.0 / s.len() as int, r.1 / s.len() as int, r.2))
    }
}

/// The aggregated reading is invariant under reordering the inputs.
pub proof fn lemma_aggregate_permutation(s1: Seq<TiltData>, s2: Seq<TiltData>)
    requires
        s1.to_multiset() == s2.to_multiset(),
    ensures
        aggregate_of(s1) == aggregate_of(s2),
{
    lemma_stats_permutation(s1, s2);
}

proof fn lemma_mean_fits_u16(sum: u64, n: u32)
    requires
        n > 0,
        sum <= n as int * 65535,
    ensures
        sum as int / n as int <= 65535,
{
    vstd::arithmetic::div_mod::lemma_div_is_ordered(sum as int, n as int * 65535, n as int);
    vstd::arithmetic::div_mod::lemma_div_multiples_vanish(65535, n as int);
}

} // verus!
