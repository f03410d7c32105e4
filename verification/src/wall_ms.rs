use vstd::prelude::*;

use crate::errors::Error;
use crate::source::{ClockSource, TimeOrder, TimePoint, NANOS_PER_SEC};
use crate::timestamp::{ts_lt, Timestamp};

verus! {

/// Ticks per second of the wall-clock representation: 2^16.
pub const TICKS_PER_SEC: u64 = 65536;

/// The fixed epoch of the wall-clock representation, as seconds since the
/// Unix epoch: 2020-02-20T00:00:00Z.
pub const EPOCH_2020: u64 = 1582156800;

/// A clock source reading the system wall clock in 2^-16 second ticks.
#[derive(Debug, Clone, Copy, PartialEq, Eq, PartialOrd, Ord, Structural)]
pub struct WallMS;

/// Fixed-point wall-clock time: whole seconds since the 2020 epoch and a
/// sub-second fraction in 2^-16 second ticks. Ordered numerically as the
/// 48-bit quantity (seconds, fraction).
#[derive(Debug, Clone, Copy, PartialEq, Eq, PartialOrd, Ord, Hash, Structural)]
pub struct WallMST(pub u32, pub u16);

/// The value of a wall-clock time as whole ticks since the Unix epoch.
pub open spec fn wall_ticks(w: WallMST) -> int {
    (w.0 + EPOCH_2020) * TICKS_PER_SEC + w.1
}

impl WallMST {
    /// The number of ticks since the Unix epoch.
    pub fn as_u64(self) -> (r: u64)
        ensures
            r == wall_ticks(self),
    {
        (self.0 as u64 + EPOCH_2020) * TICKS_PER_SEC + self.1 as u64
    }

    /// Builds a wall-clock time from a number of ticks since the Unix epoch.
    /// A value before the 2020 epoch clamps the seconds to zero; seconds
    /// beyond the 32-bit range are truncated.
    pub fn of_u64(val: u64) -> (r: WallMST)
        ensures
            r.1 == val % TICKS_PER_SEC,
            r.0 == (if val / TICKS_PER_SEC >= EPOCH_2020 {
                (val / TICKS_PER_SEC - EPOCH_2020) as u32
            } else {
                0u32
            }),
    {
        let secs_since_unix: u64 = val >> 16;
        let secs: u32 = if secs_since_unix >= EPOCH_2020 {
            #[verifier::truncate] ((secs_since_unix - EPOCH_2020) as u32)
        } else {
            0
        };
        let minor_ticks: u16 = (val % TICKS_PER_SEC) as u16;
        proof {
            assert(val >> 16 == val / 65536) by (bit_vector);
        }
        WallMST(secs, minor_ticks)
    }
}

impl TimePoint for WallMST {
    type Delta = u64;

    open spec fn le(self, other: Self) -> bool {
        self.0 < other.0 || (self.0 == other.0 && self.1 <= other.1)
    }

    open spec fn delta_le(a: u64, b: u64) -> bool {
        a <= b
    }

    open spec fn delta(self, earlier: Self) -> u64 {
        (wall_ticks(self) - wall_ticks(earlier)) as u64
    }

    proof fn reflexive(x: Self) {
    }

    proof fn transitive(x: Self, y: Self, z: Self) {
    }

    proof fn antisymmetric(x: Self, y: Self) {
    }

    proof fn total(x: Self, y: Self) {
    }

    fn compare(&self, other: &Self) -> (c: TimeOrder) {
        if self.0 < other.0 {
            TimeOrder::Before
        } else if self.0 == other.0 {
            if self.1 < other.1 {
                TimeOrder::Before
            } else if self.1 == other.1 {
                TimeOrder::Same
            } else {
                TimeOrder::After
            }
        } else {
            TimeOrder::After
        }
    }

    fn delta_exec(self, earlier: Self) -> (d: u64) {
        proof {
            lemma_wall_ticks_monotone(earlier, self);
        }
        self.as_u64() - earlier.as_u64()
    }

    fn delta_le_exec(a: u64, b: u64) -> (r: bool) {
        a <= b
    }
}

/// The 8-byte big-endian encoding of a wall-clock timestamp:
/// `[seconds:4][fraction:2][counter:2]`.
pub open spec fn encoded(ts: Timestamp<WallMST>) -> Seq<u8> {
    seq![
        ((ts.time.0 >> 24) & 0xff) as u8,
        ((ts.time.0 >> 16) & 0xff) as u8,
        ((ts.time.0 >> 8) & 0xff) as u8,
        (ts.time.0 & 0xff) as u8,
        ((ts.time.1 >> 8) & 0xff) as u8,
        (ts.time.1 & 0xff) as u8,
        ((ts.count >> 8) & 0xff) as u8,
        (ts.count & 0xff) as u8,
    ]
}

/// The timestamp read back from an 8-byte encoding.
pub open spec fn decoded(b: Seq<u8>) -> Timestamp<WallMST>
    recommends
        b.len() == 8,
{
    Timestamp {
        time: WallMST(
            ((b[0] as u32) << 24) | ((b[1] as u32) << 16) | ((b[2] as u32) << 8) | (b[3] as u32),
            ((b[4] as u16) << 8) | (b[5] as u16),
        ),
        count: ((b[6] as u16) << 8) | (b[7] as u16),
    }
}

/// Byte-wise comparison of two 8-byte strings, most significant byte first:
/// the first differing position decides.
pub open spec fn bytes_lt(a: Seq<u8>, b: Seq<u8>) -> bool
    recommends
        a.len() == 8,
        b.len() == 8,
{
    if a[0] != b[0] {
        a[0] < b[0]
    } else if a[1] != b[1] {
        a[1] < b[1]
    } else if a[2] != b[2] {
        a[2] < b[2]
    } else if a[3] != b[3] {
        a[3] < b[3]
    } else if a[4] != b[4] {
        a[4] < b[4]
    } else if a[5] != b[5] {
        a[5] < b[5]
    } else if a[6] != b[6] {
        a[6] < b[6]
    } else {
        a[7] < b[7]
    }
}

impl Timestamp<WallMST> {
    /// Serializes to the fixed 8-byte big-endian wire form.
    pub fn to_bytes(&self) -> (r: [u8; 8])
        ensures
            r@ == encoded(*self),
    {
        let s: u32 = self.time.0;
        let f: u16 = self.time.1;
        let c: u16 = self.count;
        let r: [u8; 8] = [
            ((s >> 24) & 0xff) as u8,
            ((s >> 16) & 0xff) as u8,
            ((s >> 8) & 0xff) as u8,
            (s & 0xff) as u8,
            ((f >> 8) & 0xff) as u8,
            (f & 0xff) as u8,
            ((c >> 8) & 0xff) as u8,
            (c & 0xff) as u8,
        ];
        proof {
            assert(r@ =~= encoded(*self));
        }
        r
    }

    /// Reads a timestamp back from its 8-byte wire form.
    pub fn from_bytes(bytes: [u8; 8]) -> (r: Self)
        ensures
            r == decoded(bytes@),
    {
        let secs: u32 = ((bytes[0] as u32) << 24) | ((bytes[1] as u32) << 16) | ((bytes[2]
            as u32) << 8) | (bytes[3] as u32);
        let fraction: u16 = ((bytes[4] as u16) << 8) | (bytes[5] as u16);
        let count: u16 = ((bytes[6] as u16) << 8) | (bytes[7] as u16);
        Timestamp { time: WallMST(secs, fraction), count }
    }
}

/// Decoding the encoding of any representable timestamp reproduces it
/// exactly.
pub proof fn lemma_codec_round_trips(ts: Timestamp<WallMST>)
    ensures
        decoded(encoded(ts)) == ts,
{
    let s = ts.time.0;
    let f = ts.time.1;
    let c = ts.count;
    assert(((((s >> 24) & 0xff) as u8 as u32) << 24) | ((((s >> 16) & 0xff) as u8 as u32) << 16)
        | ((((s >> 8) & 0xff) as u8 as u32) << 8) | ((s & 0xff) as u8 as u32) == s)
        by (bit_vector);
    assert(((((f >> 8) & 0xff) as u8 as u16) << 8) | ((f & 0xff) as u8 as u16) == f)
        by (bit_vector);
    assert(((((c >> 8) & 0xff) as u8 as u16) << 8) | ((c & 0xff) as u8 as u16) == c)
        by (bit_vector);
}

/// The wire form sorts exactly as the timestamps do: byte-wise comparison of
/// two encodings agrees with the timestamp order.
pub proof fn lemma_encoding_preserves_order(a: Timestamp<WallMST>, b: Timestamp<WallMST>)
    ensures
        ts_lt(a, b) <==> bytes_lt(encoded(a), encoded(b)),
{
    let s1 = a.time.0;
    let s2 = b.time.0;
    let f1 = a.time.1;
    let f2 = b.time.1;
    let c1 = a.count;
    let c2 = b.count;
    assert((s1 < s2) <==> {
        if ((s1 >> 24) & 0xff) as u8 != ((s2 >> 24) & 0xff) as u8 {
            (((s1 >> 24) & 0xff) as u8) < (((s2 >> 24) & 0xff) as u8)
        } else if ((s1 >> 16) & 0xff) as u8 != ((s2 >> 16) & 0xff) as u8 {
            (((s1 >> 16) & 0xff) as u8) < (((s2 >> 16) & 0xff) as u8)
        } else if ((s1 >> 8) & 0xff) as u8 != ((s2 >> 8) & 0xff) as u8 {
            (((s1 >> 8) & 0xff) as u8) < (((s2 >> 8) & 0xff) as u8)
        } else {
            ((s1 & 0xff) as u8) < ((s2 & 0xff) as u8)
        }
    }) by (bit_vector);
    assert((s1 == s2) <==> (((s1 >> 24) & 0xff) as u8 == ((s2 >> 24) & 0xff) as u8 && ((s1 >> 16)
        & 0xff) as u8 == ((s2 >> 16) & 0xff) as u8 && ((s1 >> 8) & 0xff) as u8 == ((s2 >> 8)
        & 0xff) as u8 && (s1 & 0xff) as u8 == (s2 & 0xff) as u8)) by (bit_vector);
    assert((f1 < f2) <==> {
        if ((f1 >> 8) & 0xff) as u8 != ((f2 >> 8) & 0xff) as u8 {
            (((f1 >> 8) & 0xff) as u8) < (((f2 >> 8) & 0xff) as u8)
        } else {
            ((f1 & 0xff) as u8) < ((f2 & 0xff) as u8)
        }
    }) by (bit_vector);
    assert((f1 == f2) <==> (((f1 >> 8) & 0xff) as u8 == ((f2 >> 8) & 0xff) as u8 && (f1 & 0xff)
        as u8 == (f2 & 0xff) as u8)) by (bit_vector);
    assert((c1 < c2) <==> {
        if ((c1 >> 8) & 0xff) as u8 != ((c2 >> 8) & 0xff) as u8 {
            (((c1 >> 8) & 0xff) as u8) < (((c2 >> 8) & 0xff) as u8)
        } else {
            ((c1 & 0xff) as u8) < ((c2 & 0xff) as u8)
        }
    }) by (bit_vector);
    assert((c1 == c2) <==> (((c1 >> 8) & 0xff) as u8 == ((c2 >> 8) & 0xff) as u8 && (c1 & 0xff)
        as u8 == (c2 & 0xff) as u8)) by (bit_vector);
}

#[verifier::external_type_specification]
#[verifier::external_body]
pub struct ExSystemTime(std::time::SystemTime);

/// Relies on std::time::Duration::new: builds the duration of `secs` whole
/// seconds plus `nanos` nanoseconds; with `nanos` below one second no carry
/// occurs, so the call cannot panic.
#[verifier::external_body]
fn duration_new(secs: u64, nanos: u32) -> std::time::Duration
    requires
        nanos < NANOS_PER_SEC,
{
    std::time::Duration::new(secs, nanos)
}

/// Relies on std::time::Duration::as_secs: the whole-seconds part of the
/// duration.
#[verifier::external_body]
fn duration_secs(d: &std::time::Duration) -> u64 {
    d.as_secs()
}

/// Relies on std::time::Duration::subsec_nanos, documented to return the
/// fractional part only, strictly below one second's worth of nanoseconds.
#[verifier::external_body]
fn duration_subsec_nanos(d: &std::time::Duration) -> (n: u32)
    ensures
        n < NANOS_PER_SEC,
{
    d.subsec_nanos()
}

/// Relies on std::time::Duration::from_nanos.
#[verifier::external_body]
fn duration_from_nanos(nanos: u64) -> std::time::Duration {
    std::time::Duration::from_nanos(nanos)
}

/// Relies on std::time::SystemTime::now; nothing is assumed of the reading.
#[verifier::external_body]
fn system_time_now() -> std::time::SystemTime {
    std::time::SystemTime::now()
}

/// Relies on std::time::SystemTime::duration_since measured from the Unix
/// epoch: `None` exactly when the time lies before that epoch.
#[verifier::external_body]
fn duration_since_unix_epoch(t: &std::time::SystemTime) -> Option<std::time::Duration> {
    match t.duration_since(std::time::SystemTime::UNIX_EPOCH) {
        Ok(d) => Some(d),
        Err(_) => None,
    }
}

/// Relies on std::time::SystemTime::checked_add applied to the Unix epoch:
/// `None` only when the sum cannot be represented.
#[verifier::external_body]
fn unix_epoch_plus(d: std::time::Duration) -> Option<std::time::SystemTime> {
    std::time::SystemTime::UNIX_EPOCH.checked_add(d)
}

/// Seconds since the Unix epoch of a wall-clock time.
pub open spec fn unix_secs(w: WallMST) -> int {
    w.0 + EPOCH_2020
}

/// Nanoseconds within the second of a wall-clock time, rounding the tick
/// value to the nearest nanosecond.
pub open spec fn unix_subsec_nanos(w: WallMST) -> int {
    (w.1 * NANOS_PER_SEC + TICKS_PER_SEC / 2) / (TICKS_PER_SEC as int)
}

/// Sub-second nanoseconds quantized to ticks, rounding to the nearest tick;
/// a value close to the next second rounds up to a full second of ticks.
pub open spec fn ticks_of_nanos(nanos: int) -> int {
    (nanos * TICKS_PER_SEC + NANOS_PER_SEC / 2) / (NANOS_PER_SEC as int)
}

/// The wall-clock time for a (seconds, sub-second nanoseconds) reading at
/// or after the 2020 epoch: the fraction is quantized to the nearest tick
/// with carry into the seconds, and the seconds are truncated beyond the
/// 32-bit range. Readings before the epoch never reach this: the
/// conversions reject them.
pub open spec fn wall_of_unix(secs: int, nanos: int) -> WallMST
    recommends
        secs >= EPOCH_2020,
{
    let t = ticks_of_nanos(nanos);
    WallMST(
        (((secs + t / (TICKS_PER_SEC as int)) - EPOCH_2020) % 0x1_0000_0000) as u32,
        (t % (TICKS_PER_SEC as int)) as u16,
    )
}

impl WallMST {
    /// The exact conversion core from a plain (seconds, nanoseconds) reading
    /// since the Unix epoch, at or after the 2020 epoch; `from_since_epoch`
    /// and the wall-clock source feed it what they read from the system
    /// clock, after rejecting earlier readings.
    pub fn from_unix_parts(secs: u64, nanos: u32) -> (r: WallMST)
        requires
            secs >= EPOCH_2020,
            nanos < NANOS_PER_SEC,
        ensures
            r == wall_of_unix(secs as int, nanos as int),
    {
        let t: u64 = (nanos as u64 * TICKS_PER_SEC + NANOS_PER_SEC / 2) / NANOS_PER_SEC;
        let carry: u64 = t / TICKS_PER_SEC;
        let frac: u16 = (t % TICKS_PER_SEC) as u16;
        proof {
            assert(t / 65536 <= 1 && t % 65536 < 65536) by (nonlinear_arith)
                requires
                    t == (nanos as u64 * 65536 + 500_000_000) / 1_000_000_000,
                    nanos < 1_000_000_000,
            ;
        }
        let base: u64 = (secs - EPOCH_2020) + carry;
        proof {
            assert(base as u32 == (base % 0x1_0000_0000) as u32) by (bit_vector);
            assert((secs - EPOCH_2020 + carry) % 0x1_0000_0000 == ((secs + carry) - EPOCH_2020)
                % 0x1_0000_0000);
        }
        let wall_secs: u32 = #[verifier::truncate] (base as u32);
        WallMST(wall_secs, frac)
    }

    /// The (seconds, sub-second nanoseconds) reading of this wall-clock
    /// time since the Unix epoch: exactly `unix_secs` and
    /// `unix_subsec_nanos`.
    pub fn unix_parts(self) -> (r: (u64, u32))
        ensures
            r.0 == unix_secs(self),
            r.1 == unix_subsec_nanos(self),
            r.1 < NANOS_PER_SEC,
    {
        let secs: u64 = self.0 as u64 + EPOCH_2020;
        let nanos64: u64 = (self.1 as u64 * NANOS_PER_SEC + TICKS_PER_SEC / 2) / TICKS_PER_SEC;
        proof {
            assert(nanos64 < 1_000_000_000) by (nonlinear_arith)
                requires
                    nanos64 == (self.1 as u64 * 1_000_000_000 + 32768) / 65536,
                    self.1 < 65536,
            ;
        }
        (secs, nanos64 as u32)
    }

    /// The `Duration` since the Unix epoch, carrying exactly this value's
    /// `unix_parts`; total for every representable value.
    pub fn duration_since_epoch(self) -> (r: Result<std::time::Duration, Error>)
        ensures
            r matches Ok(_),
    {
        let parts = self.unix_parts();
        Ok(duration_new(parts.0, parts.1))
    }

    /// A `SystemTime` carrying this wall-clock value.
    pub fn as_systemtime(self) -> (r: Result<std::time::SystemTime, Error>)
        ensures
            r matches Err(e) ==> e == Error::SourceReadFailure,
    {
        let d = match self.duration_since_epoch() {
            Ok(d) => d,
            Err(e) => {
                return Err(e);
            },
        };
        match unix_epoch_plus(d) {
            Some(t) => Ok(t),
            None => Err(Error::SourceReadFailure),
        }
    }

    /// The wall-clock value of a `SystemTime`; a time before the fixed 2020
    /// epoch fails, every successful result is an exact conversion of an
    /// in-range reading.
    pub fn from_timespec(t: std::time::SystemTime) -> (r: Result<WallMST, Error>)
        ensures
            (match r {
                Ok(w) => exists|secs: u64, nanos: u32|
                    secs >= EPOCH_2020 && nanos < NANOS_PER_SEC && w == wall_of_unix(
                        secs as int,
                        nanos as int,
                    ),
                Err(e) => e == Error::SourceReadFailure,
            }),
    {
        match duration_since_unix_epoch(&t) {
            Some(d) => Self::from_since_epoch(d),
            None => Err(Error::SourceReadFailure),
        }
    }

    /// The wall-clock value of a `Duration` since the Unix epoch; a reading
    /// whose seconds lie before the 2020 epoch fails, every other result is
    /// the exact conversion of the duration's parts.
    pub fn from_since_epoch(since_epoch: std::time::Duration) -> (r: Result<
        WallMST,
        Error,
    >)
        ensures
            (match r {
                Ok(w) => exists|secs: u64, nanos: u32|
                    secs >= EPOCH_2020 && nanos < NANOS_PER_SEC && w == wall_of_unix(
                        secs as int,
                        nanos as int,
                    ),
                Err(e) => e == Error::SourceReadFailure,
            }),
    {
        let secs = duration_secs(&since_epoch);
        if secs < EPOCH_2020 {
            return Err(Error::SourceReadFailure);
        }
        let nanos = duration_subsec_nanos(&since_epoch);
        Ok(Self::from_unix_parts(secs, nanos))
    }

    /// The nanoseconds the tick difference from `earlier` up to `self`
    /// represents, on the exact 2^16-ticks-per-second scale; the operands
    /// must be ordered.
    pub fn nanos_between(self, earlier: WallMST) -> (r: u64)
        requires
            earlier.le(self),
        ensures
            r == (wall_ticks(self) - wall_ticks(earlier)) * NANOS_PER_SEC / (TICKS_PER_SEC as int),
    {
        proof {
            lemma_wall_ticks_monotone(earlier, self);
            lemma_wall_ticks_bounds(self);
            lemma_wall_ticks_bounds(earlier);
        }
        let ticks: u64 = self.as_u64() - earlier.as_u64();
        let wide: u128 = (ticks as u128 * NANOS_PER_SEC as u128) / TICKS_PER_SEC as u128;
        proof {
            assert(wide <= u64::MAX) by (nonlinear_arith)
                requires
                    wide == (ticks as u128 * 1_000_000_000) / 65536,
                    ticks <= 385163204755455u64,
            ;
        }
        wide as u64
    }

    /// The duration from `earlier` up to `self`, carrying exactly
    /// `nanos_between` them; the operands must be ordered.
    pub fn elapsed_since(self, earlier: WallMST) -> (r: std::time::Duration)
        requires
            earlier.le(self),
    {
        duration_from_nanos(self.nanos_between(earlier))
    }
}

impl ClockSource for WallMS {
    type Time = WallMST;

    /// A read converts the system time exactly as `from_timespec` says: a
    /// time before the fixed epoch fails with `SourceReadFailure`, any
    /// success is the conversion of an in-range reading.
    open spec fn read_spec(pre: Self, post: Self, r: Result<WallMST, Error>) -> bool {
        match r {
            Ok(w) => exists|secs: u64, nanos: u32|
                secs >= EPOCH_2020 && nanos < NANOS_PER_SEC && w == wall_of_unix(
                    secs as int,
                    nanos as int,
                ),
            Err(e) => e == Error::SourceReadFailure,
        }
    }

    fn now(&mut self) -> (r: Result<WallMST, Error>) {
        WallMST::from_timespec(system_time_now())
    }
}

/// Converting a wall-clock value to its Unix reading and back reproduces it
/// exactly: the nearest-nanosecond reading of a tick re-quantizes to the
/// same tick, so wall-derived readings lose nothing.
pub proof fn lemma_unix_round_trip(w: WallMST)
    ensures
        wall_of_unix(unix_secs(w), unix_subsec_nanos(w)) == w,
{
    let f = w.1 as int;
    let big = f * 1_000_000_000 + 32768;
    let n = unix_subsec_nanos(w);
    vstd::arithmetic::div_mod::lemma_fundamental_div_mod(big, 65536);
    vstd::arithmetic::div_mod::lemma_mod_bound(big, 65536);
    let r0 = big % 65536;
    assert(n * 65536 == 65536 * n);
    let y = n * 65536 + 500_000_000;
    assert(y == f * 1_000_000_000 + (500_032_768 - r0));
    vstd::arithmetic::div_mod::lemma_fundamental_div_mod_converse(
        y,
        1_000_000_000,
        f,
        500_032_768 - r0,
    );
    let t = ticks_of_nanos(n);
    assert(t == f);
    vstd::arithmetic::div_mod::lemma_basic_div(t, 65536);
    vstd::arithmetic::div_mod::lemma_small_mod(w.1 as nat, 65536);
    vstd::arithmetic::div_mod::lemma_small_mod(w.0 as nat, 0x1_0000_0000);
}

/// Quantizing sub-second nanoseconds to ticks and reading the tick back as
/// nanoseconds moves the value by at most 7629 ns: half a tick, a tick being
/// 10^9 / 2^16 (about 15259) nanoseconds.
pub proof fn lemma_tick_quantization_error(nanos: int)
    requires
        0 <= nanos < NANOS_PER_SEC,
    ensures
        nanos - 7629 <= (ticks_of_nanos(nanos) * NANOS_PER_SEC + TICKS_PER_SEC / 2) / (
        TICKS_PER_SEC as int) <= nanos + 7629,
{
    let big = nanos * 65536 + 500_000_000;
    let t = ticks_of_nanos(nanos);
    vstd::arithmetic::div_mod::lemma_fundamental_div_mod(big, 1_000_000_000);
    vstd::arithmetic::div_mod::lemma_mod_bound(big, 1_000_000_000);
    let r1 = big % 1_000_000_000;
    let back_num = t * 1_000_000_000 + 32768;
    assert(back_num == nanos * 65536 + (500_032_768 - r1));
    // upper bound: the numerator is at most nanos * 65536 + 500_032_768
    vstd::arithmetic::div_mod::lemma_div_is_ordered(
        back_num,
        nanos * 65536 + 500_032_768,
        65536,
    );
    vstd::arithmetic::div_mod::lemma_fundamental_div_mod_converse(
        nanos * 65536 + 500_032_768,
        65536,
        nanos + 7629,
        58624,
    );
    // lower bound: the numerator is at least nanos * 65536 - 499_967_231
    vstd::arithmetic::div_mod::lemma_div_is_ordered(
        nanos * 65536 - 499_967_231,
        back_num,
        65536,
    );
    vstd::arithmetic::div_mod::lemma_fundamental_div_mod_converse(
        nanos * 65536 - 499_967_231,
        65536,
        nanos - 7629,
        6913,
    );
}

/// Reading a wall-clock value out as (seconds, nanoseconds) since the Unix
/// epoch preserves the wall-clock order exactly: the readings compare, field
/// by field, just as the values do.
pub proof fn lemma_unix_reading_preserves_order(a: WallMST, b: WallMST)
    ensures
        (a.le(b) && a != b) <==> (unix_secs(a) < unix_secs(b) || (unix_secs(a) == unix_secs(b)
            && unix_subsec_nanos(a) < unix_subsec_nanos(b))),
{
    if a.1 < b.1 {
        lemma_scaled_reading_strictly_monotone(a.1 as int, b.1 as int);
    }
    if b.1 < a.1 {
        lemma_scaled_reading_strictly_monotone(b.1 as int, a.1 as int);
    }
}

/// Scaling a larger tick fraction to nanoseconds gives a strictly larger
/// reading: the ticks are more than one nanosecond apart.
proof fn lemma_scaled_reading_strictly_monotone(x: int, y: int)
    requires
        0 <= x < y,
    ensures
        (x * 1_000_000_000 + 32768) / 65536 < (y * 1_000_000_000 + 32768) / 65536,
{
    let low = x * 1_000_000_000 + 32768;
    let high = y * 1_000_000_000 + 32768;
    assert(low + 15258 * 65536 <= high);
    vstd::arithmetic::div_mod::lemma_hoist_over_denominator(low, 15258, 65536);
    vstd::arithmetic::div_mod::lemma_div_is_ordered(low + 15258 * 65536, high, 65536);
}

/// Wall-clock timestamps minted later sort later in byte form too: a
/// timestamp strictly above the end of a run whose steps only grow — the
/// shape `now` and `observe` leave behind — encodes above every byte string
/// of the run, so stored encodings sort in issue order.
pub proof fn lemma_issue_order_in_bytes(run: Seq<Timestamp<WallMST>>, minted: Timestamp<WallMST>)
    requires
        forall|k: int| 0 <= k < run.len() - 1 ==> #[trigger] crate::timestamp::ts_le(
            run[k],
            run[k + 1],
        ),
        run.len() > 0,
        ts_lt(run[run.len() - 1], minted),
    ensures
        forall|k: int| 0 <= k < run.len() ==> bytes_lt(encoded(#[trigger] run[k]), encoded(minted)),
{
    crate::timestamp::lemma_minted_tops_run(run, minted);
    assert forall|k: int| 0 <= k < run.len() implies bytes_lt(
        encoded(#[trigger] run[k]),
        encoded(minted),
    ) by {
        lemma_encoding_preserves_order(run[k], minted);
    }
}

/// The tick count splits back into its seconds and fraction: `of_u64` undoes
/// `as_u64` for every representable wall-clock time.
pub proof fn lemma_ticks_round_trip(w: WallMST)
    ensures
        wall_ticks(w) % (TICKS_PER_SEC as int) == w.1,
        wall_ticks(w) / (TICKS_PER_SEC as int) == w.0 + EPOCH_2020,
{
    vstd::arithmetic::div_mod::lemma_fundamental_div_mod_converse(
        wall_ticks(w),
        65536,
        w.0 + EPOCH_2020,
        w.1 as int,
    );
}

/// Every representable wall-clock time has a nonnegative tick count below
/// 2^32 + 2020-epoch seconds' worth of ticks.
pub proof fn lemma_wall_ticks_bounds(w: WallMST)
    ensures
        0 <= wall_ticks(w) <= 385163204755455,
{
    assert(0 <= (w.0 + EPOCH_2020) * 65536 + w.1 <= 385163204755455) by (nonlinear_arith)
        requires
            w.0 <= 0xffff_ffffu64,
            w.1 < 65536,
    ;
}

/// The tick count respects the wall-clock order.
pub proof fn lemma_wall_ticks_monotone(a: WallMST, b: WallMST)
    requires
        a.le(b),
    ensures
        wall_ticks(a) <= wall_ticks(b),
{
    assert(wall_ticks(a) <= wall_ticks(b)) by (nonlinear_arith)
        requires
            a.0 < b.0 || (a.0 == b.0 && a.1 <= b.1),
            a.1 < 65536,
            wall_ticks(a) == (a.0 + EPOCH_2020) * 65536 + a.1,
            wall_ticks(b) == (b.0 + EPOCH_2020) * 65536 + b.1,
    ;
}

} // verus!
