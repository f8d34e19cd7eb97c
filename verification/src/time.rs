//! Time values as four bounded digits: how they are made from loose digits
//! and from clock readings, and how they are turned back into clock readings.

use vstd::prelude::*;
use crate::lisp::spec_fixnum_overflow;
use crate::lisp::{MOST_NEGATIVE_FIXNUM, MOST_POSITIVE_FIXNUM};

verus! {

/// Number of bits in the low-order seconds digit.
pub const LO_TIME_BITS: u32 = 16;

/// A reading of the clock: whole seconds and nanoseconds.
#[derive(Clone, Copy, Debug, PartialEq, Eq, Structural)]
pub struct Timespec {
    pub tv_sec: i64,
    pub tv_nsec: i64,
}

/// A point in time or a duration as a mixed-radix number: `hi * 65536 + lo`
/// seconds, `us` microseconds and `ps` picoseconds.
#[derive(Clone, Copy, Debug, PartialEq, Eq, Structural)]
pub struct LispTime {
    pub hi: i64,
    pub lo: i32,
    pub us: i32,
    pub ps: i32,
}

/// Why a time value could not be produced.
#[derive(Clone, Copy, Debug, PartialEq, Eq, Structural)]
pub enum TimeError {
    /// The input has the wrong shape, or a field of the wrong kind.
    TypeMismatch,
    /// The value is too large, either way, to be represented.
    OutOfRange,
    /// The high-order digit of an arithmetic result is no fixnum.
    Overflow,
}

/// The number of picoseconds that the four digits stand for, whatever their
/// ranges.
pub open spec fn spec_picos(hi: int, lo: int, us: int, ps: int) -> int {
    ((hi * 65536 + lo) * 1_000_000 + us) * 1_000_000 + ps
}

/// The high-order digit of `p` picoseconds.
pub open spec fn spec_hi_digit(p: int) -> int {
    p / 65_536_000_000_000_000
}

/// The low-order seconds digit of `p` picoseconds.
pub open spec fn spec_lo_digit(p: int) -> int {
    (p / 1_000_000_000_000) % 65536
}

/// The microsecond digit of `p` picoseconds.
pub open spec fn spec_us_digit(p: int) -> int {
    (p / 1_000_000) % 1_000_000
}

/// The picosecond digit of `p` picoseconds.
pub open spec fn spec_ps_digit(p: int) -> int {
    p % 1_000_000
}

/// The digits of `p` picoseconds. Its `hi` is the high-order digit only where
/// that is no more than 64 bits wide.
pub open spec fn spec_time_of_picos(p: int) -> LispTime {
    LispTime {
        hi: spec_hi_digit(p) as i64,
        lo: spec_lo_digit(p) as i32,
        us: spec_us_digit(p) as i32,
        ps: spec_ps_digit(p) as i32,
    }
}

/// The time value of `p` picoseconds, where its high-order digit is a fixnum.
pub open spec fn spec_from_picos(p: int) -> Result<LispTime, TimeError> {
    if spec_fixnum_overflow(spec_hi_digit(p)) {
        Err(TimeError::OutOfRange)
    } else {
        Ok(spec_time_of_picos(p))
    }
}

impl LispTime {
    /// Whether the three lower digits lie in their ranges.
    pub open spec fn normalized(self) -> bool {
        &&& 0 <= self.lo < 65536
        &&& 0 <= self.us < 1_000_000
        &&& 0 <= self.ps < 1_000_000
    }

    /// Whether this is a time value: the lower digits lie in their ranges and
    /// the high-order digit is a fixnum.
    pub open spec fn wf(self) -> bool {
        self.normalized() && !spec_fixnum_overflow(self.hi as int)
    }

    /// Whether this is a time value.
    pub fn is_wf(&self) -> (r: bool)
        ensures
            r == self.wf(),
    {
        0 <= self.lo && self.lo < 65536 && 0 <= self.us && self.us < 1_000_000 && 0 <= self.ps
            && self.ps < 1_000_000 && self.hi >= MOST_NEGATIVE_FIXNUM && self.hi
            <= MOST_POSITIVE_FIXNUM
    }

    /// The number of picoseconds that this value stands for.
    pub open spec fn picos(self) -> int {
        spec_picos(self.hi as int, self.lo as int, self.us as int, self.ps as int)
    }

    /// The time value of the digits `high`, `low`, `usec` and `psec`, each of
    /// which may lie outside its range: what exceeds a digit, or falls below
    /// zero, is carried into the next higher one.
    pub open spec fn spec_from_components(high: int, low: int, usec: int, psec: int) -> Result<
        LispTime,
        TimeError,
    > {
        spec_from_picos(spec_picos(high, low, usec, psec))
    }

    /// The time value of the digits `high`, `low`, `usec` and `psec`, each of
    /// which may lie outside its range. Fails where the high-order digit of
    /// the result is no fixnum.
    pub fn from_components(high: i64, low: i64, usec: i64, psec: i64) -> (r: Result<
        LispTime,
        TimeError,
    >)
        ensures
            r == Self::spec_from_components(high as int, low as int, usec as int, psec as int),
            r is Ok ==> r->Ok_0.wf() && r->Ok_0.picos() == spec_picos(
                high as int,
                low as int,
                usec as int,
                psec as int,
            ),
    {
        let (hi, lo, us, ps) = carry_components(high, low, usec, psec);
        if hi < MOST_NEGATIVE_FIXNUM as i128 || hi > MOST_POSITIVE_FIXNUM as i128 {
            return Err(TimeError::OutOfRange);
        }
        proof {
            lemma_time_of_picos(
                spec_picos(high as int, low as int, usec as int, psec as int),
            );
        }
        Ok(LispTime { hi: hi as i64, lo, us, ps })
    }
}

/// The digits of the number that `high`, `low`, `usec` and `psec` stand for:
/// what exceeds a lower digit, or falls below zero, is carried into the next
/// higher one, and each lower digit is then brought into its range.
pub fn carry_components(high: i64, low: i64, usec: i64, psec: i64) -> (r: (i128, i32, i32, i32))
    ensures
        ({
            let p = spec_picos(high as int, low as int, usec as int, psec as int);
            &&& r.0 == spec_hi_digit(p)
            &&& r.1 == spec_lo_digit(p)
            &&& r.2 == spec_us_digit(p)
            &&& r.3 == spec_ps_digit(p)
        }),
{
    let mut hi: i128 = high as i128;
    let mut lo: i128 = low as i128;
    let mut us: i128 = usec as i128;
    let mut ps: i128 = psec as i128;

    // Carry each lower digit into the next higher one, rounding the carry
    // toward minus infinity.
    if ps % 1_000_000 < 0 {
        us = us + (ps / 1_000_000 - 1);
    } else {
        us = us + ps / 1_000_000;
    }
    if us % 1_000_000 < 0 {
        lo = lo + (us / 1_000_000 - 1);
    } else {
        lo = lo + us / 1_000_000;
    }
    let carry: i128 = lo >> 16;
    assert(lo >> 16 == lo as int / 65536) by (bit_vector);
    hi = hi + carry;

    // Bring each lower digit into its range.
    if ps % 1_000_000 < 0 {
        ps = ps % 1_000_000 + 1_000_000;
    } else {
        ps = ps % 1_000_000;
    }
    if us % 1_000_000 < 0 {
        us = us % 1_000_000 + 1_000_000;
    } else {
        us = us % 1_000_000;
    }
    let masked: i128 = lo & 0xffff;
    assert(lo & 0xffff == lo as int % 65536) by (bit_vector);
    lo = masked;

    proof {
        lemma_carry_digits(high as int, low as int, usec as int, psec as int);
    }
    (hi, lo as i32, us as i32, ps as i32)
}

/// The digits of a sum of four digits are found by carrying upward, one digit
/// at a time.
pub proof fn lemma_carry_digits(high: int, low: int, usec: int, psec: int)
    ensures
        ({
            let p = spec_picos(high, low, usec, psec);
            let us = usec + psec / 1_000_000;
            let lo = low + us / 1_000_000;
            &&& spec_ps_digit(p) == psec % 1_000_000
            &&& spec_us_digit(p) == us % 1_000_000
            &&& spec_lo_digit(p) == lo % 65536
            &&& spec_hi_digit(p) == high + lo / 65536
        }),
{
    let p = spec_picos(high, low, usec, psec);
    let us = usec + psec / 1_000_000;
    let lo = low + us / 1_000_000;
    let secs = high * 65536 + low;
    assert(p == (secs * 1_000_000 + usec) * 1_000_000 + psec);
    assert(p / 1_000_000 == secs * 1_000_000 + us);
    assert(p / 1_000_000_000_000 == (p / 1_000_000) / 1_000_000);
    assert(p / 1_000_000_000_000 == high * 65536 + lo);
    assert(p / 65_536_000_000_000_000 == (p / 1_000_000_000_000) / 65536);
}

/// The digits of `p` picoseconds form a time value that stands for `p`, where
/// the high-order digit is a fixnum.
pub proof fn lemma_time_of_picos(p: int)
    requires
        !spec_fixnum_overflow(spec_hi_digit(p)),
    ensures
        spec_time_of_picos(p).wf(),
        spec_time_of_picos(p).picos() == p,
        spec_time_of_picos(p).hi == spec_hi_digit(p),
        spec_time_of_picos(p).lo == spec_lo_digit(p),
        spec_time_of_picos(p).us == spec_us_digit(p),
        spec_time_of_picos(p).ps == spec_ps_digit(p),
{
    let s = p / 1_000_000_000_000;
    let m = p / 1_000_000;
    assert(m / 1_000_000 == s);
    assert(s / 65536 == spec_hi_digit(p));
}

/// Two values with their lower digits in range that stand for the same number
/// of picoseconds are the same value.
pub proof fn lemma_picos_unique(a: LispTime, b: LispTime)
    requires
        a.normalized(),
        b.normalized(),
        a.picos() == b.picos(),
    ensures
        a == b,
{
    lemma_digits_of_normalized(a);
    lemma_digits_of_normalized(b);
}

/// A value with its lower digits in range holds the digits of the number of
/// picoseconds that it stands for.
pub proof fn lemma_digits_of_normalized(t: LispTime)
    requires
        t.normalized(),
    ensures
        spec_hi_digit(t.picos()) == t.hi,
        spec_lo_digit(t.picos()) == t.lo,
        spec_us_digit(t.picos()) == t.us,
        spec_ps_digit(t.picos()) == t.ps,
        spec_time_of_picos(t.picos()) == t,
{
    lemma_carry_digits(t.hi as int, t.lo as int, t.us as int, t.ps as int);
}

/// The upper part of the seconds count `t`: everything but the bottom 16 bits.
pub fn hi_time(t: i64) -> (hi: i64)
    ensures
        hi == t as int / 65536,
        !spec_fixnum_overflow(hi as int),
{
    let hi: i64 = t >> 16;
    assert(t >> 16 == t as int / 65536) by (bit_vector);
    hi
}

/// The bottom 16 bits of the seconds count `t`.
pub fn lo_time(t: i64) -> (lo: i32)
    ensures
        lo == t as int % 65536,
{
    let lo: i64 = t & 0xffff;
    assert(t & 0xffff == t as int % 65536) by (bit_vector);
    lo as i32
}

impl Timespec {
    /// The number of picoseconds that this reading stands for.
    pub open spec fn picos(self) -> int {
        self.tv_sec * 1_000_000_000_000 + self.tv_nsec * 1000
    }

    /// Whether the nanoseconds are less than a second and not negative.
    pub open spec fn valid(self) -> bool {
        0 <= self.tv_nsec < 1_000_000_000
    }
}

/// The reading that stands for an invalid time: its nanoseconds are negative.
pub open spec fn spec_invalid_timespec() -> Timespec {
    Timespec { tv_sec: 0, tv_nsec: -1i64 }
}

/// A time value as a clock reading. What the picosecond digit holds below a
/// nanosecond is dropped. A value from before the epoch, or whose seconds do
/// not fit in 64 bits, gives the invalid reading.
pub open spec fn spec_lisp_to_timespec(t: LispTime) -> Timespec {
    if t.hi < 0 || t.hi > 0x7fff_ffff_ffff {
        spec_invalid_timespec()
    } else {
        Timespec {
            tv_sec: (t.hi * 65536 + t.lo) as i64,
            tv_nsec: (t.us * 1000 + t.ps / 1000) as i64,
        }
    }
}

impl LispTime {
    /// The time value of a clock reading.
    pub open spec fn spec_from_timespec(ts: Timespec) -> LispTime {
        spec_time_of_picos(ts.picos())
    }

    /// The time value of the clock reading `ts`. With nanoseconds in their
    /// range its digits are the two halves of the seconds, the nanoseconds
    /// divided by 1000, and 1000 times what that division leaves.
    pub fn from_timespec(ts: Timespec) -> (r: LispTime)
        ensures
            r == Self::spec_from_timespec(ts),
            r.wf(),
            r.picos() == ts.picos(),
            ts.valid() ==> r.hi == ts.tv_sec as int / 65536 && r.lo == ts.tv_sec as int % 65536
                && r.us == ts.tv_nsec as int / 1000 && r.ps == (ts.tv_nsec as int % 1000) * 1000,
    {
        let hi = hi_time(ts.tv_sec);
        let lo = lo_time(ts.tv_sec);
        let us: i64 = ts.tv_nsec / 1000;
        let ps: i64 = ts.tv_nsec % 1000 * 1000;
        proof {
            assert(spec_picos(hi as int, lo as int, us as int, ps as int) == ts.picos());
            assert(ts.picos() / 1_000_000_000_000 / 65536 == spec_hi_digit(ts.picos()));
            if ts.valid() {
                lemma_digits_of_normalized(
                    LispTime { hi, lo, us: us as i32, ps: ps as i32 },
                );
            }
        }
        let r = Self::from_components(hi, lo as i64, us, ps);
        r.unwrap()
    }
}

/// The time value `t` as a clock reading. What the picosecond digit holds
/// below a nanosecond is dropped. A value from before the epoch, or whose
/// seconds do not fit in 64 bits, gives the invalid reading, whose
/// nanoseconds are -1.
pub fn lisp_to_timespec(t: LispTime) -> (r: Timespec)
    requires
        t.wf(),
    ensures
        r == spec_lisp_to_timespec(t),
        r != spec_invalid_timespec() ==> r.valid() && r.picos() == t.picos() - t.ps % 1000,
{
    if t.hi < 0 || t.hi > 0x7fff_ffff_ffff {
        return Timespec { tv_sec: 0, tv_nsec: -1 };
    }
    let hi: i64 = t.hi;
    let shifted: i64 = hi << 16;
    assert(hi << 16 == hi * 65536) by (bit_vector)
        requires
            0 <= hi <= 0x7fff_ffff_ffff,
    ;
    let s: i64 = shifted + t.lo as i64;
    let ns: i32 = t.us * 1000 + t.ps / 1000;
    Timespec { tv_sec: s, tv_nsec: ns as i64 }
}

/// A clock reading from the epoch on, made into a time value and back, is
/// unchanged.
pub proof fn lemma_timespec_round_trip(ts: Timespec)
    requires
        ts.valid(),
        ts.tv_sec >= 0,
    ensures
        LispTime::spec_from_timespec(ts).wf(),
        spec_lisp_to_timespec(LispTime::spec_from_timespec(ts)) == ts,
{
    let p = ts.picos();
    assert(p / 1_000_000_000_000 == ts.tv_sec);
    assert(p / 1_000_000_000_000 / 65536 == spec_hi_digit(p));
    lemma_time_of_picos(p);
    let t = spec_time_of_picos(p);
    assert(t.hi * 65536 + t.lo == ts.tv_sec);
    assert(p / 1_000_000 == ts.tv_sec * 1_000_000 + ts.tv_nsec / 1000);
    assert(t.us == ts.tv_nsec / 1000);
    assert(t.ps == (ts.tv_nsec % 1000) * 1000);
}

impl TimeError {
    /// The status code of this error: 0 for a wrong type, -1 for a time that
    /// cannot be represented.
    pub open spec fn spec_validity(self) -> int {
        match self {
            TimeError::TypeMismatch => 0,
            TimeError::OutOfRange => -1,
            TimeError::Overflow => -1,
        }
    }

    /// The status code of this error: 0 for a wrong type, -1 for a time that
    /// cannot be represented.
    pub fn validity(&self) -> (r: i32)
        ensures
            r == self.spec_validity(),
    {
        match self {
            TimeError::TypeMismatch => 0,
            TimeError::OutOfRange => -1,
            TimeError::Overflow => -1,
        }
    }

    /// What the user is told of this error.
    pub fn message(&self) -> (r: &'static str)
        ensures
            *self is TypeMismatch ==> r@ == "Invalid time specification"@,
            !(*self is TypeMismatch) ==> r@ == "Specified time is not representable"@,
    {
        match self {
            TimeError::TypeMismatch => "Invalid time specification",
            TimeError::OutOfRange => "Specified time is not representable",
            TimeError::Overflow => "Specified time is not representable",
        }
    }
}

/// The error of a result of arithmetic that is out of range.
pub fn time_overflow() -> (r: TimeError)
    ensures
        r == TimeError::Overflow,
{
    TimeError::Overflow
}

/// The error of a value that is no time specification.
pub fn invalid_time() -> (r: TimeError)
    ensures
        r == TimeError::TypeMismatch,
{
    TimeError::TypeMismatch
}

/// What the status code `validity` of a decoding says: a positive code is a
/// success, 0 a wrong type, and a negative code a time out of range.
pub open spec fn spec_check_time_validity(validity: int) -> Result<(), TimeError> {
    if validity > 0 {
        Ok(())
    } else if validity < 0 {
        Err(TimeError::OutOfRange)
    } else {
        Err(TimeError::TypeMismatch)
    }
}

/// Check the status code `validity` of a decoding.
pub fn check_time_validity(validity: i32) -> (r: Result<(), TimeError>)
    ensures
        r == spec_check_time_validity(validity as int),
{
    if validity <= 0 {
        if validity < 0 {
            Err(TimeError::OutOfRange)
        } else {
            Err(invalid_time())
        }
    } else {
        Ok(())
    }
}

} // verus!
