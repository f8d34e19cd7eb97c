//! Time specifications as a number of seconds.

use vstd::prelude::*;
use crate::decode::{disassemble_lisp_time, spec_disassemble_lisp_time};
use crate::lisp::{LispFloat, LispObject};
use crate::time::{carry_components, spec_hi_digit, spec_picos, spec_time_of_picos};
use crate::time::{LispTime, TimeError, Timespec};

verus! {

/// A number of seconds, as what its float is computed from. No
/// floating-point arithmetic is done here: the caller makes the float.
#[derive(Clone, Copy, Debug, PartialEq, Eq, Structural)]
pub enum FloatSeconds {
    /// The float with this bit pattern.
    Float(u64),
    /// The seconds of a clock reading, plus its nanoseconds divided by 10^9.
    Clock(Timespec),
    /// The digits of a time value, of which only the lower three are in
    /// their ranges: `us` times 10^6 plus `ps`, divided by 10^12, plus `lo`,
    /// plus `hi` times 65536.
    Digits(LispTime),
}

/// The number of seconds of the components `high`, `low`, `usec` and `psec`,
/// where `now` is what the clock reads. All but `low` have to be integers.
/// Integers are carried into digits, whose high-order digit need only fit in
/// 64 bits; a float `low` is the number itself; an absent `low` stands for
/// the clock's reading.
pub open spec fn spec_float_time_components(
    high: LispObject,
    low: LispObject,
    usec: LispObject,
    psec: LispObject,
    now: Timespec,
) -> Result<FloatSeconds, TimeError> {
    if !(high is Fixnum && usec is Fixnum && psec is Fixnum) {
        Err(TimeError::TypeMismatch)
    } else {
        match low {
            LispObject::Fixnum(lo) => {
                let p = spec_picos(
                    high->Fixnum_0 as int,
                    lo as int,
                    usec->Fixnum_0 as int,
                    psec->Fixnum_0 as int,
                );
                if i64::MIN <= spec_hi_digit(p) <= i64::MAX {
                    Ok(FloatSeconds::Digits(spec_time_of_picos(p)))
                } else {
                    Err(TimeError::OutOfRange)
                }
            },
            LispObject::Float(f) => Ok(FloatSeconds::Float(f.bits)),
            LispObject::Nil => Ok(FloatSeconds::Clock(now)),
            _ => Err(TimeError::TypeMismatch),
        }
    }
}

/// From the components `high`, `low`, `usec` and `psec` of a time
/// specification, find the number of seconds since the epoch. `now` is the
/// clock's reading, which an absent `low` stands for. The high-order digit is
/// not held to the range of a fixnum. Fails with `TypeMismatch` where a
/// component is of the wrong kind, and with `OutOfRange` where the
/// high-order digit does not fit in 64 bits, which no fixnums give.
pub fn float_time_components(
    high: &LispObject,
    low: &LispObject,
    usec: &LispObject,
    psec: &LispObject,
    now: Timespec,
) -> (r: Result<FloatSeconds, TimeError>)
    ensures
        r == spec_float_time_components(*high, *low, *usec, *psec, now),
        r matches Ok(FloatSeconds::Digits(t)) ==> t.normalized() && t.picos() == spec_picos(
            high->Fixnum_0 as int,
            low->Fixnum_0 as int,
            usec->Fixnum_0 as int,
            psec->Fixnum_0 as int,
        ),
{
    let (h, u, p) = match (high.as_fixnum(), usec.as_fixnum(), psec.as_fixnum()) {
        (Some(h), Some(u), Some(p)) => (h, u, p),
        _ => {
            return Err(TimeError::TypeMismatch);
        },
    };
    match low {
        LispObject::Fixnum(l) => {
            let (hi, lo, us, ps) = carry_components(h, *l, u, p);
            if hi < i64::MIN as i128 || hi > i64::MAX as i128 {
                return Err(TimeError::OutOfRange);
            }
            let t = LispTime { hi: hi as i64, lo, us, ps };
            proof {
                let total = spec_picos(h as int, *l as int, u as int, p as int);
                assert(total / 1_000_000 / 1_000_000 == total / 1_000_000_000_000);
                assert(total / 1_000_000_000_000 / 65536 == spec_hi_digit(total));
            }
            Ok(FloatSeconds::Digits(t))
        },
        LispObject::Float(f) => Ok(FloatSeconds::Float(f.bits)),
        LispObject::Nil => Ok(FloatSeconds::Clock(now)),
        _ => Err(TimeError::TypeMismatch),
    }
}

/// The number of seconds of the time specification `time`, where `now` is
/// what the clock reads.
pub open spec fn spec_float_time(time: LispObject, now: Timespec) -> Result<
    FloatSeconds,
    TimeError,
> {
    match spec_disassemble_lisp_time(time) {
        Err(e) => Err(e),
        Ok(parts) => spec_float_time_components(
            parts.high,
            parts.low,
            parts.usec,
            parts.psec,
            now,
        ),
    }
}

/// The time specification `time` as a number of seconds since the epoch. An
/// absent `time` stands for the clock's reading `now`. Since the result is to
/// be a float, it may not be exact. Fails with `TypeMismatch` where `time`
/// does not represent a time.
pub fn float_time(time: &LispObject, now: Timespec) -> (r: Result<FloatSeconds, TimeError>)
    ensures
        r == spec_float_time(*time, now),
{
    let parts = match disassemble_lisp_time(time) {
        Ok(parts) => parts,
        Err(e) => {
            return Err(e);
        },
    };
    float_time_components(&parts.high, &parts.low, &parts.usec, &parts.psec, now)
}

/// A float is its own number of seconds, and an absent specification is the
/// clock's reading.
pub proof fn lemma_float_time_of_scalars(f: LispFloat, now: Timespec)
    ensures
        spec_float_time(LispObject::Float(f), now) == Ok::<FloatSeconds, TimeError>(
            FloatSeconds::Float(f.bits),
        ),
        spec_float_time(LispObject::Nil, now) == Ok::<FloatSeconds, TimeError>(
            FloatSeconds::Clock(now),
        ),
{
}

} // verus!
