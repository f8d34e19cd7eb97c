//! Decoding of Lisp values into time values.

use vstd::prelude::*;
use crate::lisp::{spec_cons, LispFloat, LispObject};
use crate::lisp::{MOST_NEGATIVE_FIXNUM, MOST_POSITIVE_FIXNUM};
use crate::time::{lemma_carry_digits, LispTime, TimeError, Timespec};

verus! {

/// The four components of a Lisp time specification, as they were found, and
/// how many of them the specification gave.
#[derive(Debug, PartialEq, Eq)]
pub struct TimeParts {
    /// The effective length of the specification: 2, 3 or 4.
    pub len: i32,
    pub high: LispObject,
    pub low: LispObject,
    pub usec: LispObject,
    pub psec: LispObject,
}

/// The components of a specification that is a pair of `high` and `rest`.
/// Components that the specification does not give are zero. A `rest` that
/// is no pair is the low component itself. A third component may stand in
/// place of the tail of the list rather than in a pair of its own.
pub open spec fn spec_time_list_parts(high: LispObject, rest: LispObject) -> TimeParts {
    let zero = LispObject::Fixnum(0);
    match rest {
        LispObject::Cons(low, low_tail) => match *low_tail {
            LispObject::Cons(usec, tail) => match *tail {
                LispObject::Cons(psec, _) => TimeParts {
                    len: 4,
                    high,
                    low: *low,
                    usec: *usec,
                    psec: *psec,
                },
                _ => TimeParts { len: 3, high, low: *low, usec: *usec, psec: zero },
            },
            LispObject::Nil => TimeParts { len: 2, high, low: *low, usec: zero, psec: zero },
            _ => TimeParts { len: 3, high, low: *low, usec: *low_tail, psec: zero },
        },
        _ => TimeParts { len: 2, high, low: rest, usec: zero, psec: zero },
    }
}

/// The components of the time specification `obj`. A pair is taken apart, and
/// its low component has to be an integer. An integer is a low component of
/// length 2 and any other value one of length 4, each with the other
/// components zero.
pub open spec fn spec_disassemble_lisp_time(obj: LispObject) -> Result<TimeParts, TimeError> {
    let zero = LispObject::Fixnum(0);
    match obj {
        LispObject::Cons(high, rest) => {
            let parts = spec_time_list_parts(*high, *rest);
            if parts.low is Fixnum {
                Ok(parts)
            } else {
                Err(TimeError::TypeMismatch)
            }
        },
        LispObject::Fixnum(_) => Ok(
            TimeParts { len: 2, high: zero, low: obj, usec: zero, psec: zero },
        ),
        _ => Ok(TimeParts { len: 4, high: zero, low: obj, usec: zero, psec: zero }),
    }
}

/// Take the time specification `specified_time` apart into its components,
/// without looking at their values. Fails with `TypeMismatch` where it is a
/// pair whose low component is no integer.
pub fn disassemble_lisp_time(specified_time: &LispObject) -> (r: Result<TimeParts, TimeError>)
    ensures
        r == spec_disassemble_lisp_time(*specified_time),
        r is Ok ==> 2 <= r->Ok_0.len <= 4,
{
    let (car, cdr) = match specified_time.as_cons() {
        Some(pair) => pair,
        None => {
            let len: i32 = if specified_time.is_fixnum() {
                2
            } else {
                4
            };
            return Ok(
                TimeParts {
                    len,
                    high: LispObject::from_fixnum(0),
                    low: specified_time.duplicate(),
                    usec: LispObject::from_fixnum(0),
                    psec: LispObject::from_fixnum(0),
                },
            );
        },
    };
    let high = car.duplicate();
    let mut low = cdr.duplicate();
    let mut usec = LispObject::from_fixnum(0);
    let mut psec = LispObject::from_fixnum(0);
    let mut len: i32 = 2;
    if let Some((second, low_tail)) = cdr.as_cons() {
        low = second.duplicate();
        if let Some((third, tail)) = low_tail.as_cons() {
            usec = third.duplicate();
            if let Some((fourth, _)) = tail.as_cons() {
                psec = fourth.duplicate();
                len = 4;
            } else {
                len = 3;
            }
        } else if low_tail.is_not_nil() {
            usec = low_tail.duplicate();
            len = 3;
        }
    }
    // Components are only combined where the low one is an integer.
    if !low.is_fixnum() {
        return Err(TimeError::TypeMismatch);
    }
    Ok(TimeParts { len, high, low, usec, psec })
}

/// The time value of a float of seconds: that of its truncated digits where
/// the float is in range.
pub open spec fn spec_decode_float_time(f: LispFloat) -> Result<LispTime, TimeError> {
    if !f.in_range {
        Err(TimeError::OutOfRange)
    } else {
        LispTime::spec_from_components(f.hi as int, f.lo as int, f.us as int, f.ps as int)
    }
}

/// The time value of the float of seconds `f`, rounded toward minus infinity.
/// The digits of `f` were truncated toward zero, so each may be negative: a
/// negative digit borrows one unit from the next higher digit. Fails with
/// `OutOfRange` where the float is out of range or the high-order digit of
/// the result is no fixnum.
pub fn decode_float_time(f: &LispFloat) -> (r: Result<LispTime, TimeError>)
    ensures
        r == spec_decode_float_time(*f),
        r is Ok ==> r->Ok_0.wf(),
{
    if !f.in_range {
        return Err(TimeError::OutOfRange);
    }
    let within: bool = -65536 < f.lo && f.lo < 65536 && -1_000_000 < f.us && f.us < 1_000_000
        && -1_000_000 < f.ps && f.ps < 1_000_000;
    if !within {
        // No truncation gives such digits: carry them in full.
        return LispTime::from_components(f.hi, f.lo as i64, f.us as i64, f.ps as i64);
    }
    let mut hi: i128 = f.hi as i128;
    let mut lo: i32 = f.lo;
    let mut us: i32 = f.us;
    let mut ps: i32 = f.ps;

    if ps < 0 {
        us = us - 1;
        ps = ps + 1_000_000;
    }
    if us < 0 {
        lo = lo - 1;
        us = us + 1_000_000;
    }
    if lo < 0 {
        hi = hi - 1;
        lo = lo + 65536;
    }
    proof {
        lemma_carry_digits(f.hi as int, f.lo as int, f.us as int, f.ps as int);
        lemma_carry_digits(hi as int, lo as int, us as int, ps as int);
    }
    if hi < MOST_NEGATIVE_FIXNUM as i128 || hi > MOST_POSITIVE_FIXNUM as i128 {
        return Err(TimeError::OutOfRange);
    }
    Ok(LispTime { hi: hi as i64, lo, us, ps })
}

/// The time value of the components `high`, `low`, `usec` and `psec`, where
/// `now` is what the clock reads. All but `low` have to be integers. An
/// integer `low` is carried together with the others; a float `low` is
/// decoded by itself; an absent `low` stands for the clock's reading.
pub open spec fn spec_decode_time_components(
    high: LispObject,
    low: LispObject,
    usec: LispObject,
    psec: LispObject,
    now: Timespec,
) -> Result<LispTime, TimeError> {
    if !(high is Fixnum && usec is Fixnum && psec is Fixnum) {
        Err(TimeError::TypeMismatch)
    } else {
        match low {
            LispObject::Fixnum(lo) => LispTime::spec_from_components(
                high->Fixnum_0 as int,
                lo as int,
                usec->Fixnum_0 as int,
                psec->Fixnum_0 as int,
            ),
            LispObject::Float(f) => spec_decode_float_time(f),
            LispObject::Nil => Ok(LispTime::spec_from_timespec(now)),
            _ => Err(TimeError::TypeMismatch),
        }
    }
}

/// From the components `high`, `low`, `usec` and `psec` of a time
/// specification, make the time value. `now` is the clock's reading, which an
/// absent `low` stands for. Fails with `TypeMismatch` where a component is of
/// the wrong kind, and with `OutOfRange` where the time cannot be
/// represented.
pub fn decode_time_components(
    high: &LispObject,
    low: &LispObject,
    usec: &LispObject,
    psec: &LispObject,
    now: Timespec,
) -> (r: Result<LispTime, TimeError>)
    ensures
        r == spec_decode_time_components(*high, *low, *usec, *psec, now),
        r is Ok ==> r->Ok_0.wf(),
{
    let (hi, us, ps) = match (high.as_fixnum(), usec.as_fixnum(), psec.as_fixnum()) {
        (Some(hi), Some(us), Some(ps)) => (hi, us, ps),
        _ => {
            return Err(TimeError::TypeMismatch);
        },
    };
    match low {
        LispObject::Fixnum(lo) => LispTime::from_components(hi, *lo, us, ps),
        LispObject::Float(f) => decode_float_time(f),
        LispObject::Nil => Ok(LispTime::from_timespec(now)),
        _ => Err(TimeError::TypeMismatch),
    }
}

/// The time value of the time specification `obj` and its effective length,
/// where `now` is what the clock reads.
pub open spec fn spec_lisp_time_struct(obj: LispObject, now: Timespec) -> Result<
    (LispTime, i32),
    TimeError,
> {
    match spec_disassemble_lisp_time(obj) {
        Err(e) => Err(e),
        Ok(parts) => match spec_decode_time_components(
            parts.high,
            parts.low,
            parts.usec,
            parts.psec,
            now,
        ) {
            Err(e) => Err(e),
            Ok(t) => Ok((t, parts.len)),
        },
    }
}

/// Decode the time specification `specified_time` into its time value and its
/// effective length. `now` is the clock's reading, which an absent
/// specification stands for. Fails where `specified_time` does not represent
/// a time.
pub fn lisp_time_struct(specified_time: &LispObject, now: Timespec) -> (r: Result<
    (LispTime, i32),
    TimeError,
>)
    ensures
        r == spec_lisp_time_struct(*specified_time, now),
        r is Ok ==> r->Ok_0.0.wf() && 2 <= r->Ok_0.1 <= 4,
{
    let parts = match disassemble_lisp_time(specified_time) {
        Ok(parts) => parts,
        Err(e) => {
            return Err(e);
        },
    };
    match decode_time_components(&parts.high, &parts.low, &parts.usec, &parts.psec, now) {
        Ok(t) => Ok((t, parts.len)),
        Err(e) => Err(e),
    }
}

/// A list whose low component is a float is no time specification, whatever
/// else it holds.
pub proof fn lemma_float_low_rejected(high: LispObject, f: LispFloat, tail: LispObject, now: Timespec)
    ensures
        spec_lisp_time_struct(spec_cons(high, spec_cons(LispObject::Float(f), tail)), now) == Err::<
            (LispTime, i32),
            TimeError,
        >(TimeError::TypeMismatch),
        spec_lisp_time_struct(spec_cons(high, LispObject::Float(f)), now) == Err::<
            (LispTime, i32),
            TimeError,
        >(TimeError::TypeMismatch),
{
}

/// The effective length of a time specification that decodes is 2, 3 or 4.
pub proof fn lemma_effective_length(obj: LispObject, now: Timespec)
    requires
        spec_lisp_time_struct(obj, now) is Ok,
    ensures
        2 <= spec_lisp_time_struct(obj, now)->Ok_0.1 <= 4,
{
}

} // verus!
