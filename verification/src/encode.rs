//! Encoding of time values as Lisp lists.

use vstd::prelude::*;
use crate::decode::spec_lisp_time_struct;
use crate::lisp::{spec_cons, spec_list_length, LispObject};
use crate::time::{hi_time, lemma_digits_of_normalized, lo_time};
use crate::time::{spec_hi_digit, spec_picos, LispTime, TimeError, Timespec};

verus! {

/// The quotient of `a` by `b` rounded toward zero, for a positive `b`.
pub open spec fn spec_trunc_div(a: int, b: int) -> int {
    if a >= 0 {
        a / b
    } else {
        -((-a) / b)
    }
}

/// What `a` leaves over its quotient by `b` rounded toward zero: it has the
/// sign of `a`.
pub open spec fn spec_trunc_rem(a: int, b: int) -> int {
    a - b * spec_trunc_div(a, b)
}

/// The list of the four integers `hi`, `lo`, `us` and `ps`.
pub open spec fn spec_time_list(hi: i64, lo: i64, us: i64, ps: i64) -> LispObject {
    spec_cons(
        LispObject::Fixnum(hi),
        spec_cons(
            LispObject::Fixnum(lo),
            spec_cons(LispObject::Fixnum(us), spec_cons(LispObject::Fixnum(ps), LispObject::Nil)),
        ),
    )
}

/// The list of four integers that represents the clock reading `t`: the two
/// halves of its seconds, its nanoseconds divided by 1000 and 1000 times what
/// that division leaves, both rounded toward zero.
pub open spec fn spec_make_lisp_time(t: Timespec) -> LispObject {
    spec_time_list(
        (t.tv_sec as int / 65536) as i64,
        (t.tv_sec as int % 65536) as i64,
        spec_trunc_div(t.tv_nsec as int, 1000) as i64,
        (spec_trunc_rem(t.tv_nsec as int, 1000) * 1000) as i64,
    )
}

/// Make the Lisp list that represents the clock reading `t`. `t` may be an
/// invalid reading, with slightly negative nanoseconds: the list then holds
/// a picosecond count that is negative likewise.
pub fn make_lisp_time(t: Timespec) -> (r: LispObject)
    ensures
        r == spec_make_lisp_time(t),
        spec_list_length(r) == 4,
{
    let s = t.tv_sec;
    let ns = t.tv_nsec;
    let hi = hi_time(s);
    let lo = lo_time(s);
    let us: i64 = ns / 1_000;
    let ps: i64 = ns % 1_000 * 1_000;
    let r = LispObject::cons(
        LispObject::from_fixnum(hi),
        LispObject::cons(
            LispObject::from_fixnum(lo as i64),
            LispObject::cons(
                LispObject::from_fixnum(us),
                LispObject::cons(LispObject::from_fixnum(ps), LispObject::Nil),
            ),
        ),
    );
    proof {
        lemma_time_list_length(hi, lo as i64, us, ps);
    }
    r
}

/// The current time as a list of four integers, where `now` is what the clock
/// reads: the high and the low 16 bits of the seconds, the microseconds and
/// the picoseconds.
pub fn current_time(now: Timespec) -> (r: LispObject)
    ensures
        r == spec_make_lisp_time(now),
        spec_list_length(r) == 4,
{
    make_lisp_time(now)
}

/// The list of the first `len` digits of `t`, where `len` is 2 or 3, and of
/// all four otherwise.
pub open spec fn spec_encode_lisp_time(t: LispTime, len: int) -> LispObject {
    let hi = LispObject::Fixnum(t.hi);
    let lo = LispObject::Fixnum(t.lo as i64);
    let us = LispObject::Fixnum(t.us as i64);
    let ps = LispObject::Fixnum(t.ps as i64);
    if len == 2 {
        spec_cons(hi, spec_cons(lo, LispObject::Nil))
    } else if len == 3 {
        spec_cons(hi, spec_cons(lo, spec_cons(us, LispObject::Nil)))
    } else {
        spec_cons(hi, spec_cons(lo, spec_cons(us, spec_cons(ps, LispObject::Nil))))
    }
}

/// `t` with the digits beyond the first `len` set to zero, where `len` is 2
/// or 3, and `t` itself otherwise.
pub open spec fn spec_truncate_time(t: LispTime, len: int) -> LispTime {
    if len == 2 {
        LispTime { hi: t.hi, lo: t.lo, us: 0, ps: 0 }
    } else if len == 3 {
        LispTime { hi: t.hi, lo: t.lo, us: t.us, ps: 0 }
    } else {
        t
    }
}

/// Make the Lisp list of the first `len` digits of the time value `t`. The
/// list is built from its end: the picoseconds only with all four digits,
/// the microseconds before them unless `len` is 2, then the low and the high
/// seconds. Digits that are left out are dropped, not rounded into the
/// others.
pub fn encode_lisp_time(t: LispTime, len: i32) -> (r: LispObject)
    ensures
        r == spec_encode_lisp_time(t, len as int),
        spec_list_length(r) == (if len == 2 || len == 3 {
            len as nat
        } else {
            4
        }),
{
    let mut val = LispObject::Nil;
    if len != 2 && len != 3 {
        val = LispObject::cons(LispObject::from_fixnum(t.ps as i64), val);
    }
    if len != 2 {
        val = LispObject::cons(LispObject::from_fixnum(t.us as i64), val);
    }
    val = LispObject::cons(LispObject::from_fixnum(t.lo as i64), val);
    val = LispObject::cons(LispObject::from_fixnum(t.hi), val);
    proof {
        lemma_encoded_length(t, len as int);
    }
    val
}

/// A list of four integers has four members.
pub proof fn lemma_time_list_length(hi: i64, lo: i64, us: i64, ps: i64)
    ensures
        spec_list_length(spec_time_list(hi, lo, us, ps)) == 4,
{
    reveal_with_fuel(spec_list_length, 6);
}

/// An encoded time value has as many members as were asked for.
pub proof fn lemma_encoded_length(t: LispTime, len: int)
    ensures
        spec_list_length(spec_encode_lisp_time(t, len)) == (if len == 2 || len == 3 {
            len as nat
        } else {
            4
        }),
{
    reveal_with_fuel(spec_list_length, 6);
}

/// A time value that is encoded with `len` digits and decoded again is the
/// same value with the digits beyond `len` set to zero, and its effective
/// length is `len`, whatever the clock reads.
pub proof fn lemma_decode_encode(t: LispTime, len: int, now: Timespec)
    requires
        t.wf(),
        2 <= len <= 4,
    ensures
        spec_lisp_time_struct(spec_encode_lisp_time(t, len), now) == Ok::<
            (LispTime, i32),
            TimeError,
        >((spec_truncate_time(t, len), len as i32)),
        spec_truncate_time(t, len).wf(),
{
    lemma_digits_of_normalized(spec_truncate_time(t, len));
}

/// The list made of a valid clock reading decodes to the time value of that
/// reading, with all four digits.
pub proof fn lemma_decode_made_time(ts: Timespec, now: Timespec)
    requires
        ts.valid(),
    ensures
        spec_lisp_time_struct(spec_make_lisp_time(ts), now) == Ok::<(LispTime, i32), TimeError>(
            (LispTime::spec_from_timespec(ts), 4i32),
        ),
{
    let hi = ts.tv_sec as int / 65536;
    let lo = ts.tv_sec as int % 65536;
    let us = ts.tv_nsec as int / 1000;
    let ps = (ts.tv_nsec as int % 1000) * 1000;
    assert(spec_picos(hi, lo, us, ps) == ts.picos());
    assert(ts.picos() / 1_000_000_000_000 / 65536 == spec_hi_digit(ts.picos()));
}

} // verus!
