//! Addition and subtraction of time values and of time specifications.

use vstd::prelude::*;
use crate::decode::{lemma_effective_length, lisp_time_struct, spec_lisp_time_struct};
use crate::encode::{encode_lisp_time, lemma_encoded_length, spec_encode_lisp_time};
use crate::lisp::{spec_list_length, LispObject};
use crate::lisp::{spec_fixnum_overflow, MOST_NEGATIVE_FIXNUM, MOST_POSITIVE_FIXNUM};
use crate::time::{lemma_digits_of_normalized, lemma_time_of_picos};
use crate::time::{spec_hi_digit, spec_time_of_picos, LispTime, TimeError, Timespec};

verus! {

/// The sum of two time values, where its high-order digit is a fixnum.
pub open spec fn spec_time_add(ta: LispTime, tb: LispTime) -> Result<LispTime, TimeError> {
    if spec_fixnum_overflow(spec_hi_digit(ta.picos() + tb.picos())) {
        Err(TimeError::Overflow)
    } else {
        Ok(spec_time_of_picos(ta.picos() + tb.picos()))
    }
}

/// The difference of two time values, where its high-order digit is a fixnum.
pub open spec fn spec_time_subtract(ta: LispTime, tb: LispTime) -> Result<LispTime, TimeError> {
    if spec_fixnum_overflow(spec_hi_digit(ta.picos() - tb.picos())) {
        Err(TimeError::Overflow)
    } else {
        Ok(spec_time_of_picos(ta.picos() - tb.picos()))
    }
}

/// The sum of the time values `ta` and `tb`. Each digit is added to its like,
/// and a digit that reaches its radix hands one unit to the next higher digit.
/// Fails where the high-order digit of the sum is no fixnum.
pub fn time_add(ta: LispTime, tb: LispTime) -> (r: Result<LispTime, TimeError>)
    requires
        ta.wf(),
        tb.wf(),
    ensures
        r == spec_time_add(ta, tb),
        r is Ok ==> r->Ok_0.wf() && r->Ok_0.picos() == ta.picos() + tb.picos(),
{
    let mut hi: i64 = ta.hi + tb.hi;
    let mut lo: i32 = ta.lo + tb.lo;
    let mut us: i32 = ta.us + tb.us;
    let mut ps: i32 = ta.ps + tb.ps;
    if 1_000_000 <= ps {
        us = us + 1;
        ps = ps - 1_000_000;
    }
    if 1_000_000 <= us {
        lo = lo + 1;
        us = us - 1_000_000;
    }
    if 65536 <= lo {
        hi = hi + 1;
        lo = lo - 65536;
    }
    let t = LispTime { hi, lo, us, ps };
    proof {
        assert(t.normalized());
        assert(t.picos() == ta.picos() + tb.picos());
        lemma_digits_of_normalized(t);
    }
    if hi < MOST_NEGATIVE_FIXNUM || hi > MOST_POSITIVE_FIXNUM {
        return Err(TimeError::Overflow);
    }
    Ok(t)
}

/// The difference of the time values `ta` and `tb`. Each digit is taken from
/// its like, and a digit that falls below zero borrows one unit from the next
/// higher digit. Fails where the high-order digit of the difference is no
/// fixnum.
pub fn time_subtract(ta: LispTime, tb: LispTime) -> (r: Result<LispTime, TimeError>)
    requires
        ta.wf(),
        tb.wf(),
    ensures
        r == spec_time_subtract(ta, tb),
        r is Ok ==> r->Ok_0.wf() && r->Ok_0.picos() == ta.picos() - tb.picos(),
{
    let mut hi: i64 = ta.hi - tb.hi;
    let mut lo: i32 = ta.lo - tb.lo;
    let mut us: i32 = ta.us - tb.us;
    let mut ps: i32 = ta.ps - tb.ps;
    if ps < 0 {
        us = us - 1;
        ps = ps + 1_000_000;
    }
    if us < 0 {
        lo = lo - 1;
        us = us + 1_000_000;
    }
    if lo < 0 {
        hi = hi - 1;
        lo = lo + 65536;
    }
    let t = LispTime { hi, lo, us, ps };
    proof {
        assert(t.normalized());
        assert(t.picos() == ta.picos() - tb.picos());
        lemma_digits_of_normalized(t);
    }
    if hi < MOST_NEGATIVE_FIXNUM || hi > MOST_POSITIVE_FIXNUM {
        return Err(TimeError::Overflow);
    }
    Ok(t)
}

/// Adding the zero time value changes nothing.
pub proof fn lemma_time_add_zero(t: LispTime)
    requires
        t.wf(),
    ensures
        spec_time_add(t, LispTime { hi: 0, lo: 0, us: 0, ps: 0 }) == Ok::<LispTime, TimeError>(t),
        spec_time_add(LispTime { hi: 0, lo: 0, us: 0, ps: 0 }, t) == Ok::<LispTime, TimeError>(t),
{
    lemma_digits_of_normalized(t);
}

/// Taking the zero time value away changes nothing, and a time value taken
/// from itself leaves the zero time value.
pub proof fn lemma_time_subtract_zero(t: LispTime)
    requires
        t.wf(),
    ensures
        spec_time_subtract(t, LispTime { hi: 0, lo: 0, us: 0, ps: 0 }) == Ok::<
            LispTime,
            TimeError,
        >(t),
        spec_time_subtract(t, t) == Ok::<LispTime, TimeError>(
            LispTime { hi: 0, lo: 0, us: 0, ps: 0 },
        ),
{
    lemma_digits_of_normalized(t);
    lemma_digits_of_normalized(LispTime { hi: 0, lo: 0, us: 0, ps: 0 });
}

/// Addition does not depend on the order of its operands.
pub proof fn lemma_time_add_commutes(ta: LispTime, tb: LispTime)
    ensures
        spec_time_add(ta, tb) == spec_time_add(tb, ta),
{
}

/// Where a sum is a time value, taking one operand away from it gives the
/// other operand back.
pub proof fn lemma_time_add_then_subtract(ta: LispTime, tb: LispTime)
    requires
        ta.wf(),
        tb.wf(),
        spec_time_add(ta, tb) is Ok,
    ensures
        spec_time_subtract(spec_time_add(ta, tb)->Ok_0, tb) == Ok::<LispTime, TimeError>(ta),
{
    lemma_time_of_picos(ta.picos() + tb.picos());
    lemma_digits_of_normalized(ta);
}

/// A sum is a time value exactly where its high-order digit is a fixnum, and
/// it then stands for the sum of what the operands stand for; otherwise the
/// addition fails with `Overflow`.
pub proof fn lemma_time_add_exact(ta: LispTime, tb: LispTime)
    requires
        ta.wf(),
        tb.wf(),
    ensures
        spec_time_add(ta, tb) is Ok <==> !spec_fixnum_overflow(
            spec_hi_digit(ta.picos() + tb.picos()),
        ),
        spec_time_add(ta, tb) is Ok ==> spec_time_add(ta, tb)->Ok_0.wf() && spec_time_add(
            ta,
            tb,
        )->Ok_0.picos() == ta.picos() + tb.picos(),
        spec_time_add(ta, tb) is Err ==> spec_time_add(ta, tb)->Err_0 == TimeError::Overflow,
{
    if spec_time_add(ta, tb) is Ok {
        lemma_time_of_picos(ta.picos() + tb.picos());
    }
}

/// A difference is a time value exactly where its high-order digit is a
/// fixnum, and it then stands for the difference of what the operands stand
/// for; otherwise the subtraction fails with `Overflow`.
pub proof fn lemma_time_subtract_exact(ta: LispTime, tb: LispTime)
    requires
        ta.wf(),
        tb.wf(),
    ensures
        spec_time_subtract(ta, tb) is Ok <==> !spec_fixnum_overflow(
            spec_hi_digit(ta.picos() - tb.picos()),
        ),
        spec_time_subtract(ta, tb) is Ok ==> spec_time_subtract(ta, tb)->Ok_0.wf()
            && spec_time_subtract(ta, tb)->Ok_0.picos() == ta.picos() - tb.picos(),
        spec_time_subtract(ta, tb) is Err ==> spec_time_subtract(ta, tb)->Err_0
            == TimeError::Overflow,
{
    if spec_time_subtract(ta, tb) is Ok {
        lemma_time_of_picos(ta.picos() - tb.picos());
    }
}

/// An operation on two time values.
#[derive(Clone, Copy, Debug, PartialEq, Eq, Structural)]
pub enum TimeOp {
    Add,
    Subtract,
}

impl TimeOp {
    /// What the operation makes of `ta` and `tb`.
    pub open spec fn spec_apply(self, ta: LispTime, tb: LispTime) -> Result<LispTime, TimeError> {
        match self {
            TimeOp::Add => spec_time_add(ta, tb),
            TimeOp::Subtract => spec_time_subtract(ta, tb),
        }
    }

    /// Apply the operation to the time values `ta` and `tb`.
    pub fn apply(self, ta: LispTime, tb: LispTime) -> (r: Result<LispTime, TimeError>)
        requires
            ta.wf(),
            tb.wf(),
        ensures
            r == self.spec_apply(ta, tb),
            r is Ok ==> r->Ok_0.wf(),
    {
        match self {
            TimeOp::Add => time_add(ta, tb),
            TimeOp::Subtract => time_subtract(ta, tb),
        }
    }
}

/// The larger of two effective lengths.
pub open spec fn spec_max_len(alen: i32, blen: i32) -> i32 {
    if alen >= blen {
        alen
    } else {
        blen
    }
}

/// What `op` makes of the time specifications `a` and `b`, where `now_a` and
/// `now_b` are the clock's readings that an absent `a` and an absent `b`
/// stand for. The result has as many digits as the longer of the two.
pub open spec fn spec_time_arith(
    a: LispObject,
    b: LispObject,
    op: TimeOp,
    now_a: Timespec,
    now_b: Timespec,
) -> Result<LispObject, TimeError> {
    match spec_lisp_time_struct(a, now_a) {
        Err(e) => Err(e),
        Ok((ta, alen)) => match spec_lisp_time_struct(b, now_b) {
            Err(e) => Err(e),
            Ok((tb, blen)) => match op.spec_apply(ta, tb) {
                Err(e) => Err(e),
                Ok(t) => Ok(spec_encode_lisp_time(t, spec_max_len(alen, blen) as int)),
            },
        },
    }
}

/// Decode the time specifications `a` and `b`, apply `op` to their time
/// values, and encode the result with as many digits as the longer of the two
/// has. `now_a` and `now_b` are the clock's readings that an absent `a` and
/// an absent `b` stand for. Fails as the decoding of `a` does, else as that
/// of `b` does, else with `Overflow` where the high-order digit of the result
/// is no fixnum.
pub fn time_arith(
    a: &LispObject,
    b: &LispObject,
    op: TimeOp,
    now_a: Timespec,
    now_b: Timespec,
) -> (r: Result<LispObject, TimeError>)
    ensures
        r == spec_time_arith(*a, *b, op, now_a, now_b),
        r is Ok ==> 2 <= spec_list_length(r->Ok_0) <= 4,
{
    let (ta, alen) = match lisp_time_struct(a, now_a) {
        Ok(decoded) => decoded,
        Err(e) => {
            return Err(e);
        },
    };
    let (tb, blen) = match lisp_time_struct(b, now_b) {
        Ok(decoded) => decoded,
        Err(e) => {
            return Err(e);
        },
    };
    let t = match op.apply(ta, tb) {
        Ok(t) => t,
        Err(e) => {
            return Err(e);
        },
    };
    let max_len: i32 = if alen >= blen {
        alen
    } else {
        blen
    };
    Ok(encode_lisp_time(t, max_len))
}

/// The sum of the time specifications `a` and `b`, as a time specification.
/// An absent `a` stands for the clock's reading `now_a`, and an absent `b`
/// for `now_b`.
pub fn time_add_lisp(a: &LispObject, b: &LispObject, now_a: Timespec, now_b: Timespec) -> (r:
    Result<LispObject, TimeError>)
    ensures
        r == spec_time_arith(*a, *b, TimeOp::Add, now_a, now_b),
{
    time_arith(a, b, TimeOp::Add, now_a, now_b)
}

/// The difference between the time specifications `a` and `b`, as a time
/// specification. An absent `a` stands for the clock's reading `now_a`, and
/// an absent `b` for `now_b`.
pub fn time_subtract_lisp(a: &LispObject, b: &LispObject, now_a: Timespec, now_b: Timespec) -> (r:
    Result<LispObject, TimeError>)
    ensures
        r == spec_time_arith(*a, *b, TimeOp::Subtract, now_a, now_b),
{
    time_arith(a, b, TimeOp::Subtract, now_a, now_b)
}

/// Where two time specifications decode and the operation succeeds, the
/// result has exactly as many digits as the longer of the two.
pub proof fn lemma_time_arith_length(
    a: LispObject,
    b: LispObject,
    op: TimeOp,
    now_a: Timespec,
    now_b: Timespec,
)
    requires
        spec_time_arith(a, b, op, now_a, now_b) is Ok,
    ensures
        spec_lisp_time_struct(a, now_a) is Ok,
        spec_lisp_time_struct(b, now_b) is Ok,
        spec_list_length(spec_time_arith(a, b, op, now_a, now_b)->Ok_0) == spec_max_len(
            spec_lisp_time_struct(a, now_a)->Ok_0.1,
            spec_lisp_time_struct(b, now_b)->Ok_0.1,
        ),
{
    let (ta, alen) = spec_lisp_time_struct(a, now_a)->Ok_0;
    let (tb, blen) = spec_lisp_time_struct(b, now_b)->Ok_0;
    lemma_effective_length(a, now_a);
    lemma_effective_length(b, now_b);
    lemma_encoded_length(op.spec_apply(ta, tb)->Ok_0, spec_max_len(alen, blen) as int);
}

} // verus!
