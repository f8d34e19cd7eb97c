//! A model of the Lisp values that the time functions read and build.

use vstd::prelude::*;

verus! {

/// Largest integer that a Lisp fixnum holds.
pub const MOST_POSITIVE_FIXNUM: i64 = 0x1fff_ffff_ffff_ffff;

/// Smallest integer that a Lisp fixnum holds.
pub const MOST_NEGATIVE_FIXNUM: i64 = -0x2000_0000_0000_0000;

/// A handle on a buffer of the editor.
#[derive(Clone, Copy, Debug, PartialEq, Eq, Structural)]
pub struct LispBufferRef {
    pub id: u64,
}

/// A handle on a process of the editor: its place in the process table.
#[derive(Clone, Copy, Debug, PartialEq, Eq, Structural)]
pub struct LispProcessRef {
    pub index: usize,
}

/// A Lisp float that stands for a number of seconds, as the integers that
/// decoding reads. The number itself is never computed with here: `bits` is
/// its IEEE 754 binary64 pattern, carried through untouched, and the other
/// fields are what floating-point arithmetic made of it.
#[derive(Clone, Copy, Debug, PartialEq, Eq, Structural)]
pub struct LispFloat {
    /// The bit pattern of the number.
    pub bits: u64,
    /// Whether the number `t` satisfies
    /// `MOST_NEGATIVE_FIXNUM * 65536 <= t < -MOST_NEGATIVE_FIXNUM * 65536`.
    pub in_range: bool,
    /// `t / 65536`, truncated toward zero.
    pub hi: i64,
    /// What is left of `t` without `hi * 65536`, truncated toward zero.
    pub lo: i32,
    /// The microseconds of the fractional part, truncated toward zero.
    pub us: i32,
    /// What is left of the fractional part, in picoseconds, truncated toward zero.
    pub ps: i32,
}

/// A Lisp value.
#[derive(Debug, PartialEq, Eq)]
pub enum LispObject {
    /// The empty list, which also stands for an absent value.
    Nil,
    /// An integer.
    Fixnum(i64),
    /// A floating-point number.
    Float(LispFloat),
    /// A pair.
    Cons(Box<LispObject>, Box<LispObject>),
    /// A buffer.
    Buffer(LispBufferRef),
    /// A process.
    Process(LispProcessRef),
    /// A value of any other kind.
    Other,
}

/// The pair of `car` and `cdr`.
pub open spec fn spec_cons(car: LispObject, cdr: LispObject) -> LispObject {
    LispObject::Cons(Box::new(car), Box::new(cdr))
}

/// The number of pairs along the `cdr` chain of `obj`.
pub open spec fn spec_list_length(obj: LispObject) -> nat
    decreases obj,
{
    match obj {
        LispObject::Cons(_, cdr) => 1 + spec_list_length(*cdr),
        _ => 0,
    }
}

/// Whether `n` lies outside the range of a Lisp fixnum.
pub open spec fn spec_fixnum_overflow(n: int) -> bool {
    n < MOST_NEGATIVE_FIXNUM || n > MOST_POSITIVE_FIXNUM
}

impl LispObject {
    /// Whether `n` lies outside the range of a Lisp fixnum.
    pub fn fixnum_overflow(n: i64) -> (r: bool)
        ensures
            r == spec_fixnum_overflow(n as int),
    {
        n < MOST_NEGATIVE_FIXNUM || n > MOST_POSITIVE_FIXNUM
    }

    /// The integer `n` as a Lisp value.
    pub fn from_fixnum(n: i64) -> (r: LispObject)
        ensures
            r == LispObject::Fixnum(n),
    {
        LispObject::Fixnum(n)
    }

    /// The pair of `car` and `cdr`.
    pub fn cons(car: LispObject, cdr: LispObject) -> (r: LispObject)
        ensures
            r == spec_cons(car, cdr),
    {
        LispObject::Cons(Box::new(car), Box::new(cdr))
    }

    pub fn is_nil(&self) -> (r: bool)
        ensures
            r == (*self is Nil),
    {
        match self {
            LispObject::Nil => true,
            _ => false,
        }
    }

    pub fn is_not_nil(&self) -> (r: bool)
        ensures
            r == !(*self is Nil),
    {
        !self.is_nil()
    }

    pub fn is_fixnum(&self) -> (r: bool)
        ensures
            r == (*self is Fixnum),
    {
        match self {
            LispObject::Fixnum(_) => true,
            _ => false,
        }
    }

    /// The integer that this value holds, if it is one.
    pub fn as_fixnum(&self) -> (r: Option<i64>)
        ensures
            r == (match *self {
                LispObject::Fixnum(n) => Some(n),
                _ => None,
            }),
    {
        match self {
            LispObject::Fixnum(n) => Some(*n),
            _ => None,
        }
    }

    /// The float that this value holds, if it is one.
    pub fn as_float(&self) -> (r: Option<LispFloat>)
        ensures
            r == (match *self {
                LispObject::Float(f) => Some(f),
                _ => None,
            }),
    {
        match self {
            LispObject::Float(f) => Some(*f),
            _ => None,
        }
    }

    /// The two halves of this value, if it is a pair.
    pub fn as_cons(&self) -> (r: Option<(&LispObject, &LispObject)>)
        ensures
            r == (match *self {
                LispObject::Cons(car, cdr) => Some((&*car, &*cdr)),
                _ => None,
            }),
    {
        match self {
            LispObject::Cons(car, cdr) => Some((&**car, &**cdr)),
            _ => None,
        }
    }

    /// A copy of this value, pairs included.
    pub fn duplicate(&self) -> (r: LispObject)
        ensures
            r == *self,
        decreases *self,
    {
        match self {
            LispObject::Nil => LispObject::Nil,
            LispObject::Fixnum(n) => LispObject::Fixnum(*n),
            LispObject::Float(f) => LispObject::Float(*f),
            LispObject::Cons(car, cdr) => LispObject::Cons(
                Box::new(car.duplicate()),
                Box::new(cdr.duplicate()),
            ),
            LispObject::Buffer(b) => LispObject::Buffer(*b),
            LispObject::Process(p) => LispObject::Process(*p),
            LispObject::Other => LispObject::Other,
        }
    }
}

} // verus!
