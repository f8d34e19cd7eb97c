//! Extended-precision time values: a mixed-radix representation of an instant
//! or a duration, its decoding from loosely shaped Lisp values, carry-correct
//! arithmetic on it, and its encoding back into Lisp lists.

pub mod arith;
pub mod decode;
pub mod encode;
pub mod float_time;
pub mod lisp;
pub mod process;
pub mod term;
pub mod time;
