//! Keyboards of a terminal.

use vstd::prelude::*;

verus! {

/// A keyboard, which is shared by the terminals that refer to it.
#[derive(Debug, PartialEq, Eq)]
pub struct KboardRef {
    /// How many terminals refer to this keyboard.
    pub reference_count: i32,
}

impl KboardRef {
    /// Count one more terminal that refers to this keyboard.
    pub fn add_ref(&mut self)
        requires
            old(self).reference_count < i32::MAX,
        ensures
            final(self).reference_count == old(self).reference_count + 1,
    {
        self.reference_count = self.reference_count + 1;
    }
}

} // verus!
