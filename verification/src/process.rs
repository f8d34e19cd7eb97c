//! Processes and the buffers that they are associated with.

use vstd::prelude::*;
use crate::lisp::{LispBufferRef, LispObject, LispProcessRef};

verus! {

/// What the process table records of a process.
#[derive(Debug, PartialEq, Eq)]
pub struct LispProcess {
    /// The buffer that the process is associated with, or nil.
    pub buffer: LispObject,
}

impl LispObject {
    /// Whether this value is a process.
    pub fn is_process(&self) -> (r: bool)
        ensures
            r == (*self is Process),
    {
        match self {
            LispObject::Process(_) => true,
            _ => false,
        }
    }

    /// The process that this value is, if it is one.
    pub fn as_process(&self) -> (r: Option<LispProcessRef>)
        ensures
            r == (match *self {
                LispObject::Process(p) => Some(p),
                _ => None,
            }),
    {
        match self {
            LispObject::Process(p) => Some(*p),
            _ => None,
        }
    }

    /// Whether this value is the buffer `buffer`.
    pub fn is_buffer(&self, buffer: LispBufferRef) -> (r: bool)
        ensures
            r == (*self == LispObject::Buffer(buffer)),
    {
        match self {
            LispObject::Buffer(b) => b.id == buffer.id,
            _ => false,
        }
    }
}

/// Whether the process at `index` of `processes` is associated with `buffer`.
pub open spec fn spec_process_has_buffer(
    processes: Seq<LispProcess>,
    index: int,
    buffer: LispBufferRef,
) -> bool {
    processes[index].buffer == LispObject::Buffer(buffer)
}

/// The first process of the table `processes` that is associated with
/// `buffer`, if `buffer` is given and there is such a process.
pub fn get_buffer_process_internal(
    processes: &Vec<LispProcess>,
    buffer: Option<LispBufferRef>,
) -> (r: Option<LispProcessRef>)
    ensures
        match r {
            Some(p) => buffer is Some && p.index < processes@.len() && spec_process_has_buffer(
                processes@,
                p.index as int,
                buffer->Some_0,
            ) && forall|j: int|
                0 <= j < p.index ==> !spec_process_has_buffer(processes@, j, buffer->Some_0),
            None => buffer is None || forall|j: int|
                0 <= j < processes@.len() ==> !spec_process_has_buffer(
                    processes@,
                    j,
                    buffer->Some_0,
                ),
        },
{
    if let Some(buf) = buffer {
        let mut i: usize = 0;
        while i < processes.len()
            invariant
                buffer == Some(buf),
                i <= processes@.len(),
                forall|j: int| 0 <= j < i ==> !spec_process_has_buffer(processes@, j, buf),
            decreases processes@.len() - i,
        {
            if processes[i].buffer.is_buffer(buf) {
                return Some(LispProcessRef { index: i });
            }
            i = i + 1;
        }
    }
    None
}

} // verus!
