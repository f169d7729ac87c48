//! Scratch memory for one engine call: acquired at a fixed capacity, written
//! in place by exactly one engine call, read back trimmed to the actual
//! length, and released with the owning value on every exit path.

use vstd::prelude::*;
use vstd::slice::slice_subrange;
use vstd::slice::slice_to_vec;

verus! {

/// An owned, fixed-capacity byte region. The backing allocation is released
/// when the value is dropped, whichever path the operation takes.
pub struct ScratchBuffer {
    pub(crate) data: Vec<u8>,
}

impl ScratchBuffer {
    /// The bytes the region currently holds.
    pub closed spec fn bytes(self) -> Seq<u8> {
        self.data@
    }

    /// The fixed capacity the region was acquired with: it always equals the
    /// length of the bytes it holds.
    pub open spec fn cap(self) -> nat {
        self.bytes().len()
    }

    /// Acquires a region of exactly `capacity` writable bytes. A request for
    /// no bytes at all is an allocation failure, not a buffer.
    pub fn acquire(capacity: usize) -> (r: Option<ScratchBuffer>)
        ensures
            (r is Some) <==> capacity > 0,
            r is Some ==> r.unwrap().cap() == capacity,
    {
        if capacity == 0 {
            return None;
        }
        let mut data: Vec<u8> = Vec::new();
        while data.len() < capacity
            invariant
                data@.len() <= capacity,
            decreases capacity - data@.len(),
        {
            data.push(0u8);
        }
        Some(ScratchBuffer { data })
    }

    /// The capacity the region was acquired with.
    pub fn capacity(&self) -> (n: usize)
        ensures
            n == self.cap(),
    {
        self.data.len()
    }

    /// A read-only view of the first `actual_length` bytes. Asking for more
    /// than the capacity is a programming error, ruled out up front.
    pub fn trim_to(&self, actual_length: usize) -> (r: &[u8])
        requires
            actual_length <= self.cap(),
        ensures
            r@ == self.bytes().subrange(0, actual_length as int),
    {
        slice_subrange(self.data.as_slice(), 0, actual_length)
    }

    /// Copies the first `actual_length` bytes into an owned sequence,
    /// independent of this region's allocation.
    pub fn copy_out(&self, actual_length: usize) -> (out: Vec<u8>)
        requires
            actual_length <= self.cap(),
        ensures
            out@ == self.bytes().subrange(0, actual_length as int),
    {
        slice_to_vec(self.trim_to(actual_length))
    }
}

} // verus!
