//! The payload store of a channel, as far as its control block is concerned.

use vstd::prelude::*;
use core::marker::PhantomData;

verus! {

/// A ring buffer of fixed capacity for elements of type `T`.
///
/// The control block allocates the buffer and answers for its capacity. How
/// slots are claimed, filled and overwritten is the business of the endpoints
/// that send and receive, and no part of this type.
pub struct RingBuffer<T> {
    capacity: usize,
    payload: PhantomData<T>,
}

impl<T> RingBuffer<T> {
    /// The capacity the buffer was allocated with.
    pub closed spec fn spec_capacity(&self) -> usize {
        self.capacity
    }

    /// A buffer of the given capacity. A capacity of zero is accepted.
    pub fn new(capacity: usize) -> (buffer: Self)
        ensures
            buffer.spec_capacity() == capacity,
    {
        RingBuffer { capacity, payload: PhantomData }
    }

    /// The capacity the buffer was allocated with.
    #[verifier::when_used_as_spec(spec_capacity)]
    pub fn capacity(&self) -> (capacity: usize)
        ensures
            capacity == self.spec_capacity(),
    {
        self.capacity
    }
}

} // verus!
