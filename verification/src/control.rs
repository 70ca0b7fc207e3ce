//! The control block that all endpoints of one channel share.

use vstd::prelude::*;
use core::sync::atomic::{AtomicBool, AtomicUsize, Ordering};
use core::task::Waker;
use crossbeam_utils::CachePadded;
use crate::buffer::RingBuffer;
use crate::cells::{counter, flag, initial_count, initial_flag};
use crate::waitlist::Waitlist;

verus! {

/// The state shared by the senders and receivers of one channel.
///
/// Each field is atomic by itself; several fields together are not. An
/// endpoint that retires decrements its side's counter, and the one that
/// brings a counter to zero clears `connected`: that protocol is the
/// endpoints', built on these fields.
pub struct ControlBlock<T> {
    /// The number of live senders.
    pub senders: CachePadded<AtomicUsize>,
    /// The number of live receivers.
    pub receivers: CachePadded<AtomicUsize>,
    /// Whether both sides are still believed live. Once cleared it stays so.
    pub connected: AtomicBool,
    /// The payload store.
    pub buffer: RingBuffer<T>,
    /// The tasks parked until the channel's state changes.
    pub waitlist: Waitlist<Waker>,
}

impl<T> ControlBlock<T> {
    /// The control block of a fresh channel: one sender, one receiver,
    /// connected, a buffer of the given capacity, and nobody waiting.
    pub fn new(capacity: usize) -> (block: Self)
        ensures
            initial_count(block.senders) == 1,
            initial_count(block.receivers) == 1,
            initial_flag(block.connected),
            block.buffer.capacity() == capacity,
            block.waitlist.starts_empty(),
    {
        ControlBlock {
            senders: counter(1),
            receivers: counter(1),
            connected: flag(true),
            buffer: RingBuffer::new(capacity),
            waitlist: Waitlist::new(),
        }
    }

    /// Reads the three fields, one after the other, and tells whether what was
    /// read allows the block to be freed. Another thread may change any of them
    /// meanwhile, so the answer binds nobody but a caller who knows that it
    /// holds the last reference.
    pub fn is_retired(&self) -> bool {
        let connected = self.connected.load(Ordering::Relaxed);
        let senders = self.senders.load(Ordering::Relaxed);
        let receivers = self.receivers.load(Ordering::Relaxed);
        retired(connected, senders, receivers)
    }
}

/// Whether a block in which these values were observed may be freed: the
/// channel is disconnected and neither side has an endpoint left.
pub fn retired(connected: bool, senders: usize, receivers: usize) -> (free: bool)
    ensures
        free == (!connected && senders == 0 && receivers == 0),
{
    !connected && senders == 0 && receivers == 0
}

} // verus!
