//! The scancode ring buffer between the keyboard interrupt and whoever
//! drains it.

use vstd::prelude::*;
use crossbeam_queue::ArrayQueue;
use crate::queue::{
    byte_queue_capacity, byte_queue_items, byte_queue_len, byte_queue_limit, byte_queue_new,
    byte_queue_pop, byte_queue_push, MAX_CAPACITY,
};

verus! {

/// The capacity of the buffer of [`ScancodeQueue::new`].
pub const SCANCODE_CAPACITY: usize = 100;

/// What became of a scancode handed to the buffer.
#[derive(Debug, Clone, Copy, PartialEq, Eq, Structural)]
pub enum Pushed {
    /// The scancode is in the buffer, behind those that came before.
    Stored,
    /// The buffer was full: the scancode is gone and the caller emits a
    /// diagnostic.
    Dropped,
}

/// The bounded buffer of raw scancodes, oldest first.
pub struct ScancodeQueue {
    queue: ArrayQueue<u8>,
}

impl View for ScancodeQueue {
    type V = Seq<u8>;

    closed spec fn view(&self) -> Seq<u8> {
        byte_queue_items(self.queue)
    }
}

impl ScancodeQueue {
    /// The fixed capacity of the buffer.
    pub closed spec fn room(&self) -> nat {
        byte_queue_limit(self.queue)
    }

    /// Validity of a buffer: it never holds more than its capacity.
    pub open spec fn wf(&self) -> bool {
        &&& 0 < self.room() <= MAX_CAPACITY
        &&& self@.len() <= self.room()
    }

    /// An empty buffer with room for [`SCANCODE_CAPACITY`] scancodes.
    pub fn new() -> (buffer: ScancodeQueue)
        ensures
            buffer.wf(),
            buffer@ == Seq::<u8>::empty(),
            buffer.room() == SCANCODE_CAPACITY,
    {
        ScancodeQueue { queue: byte_queue_new(SCANCODE_CAPACITY) }
    }

    /// An empty buffer with room for `capacity` scancodes, or `None` if
    /// `capacity` is 0 or above [`MAX_CAPACITY`].
    pub fn with_capacity(capacity: usize) -> (made: Option<ScancodeQueue>)
        ensures
            made is Some <==> 0 < capacity <= MAX_CAPACITY,
            made matches Some(buffer) ==> buffer.wf() && buffer@ == Seq::<u8>::empty()
                && buffer.room() == capacity,
    {
        if 0 < capacity && capacity <= MAX_CAPACITY {
            Some(ScancodeQueue { queue: byte_queue_new(capacity) })
        } else {
            None
        }
    }

    /// The fixed capacity of the buffer.
    pub fn capacity(&self) -> (capacity: usize)
        ensures
            capacity == self.room(),
    {
        byte_queue_capacity(&self.queue)
    }

    /// How many scancodes the buffer holds.
    pub fn len(&self) -> (len: usize)
        ensures
            len == self@.len(),
    {
        byte_queue_len(&self.queue)
    }

    /// Takes the oldest scancode out of the buffer, if it holds one.
    pub fn pop(&mut self) -> (popped: Option<u8>)
        requires
            old(self).wf(),
        ensures
            final(self).wf(),
            final(self).room() == old(self).room(),
            old(self)@.len() == 0 ==> popped is None && final(self)@ == old(self)@,
            old(self)@.len() > 0 ==> popped == Some(old(self)@[0]) && final(self)@ == old(
                self,
            )@.subrange(1, old(self)@.len() as int),
    {
        byte_queue_pop(&mut self.queue)
    }
}

/// The producer side of the buffer, called from the keyboard interrupt. A
/// scancode is stored behind those already there if there is room; if the
/// buffer is full the scancode is dropped and the buffer stays as it was.
/// Either way the call returns at once, and the buffer stays within its
/// capacity.
pub fn add_scancode(buffer: &mut ScancodeQueue, scancode: u8) -> (pushed: Pushed)
    requires
        old(buffer).wf(),
    ensures
        final(buffer).wf(),
        final(buffer).room() == old(buffer).room(),
        final(buffer)@.len() <= final(buffer).room(),
        old(buffer)@.len() < old(buffer).room() ==> pushed == Pushed::Stored && final(buffer)@
            == old(buffer)@.push(scancode),
        old(buffer)@.len() >= old(buffer).room() ==> pushed == Pushed::Dropped && final(buffer)@
            == old(buffer)@,
{
    match byte_queue_push(&mut buffer.queue, scancode) {
        Ok(()) => Pushed::Stored,
        Err(_) => Pushed::Dropped,
    }
}

} // verus!
