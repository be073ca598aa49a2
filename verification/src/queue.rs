//! The bounded queues of the kernel, held in `crossbeam_queue::ArrayQueue`.
//!
//! Every function here reaches the queue through an exclusive reference, so
//! that what a queue holds changes only where a contract says so.

use vstd::prelude::*;
use crossbeam_queue::ArrayQueue;
use crate::task::Task;

verus! {

/// The largest capacity a queue of this kernel is created with. A queue lays
/// out all its slots when it is created, which a capacity without bound does
/// not survive.
pub const MAX_CAPACITY: usize = 65536;

/// `crossbeam_queue::ArrayQueue`, a bounded first-in first-out queue, taken
/// as it is: contracts speak of what it holds and of its capacity only.
#[verifier::external_type_specification]
#[verifier::external_body]
#[verifier::reject_recursive_types(T)]
pub struct ExArrayQueue<T>(ArrayQueue<T>);

/// The task identifiers in a wake queue, oldest first.
pub uninterp spec fn id_queue_items(queue: ArrayQueue<u64>) -> Seq<u64>;

/// The capacity that a wake queue was created with.
pub uninterp spec fn id_queue_limit(queue: ArrayQueue<u64>) -> nat;

/// `ArrayQueue::new`: a queue of the given capacity that holds nothing. The
/// outside function panics on capacity zero and on one too large to lay out,
/// which the precondition leaves out.
#[verifier::external_body]
pub(crate) fn id_queue_new(capacity: usize) -> (queue: ArrayQueue<u64>)
    requires
        0 < capacity <= MAX_CAPACITY,
    ensures
        id_queue_items(queue) == Seq::<u64>::empty(),
        id_queue_limit(queue) == capacity,
{
    ArrayQueue::new(capacity)
}

/// `ArrayQueue::push`: appends `id` behind what the queue holds if there is
/// room; hands `id` back and leaves the queue as it was if it is full.
#[verifier::external_body]
pub(crate) fn id_queue_push(queue: &mut ArrayQueue<u64>, id: u64) -> (pushed: Result<(), u64>)
    ensures
        id_queue_limit(*final(queue)) == id_queue_limit(*old(queue)),
        id_queue_items(*old(queue)).len() < id_queue_limit(*old(queue)) ==> pushed is Ok,
        id_queue_items(*old(queue)).len() < id_queue_limit(*old(queue)) ==> id_queue_items(
            *final(queue),
        ) == id_queue_items(*old(queue)).push(id),
        id_queue_items(*old(queue)).len() >= id_queue_limit(*old(queue)) ==> pushed is Err && pushed->Err_0 == id,
        id_queue_items(*old(queue)).len() >= id_queue_limit(*old(queue)) ==> id_queue_items(
            *final(queue),
        ) == id_queue_items(*old(queue)),
{
    queue.push(id)
}

/// `ArrayQueue::pop`: takes out and returns the oldest identifier, or returns
/// `None` and changes nothing if the queue holds none.
#[verifier::external_body]
pub(crate) fn id_queue_pop(queue: &mut ArrayQueue<u64>) -> (popped: Option<u64>)
    ensures
        id_queue_limit(*final(queue)) == id_queue_limit(*old(queue)),
        id_queue_items(*old(queue)).len() == 0 ==> popped is None && id_queue_items(*final(queue))
            == id_queue_items(*old(queue)),
        id_queue_items(*old(queue)).len() > 0 ==> popped == Some(id_queue_items(*old(queue))[0])
            && id_queue_items(*final(queue)) == id_queue_items(*old(queue)).subrange(
            1,
            id_queue_items(*old(queue)).len() as int,
        ),
{
    queue.pop()
}

/// `ArrayQueue::is_empty`: whether the queue holds nothing.
#[verifier::external_body]
pub(crate) fn id_queue_is_empty(queue: &ArrayQueue<u64>) -> (empty: bool)
    ensures
        empty == (id_queue_items(*queue).len() == 0),
{
    queue.is_empty()
}

/// `ArrayQueue::len`: how many identifiers the queue holds.
#[verifier::external_body]
pub(crate) fn id_queue_len(queue: &ArrayQueue<u64>) -> (len: usize)
    ensures
        len == id_queue_items(*queue).len(),
{
    queue.len()
}

/// `ArrayQueue::capacity`: the capacity that the queue was created with.
#[verifier::external_body]
pub(crate) fn id_queue_capacity(queue: &ArrayQueue<u64>) -> (capacity: usize)
    ensures
        capacity == id_queue_limit(*queue),
{
    queue.capacity()
}

/// The tasks in a spawn queue, oldest first.
pub uninterp spec fn task_queue_items(queue: ArrayQueue<Task>) -> Seq<Task>;

/// The capacity that a spawn queue was created with.
pub uninterp spec fn task_queue_limit(queue: ArrayQueue<Task>) -> nat;

/// `ArrayQueue::new`: a queue of the given capacity that holds nothing. The
/// outside function panics on capacity zero and on one too large to lay out,
/// which the precondition leaves out.
#[verifier::external_body]
pub(crate) fn task_queue_new(capacity: usize) -> (queue: ArrayQueue<Task>)
    requires
        0 < capacity <= MAX_CAPACITY,
    ensures
        task_queue_items(queue) == Seq::<Task>::empty(),
        task_queue_limit(queue) == capacity,
{
    ArrayQueue::new(capacity)
}

/// `ArrayQueue::push`: appends `task` behind what the queue holds if there is
/// room; hands `task` back and leaves the queue as it was if it is full.
#[verifier::external_body]
pub(crate) fn task_queue_push(queue: &mut ArrayQueue<Task>, task: Task) -> (pushed: Result<(), Task>)
    ensures
        task_queue_limit(*final(queue)) == task_queue_limit(*old(queue)),
        task_queue_items(*old(queue)).len() < task_queue_limit(*old(queue)) ==> pushed is Ok,
        task_queue_items(*old(queue)).len() < task_queue_limit(*old(queue)) ==> task_queue_items(
            *final(queue),
        ) == task_queue_items(*old(queue)).push(task),
        task_queue_items(*old(queue)).len() >= task_queue_limit(*old(queue)) ==> pushed is Err
            && pushed->Err_0 == task,
        task_queue_items(*old(queue)).len() >= task_queue_limit(*old(queue)) ==> task_queue_items(
            *final(queue),
        ) == task_queue_items(*old(queue)),
{
    queue.push(task)
}

/// `ArrayQueue::pop`: takes out and returns the oldest task, or returns `None`
/// and changes nothing if the queue holds none.
#[verifier::external_body]
pub(crate) fn task_queue_pop(queue: &mut ArrayQueue<Task>) -> (popped: Option<Task>)
    ensures
        task_queue_limit(*final(queue)) == task_queue_limit(*old(queue)),
        task_queue_items(*old(queue)).len() == 0 ==> popped is None && task_queue_items(
            *final(queue),
        ) == task_queue_items(*old(queue)),
        task_queue_items(*old(queue)).len() > 0 ==> popped == Some(task_queue_items(*old(queue))[0])
            && task_queue_items(*final(queue)) == task_queue_items(*old(queue)).subrange(
            1,
            task_queue_items(*old(queue)).len() as int,
        ),
{
    queue.pop()
}

/// `ArrayQueue::len`: how many tasks the queue holds.
#[verifier::external_body]
pub(crate) fn task_queue_len(queue: &ArrayQueue<Task>) -> (len: usize)
    ensures
        len == task_queue_items(*queue).len(),
{
    queue.len()
}

/// `ArrayQueue::capacity`: the capacity that the queue was created with.
#[verifier::external_body]
pub(crate) fn task_queue_capacity(queue: &ArrayQueue<Task>) -> (capacity: usize)
    ensures
        capacity == task_queue_limit(*queue),
{
    queue.capacity()
}

/// The scancodes in a keyboard buffer, oldest first.
pub uninterp spec fn byte_queue_items(queue: ArrayQueue<u8>) -> Seq<u8>;

/// The capacity that a keyboard buffer was created with.
pub uninterp spec fn byte_queue_limit(queue: ArrayQueue<u8>) -> nat;

/// `ArrayQueue::new`: a queue of the given capacity that holds nothing. The
/// outside function panics on capacity zero and on one too large to lay out,
/// which the precondition leaves out.
#[verifier::external_body]
pub(crate) fn byte_queue_new(capacity: usize) -> (queue: ArrayQueue<u8>)
    requires
        0 < capacity <= MAX_CAPACITY,
    ensures
        byte_queue_items(queue) == Seq::<u8>::empty(),
        byte_queue_limit(queue) == capacity,
{
    ArrayQueue::new(capacity)
}

/// `ArrayQueue::push`: appends `byte` behind what the queue holds if there is
/// room; hands `byte` back and leaves the queue as it was if it is full.
#[verifier::external_body]
pub(crate) fn byte_queue_push(queue: &mut ArrayQueue<u8>, byte: u8) -> (pushed: Result<(), u8>)
    ensures
        byte_queue_limit(*final(queue)) == byte_queue_limit(*old(queue)),
        byte_queue_items(*old(queue)).len() < byte_queue_limit(*old(queue)) ==> pushed is Ok,
        byte_queue_items(*old(queue)).len() < byte_queue_limit(*old(queue)) ==> byte_queue_items(
            *final(queue),
        ) == byte_queue_items(*old(queue)).push(byte),
        byte_queue_items(*old(queue)).len() >= byte_queue_limit(*old(queue)) ==> pushed is Err
            && pushed->Err_0 == byte,
        byte_queue_items(*old(queue)).len() >= byte_queue_limit(*old(queue)) ==> byte_queue_items(
            *final(queue),
        ) == byte_queue_items(*old(queue)),
{
    queue.push(byte)
}

/// `ArrayQueue::pop`: takes out and returns the oldest scancode, or returns
/// `None` and changes nothing if the queue holds none.
#[verifier::external_body]
pub(crate) fn byte_queue_pop(queue: &mut ArrayQueue<u8>) -> (popped: Option<u8>)
    ensures
        byte_queue_limit(*final(queue)) == byte_queue_limit(*old(queue)),
        byte_queue_items(*old(queue)).len() == 0 ==> popped is None && byte_queue_items(
            *final(queue),
        ) == byte_queue_items(*old(queue)),
        byte_queue_items(*old(queue)).len() > 0 ==> popped == Some(byte_queue_items(*old(queue))[0])
            && byte_queue_items(*final(queue)) == byte_queue_items(*old(queue)).subrange(
            1,
            byte_queue_items(*old(queue)).len() as int,
        ),
{
    queue.pop()
}

/// `ArrayQueue::len`: how many scancodes the queue holds.
#[verifier::external_body]
pub(crate) fn byte_queue_len(queue: &ArrayQueue<u8>) -> (len: usize)
    ensures
        len == byte_queue_items(*queue).len(),
{
    queue.len()
}

/// `ArrayQueue::capacity`: the capacity that the queue was created with.
#[verifier::external_body]
pub(crate) fn byte_queue_capacity(queue: &ArrayQueue<u8>) -> (capacity: usize)
    ensures
        capacity == byte_queue_limit(*queue),
{
    queue.capacity()
}

} // verus!
