//! The scheduler: the task registry, the wake queue, the spawn queue and the
//! run loop's turn.

use vstd::prelude::*;
use std::collections::BTreeMap;
use crossbeam_queue::ArrayQueue;
use crate::queue::{
    id_queue_capacity, id_queue_is_empty, id_queue_items, id_queue_len, id_queue_limit,
    id_queue_new, id_queue_pop, id_queue_push, task_queue_items, task_queue_len,
    task_queue_limit, task_queue_new, task_queue_pop, task_queue_push, MAX_CAPACITY,
};
use crate::task::clock::{RawTime, Timer, TimerState};
use crate::task::{Poll, Polled, Resumption, Task, TaskId, TaskWaker};

verus! {

/// The capacity of the wake queue and the spawn queue of [`Executor::new`].
pub const QUEUE_CAPACITY: usize = 100;

/// Why the scheduler cannot take an operation. Each of these is fatal to the
/// kernel: the caller reports it and halts.
#[derive(Debug, Clone, Copy, PartialEq, Eq, Structural)]
pub enum SchedulerError {
    /// The spawn queue holds as many tasks as it has room for.
    SpawnQueueFull,
    /// The wake queue holds as many identifiers as it has room for.
    WakeQueueFull,
    /// A task with the same identifier is live.
    DuplicateTaskId,
}

/// What the processor does at the end of a turn of the run loop. The caller
/// has interrupts disabled when it asks, which closes the gap between the
/// look at the wake queue and the halt.
#[derive(Debug, Clone, Copy, PartialEq, Eq, Structural)]
pub enum IdleAction {
    /// The wake queue is empty: enable interrupts and halt in one step.
    Halt,
    /// The wake queue holds work: enable interrupts and go on.
    Resume,
}

/// An operation that reaches the scheduler from outside the run loop: a task
/// is spawned, or a waker is invoked.
pub enum Op {
    Spawn(Task),
    Wake(TaskId),
}

/// What a scheduler holds, as contracts see it.
pub struct ExecutorState {
    /// The registry: the live tasks by identifier.
    pub tasks: Map<u64, Task>,
    /// The wake queue, oldest entry first.
    pub wake_queue: Seq<u64>,
    /// The waker cache: the wakers built so far for live tasks.
    pub wakers: Map<u64, TaskWaker>,
    /// The spawn queue, oldest task first.
    pub spawn_queue: Seq<Task>,
    /// The capacity of the wake queue.
    pub capacity: nat,
    /// The capacity of the spawn queue, which is that of the wake queue.
    pub spawn_capacity: nat,
}

impl ExecutorState {
    /// Validity of a scheduler state. Both queues are within their capacity
    /// and the registry is finite. Every live task is registered under its
    /// own identifier, so no two live tasks share one. A cached waker belongs
    /// to a live task and names it. A live task that has not been polled yet
    /// is on the wake queue.
    pub open spec fn wf(self) -> bool {
        &&& 0 < self.capacity <= MAX_CAPACITY
        &&& self.spawn_capacity == self.capacity
        &&& self.wake_queue.len() <= self.capacity
        &&& self.spawn_queue.len() <= self.spawn_capacity
        &&& self.tasks.dom().finite()
        &&& self.wakers.dom().finite()
        &&& forall|id: u64| #[trigger]
            self.tasks.contains_key(id) ==> self.tasks[id].id == TaskId(id)
        &&& forall|id: u64| #[trigger]
            self.wakers.contains_key(id) ==> self.tasks.contains_key(id) && self.wakers[id] == (
            TaskWaker { task_id: TaskId(id) })
        &&& forall|id: u64| #[trigger]
            self.tasks.contains_key(id) && self.tasks[id].resume == Resumption::Start
                ==> self.wake_queue.contains(id)
    }

    /// Whether the task `id` is live.
    pub open spec fn is_live(self, id: TaskId) -> bool {
        self.tasks.contains_key(id.0)
    }

    /// Whether the wake queue has room for one more entry.
    pub open spec fn can_wake(self) -> bool {
        self.wake_queue.len() < self.capacity
    }

    /// Whether the spawn queue has room for one more task.
    pub open spec fn can_spawn(self) -> bool {
        self.spawn_queue.len() < self.spawn_capacity
    }

    /// The state after a wake signal for `id`.
    pub open spec fn after_wake(self, id: TaskId) -> ExecutorState {
        ExecutorState { wake_queue: self.wake_queue.push(id.0), ..self }
    }

    /// The state after `task` was put on the spawn queue.
    pub open spec fn after_spawn(self, task: Task) -> ExecutorState {
        ExecutorState { spawn_queue: self.spawn_queue.push(task), ..self }
    }

    /// Why `task` cannot be admitted in this state, if it cannot.
    pub open spec fn admit_fault(self, task: Task) -> Option<SchedulerError> {
        if self.tasks.contains_key(task.id.0) {
            Some(SchedulerError::DuplicateTaskId)
        } else if !self.can_wake() {
            Some(SchedulerError::WakeQueueFull)
        } else {
            None
        }
    }

    /// The state after `task` is admitted: it is registered and marked
    /// runnable by an entry on the wake queue.
    pub open spec fn after_admit(self, task: Task) -> ExecutorState {
        ExecutorState {
            tasks: self.tasks.insert(task.id.0, task),
            wake_queue: self.wake_queue.push(task.id.0),
            ..self
        }
    }

    /// The wake queue without its oldest entry.
    pub open spec fn rest(self) -> Seq<u64> {
        self.wake_queue.subrange(1, self.wake_queue.len() as int)
    }

    /// The outcome of handling the oldest wake queue entry, with the reactor
    /// in state `timer` and `raw` in the time registers. An entry for an
    /// identifier that is not live is dropped and nothing else happens. A
    /// live task gets its waker cached and is polled once; if that completes
    /// it, the task and its waker are removed.
    pub open spec fn poll_front(self, timer: TimerState, raw: RawTime) -> Drained {
        let id = self.wake_queue[0];
        if !self.tasks.contains_key(id) {
            Drained {
                executor: ExecutorState { wake_queue: self.rest(), ..self },
                timer,
                log: Seq::empty(),
            }
        } else {
            let task = self.tasks[id];
            let record = PollRecord { id: TaskId(id), polled: task.polled(timer, raw) };
            Drained {
                executor: if task.completes(timer) {
                    ExecutorState {
                        tasks: self.tasks.remove(id),
                        wake_queue: self.rest(),
                        wakers: self.wakers.remove(id),
                        ..self
                    }
                } else {
                    ExecutorState {
                        tasks: self.tasks.insert(id, task.after_poll(timer)),
                        wake_queue: self.rest(),
                        wakers: self.wakers.insert(id, TaskWaker { task_id: TaskId(id) }),
                        ..self
                    }
                },
                timer: task.timer_after_poll(timer),
                log: seq![record],
            }
        }
    }

    /// The outcome of handling the wake queue entry by entry, oldest first,
    /// until it is empty.
    pub open spec fn drained(self, timer: TimerState, raw: RawTime) -> Drained
        decreases self.wake_queue.len(),
    {
        if self.wake_queue.len() == 0 {
            Drained { executor: self, timer, log: Seq::empty() }
        } else {
            let first = self.poll_front(timer, raw);
            let then = first.executor.drained(first.timer, raw);
            Drained { executor: then.executor, timer: then.timer, log: first.log + then.log }
        }
    }

    /// The state with the oldest task taken off the spawn queue.
    pub open spec fn without_front_spawn(self) -> ExecutorState {
        ExecutorState {
            spawn_queue: self.spawn_queue.subrange(1, self.spawn_queue.len() as int),
            ..self
        }
    }

    /// The outcome of admitting the tasks of the spawn queue one by one,
    /// oldest first, up to the first that cannot be admitted. That task is
    /// taken off the queue too; those behind it stay.
    pub open spec fn admitted(self) -> Admitted
        decreases self.spawn_queue.len(),
    {
        if self.spawn_queue.len() == 0 {
            Admitted { executor: self, fault: None }
        } else {
            let task = self.spawn_queue[0];
            let taken = self.without_front_spawn();
            match taken.admit_fault(task) {
                Some(fault) => Admitted { executor: taken, fault: Some(fault) },
                None => taken.after_admit(task).admitted(),
            }
        }
    }

    /// The state after one operation from outside the run loop. A spawn or a
    /// wake signal that finds its queue full changes nothing here: it halts
    /// the kernel.
    pub open spec fn after_op(self, op: Op) -> ExecutorState {
        match op {
            Op::Spawn(task) => if self.can_spawn() {
                self.after_spawn(task)
            } else {
                self
            },
            Op::Wake(id) => if self.can_wake() {
                self.after_wake(id)
            } else {
                self
            },
        }
    }

    /// The state after the operations `ops`, taken in order.
    pub open spec fn after_ops(self, ops: Seq<Op>) -> ExecutorState
        decreases ops.len(),
    {
        if ops.len() == 0 {
            self
        } else {
            self.after_op(ops[0]).after_ops(ops.subrange(1, ops.len() as int))
        }
    }

    /// What the processor does when the run loop finds the scheduler in this
    /// state.
    pub open spec fn idle_action(self) -> IdleAction {
        if self.wake_queue.len() == 0 {
            IdleAction::Halt
        } else {
            IdleAction::Resume
        }
    }
}

/// One poll that the scheduler made: of which task, and what it yielded.
#[derive(Debug, PartialEq, Eq)]
pub struct PollRecord {
    pub id: TaskId,
    pub polled: Polled,
}

/// The outcome of working through the wake queue: the scheduler and the
/// reactor afterwards, and the polls made, in order.
pub struct Drained {
    pub executor: ExecutorState,
    pub timer: TimerState,
    pub log: Seq<PollRecord>,
}

/// The outcome of moving the spawn queue into the registry: the scheduler
/// afterwards and why it stopped early, if it did.
pub struct Admitted {
    pub executor: ExecutorState,
    pub fault: Option<SchedulerError>,
}

/// What one turn of the run loop did and what the processor does next.
pub struct Turn {
    /// The polls made, in order.
    pub polled: Vec<PollRecord>,
    /// Why a spawned task could not be admitted, if one could not.
    pub fault: Option<SchedulerError>,
    /// Whether to halt or to go on.
    pub idle: IdleAction,
}

/// The scheduler: registry, wake queue, waker cache and spawn queue.
pub struct Executor {
    tasks: BTreeMap<u64, Task>,
    task_queue: ArrayQueue<u64>,
    waker_cache: BTreeMap<u64, TaskWaker>,
    spawn_queue: ArrayQueue<Task>,
}

impl View for Executor {
    type V = ExecutorState;

    closed spec fn view(&self) -> ExecutorState {
        ExecutorState {
            tasks: self.tasks@,
            wake_queue: id_queue_items(self.task_queue),
            wakers: self.waker_cache@,
            spawn_queue: task_queue_items(self.spawn_queue),
            capacity: id_queue_limit(self.task_queue),
            spawn_capacity: task_queue_limit(self.spawn_queue),
        }
    }
}

/// A handle on the spawn queue of a scheduler. Any number of handles may
/// serve one scheduler: each reaches the queue through the scheduler that it
/// is handed when it spawns.
#[derive(Debug, Clone, Copy, PartialEq, Eq, Structural)]
pub struct Spawner {
    capacity: usize,
}

impl Spawner {
    /// The capacity of the spawn queue that the handle was made for.
    pub closed spec fn room(&self) -> nat {
        self.capacity as nat
    }

    /// A handle on the spawn queue of `executor`.
    pub fn new(executor: &Executor) -> (spawner: Spawner)
        requires
            executor.wf(),
        ensures
            spawner.room() == executor@.capacity,
    {
        Spawner { capacity: executor.capacity() }
    }

    /// The capacity of the spawn queue that the handle was made for.
    pub fn capacity(&self) -> (capacity: usize)
        ensures
            capacity == self.room(),
    {
        self.capacity
    }

    /// Puts `task` on the spawn queue of `executor`, behind those that wait
    /// there. A full spawn queue is fatal to the kernel and is left to the
    /// caller: [`Spawner::try_spawn`] tells.
    pub fn spawn(&mut self, executor: &mut Executor, task: Task)
        requires
            old(executor).wf(),
            old(executor)@.can_spawn(),
        ensures
            *final(self) == *old(self),
            final(executor).wf(),
            final(executor)@ == old(executor)@.after_spawn(task),
    {
        match task_queue_push(&mut executor.spawn_queue, task) {
            Ok(()) => {
                proof {
                    assert(executor@.wakers == old(executor)@.wakers);
                    assert(executor@.tasks == old(executor)@.tasks);
                }
            },
            Err(_) => unreached(),
        }
    }

    /// Puts `task` on the spawn queue of `executor` if there is room. Fails
    /// with `SpawnQueueFull`, changing nothing, exactly if the queue is full:
    /// a task is never dropped in silence, and the queue never grows beyond
    /// its capacity.
    pub fn try_spawn(&mut self, executor: &mut Executor, task: Task) -> (spawned: Result<
        (),
        SchedulerError,
    >)
        requires
            old(executor).wf(),
        ensures
            *final(self) == *old(self),
            final(executor).wf(),
            old(executor)@.can_spawn() ==> spawned is Ok && final(executor)@ == old(
                executor,
            )@.after_spawn(task),
            !old(executor)@.can_spawn() ==> spawned is Err && spawned->Err_0
                == SchedulerError::SpawnQueueFull && final(executor)@ == old(executor)@,
    {
        if executor.pending() < executor.capacity() {
            self.spawn(executor, task);
            Ok(())
        } else {
            Err(SchedulerError::SpawnQueueFull)
        }
    }
}

impl TaskWaker {
    /// Invokes the waker: sends the wake signal for its task to `executor`.
    /// A full wake queue is fatal to the kernel and is left to the caller:
    /// [`TaskWaker::try_wake_task`] tells.
    pub fn wake_task(&self, executor: &mut Executor)
        requires
            old(executor).wf(),
            old(executor)@.can_wake(),
        ensures
            final(executor).wf(),
            final(executor)@ == old(executor)@.after_wake(self.task_id),
    {
        executor.wake(self.task_id)
    }

    /// Invokes the waker if the wake queue of `executor` has room. Fails
    /// with `WakeQueueFull`, changing nothing, exactly if it is full.
    pub fn try_wake_task(&self, executor: &mut Executor) -> (woken: Result<(), SchedulerError>)
        requires
            old(executor).wf(),
        ensures
            final(executor).wf(),
            old(executor)@.can_wake() ==> woken is Ok && final(executor)@ == old(
                executor,
            )@.after_wake(self.task_id),
            !old(executor)@.can_wake() ==> woken is Err && woken->Err_0
                == SchedulerError::WakeQueueFull && final(executor)@ == old(executor)@,
    {
        executor.try_wake(self.task_id)
    }
}

impl Executor {
    /// Validity of a scheduler: that of its state.
    pub open spec fn wf(&self) -> bool {
        self@.wf()
    }

    /// A scheduler without tasks whose queues have room for
    /// [`QUEUE_CAPACITY`] entries.
    pub fn new() -> (executor: Executor)
        ensures
            executor.wf(),
            executor@.tasks == Map::<u64, Task>::empty(),
            executor@.wake_queue == Seq::<u64>::empty(),
            executor@.wakers == Map::<u64, TaskWaker>::empty(),
            executor@.spawn_queue == Seq::<Task>::empty(),
            executor@.capacity == QUEUE_CAPACITY,
    {
        Executor {
            tasks: BTreeMap::new(),
            task_queue: id_queue_new(QUEUE_CAPACITY),
            waker_cache: BTreeMap::new(),
            spawn_queue: task_queue_new(QUEUE_CAPACITY),
        }
    }

    /// A scheduler without tasks whose queues have room for `capacity`
    /// entries, or `None` if `capacity` is 0 or above [`MAX_CAPACITY`], which
    /// is more than the queues lay out up front.
    pub fn with_capacity(capacity: usize) -> (made: Option<Executor>)
        ensures
            made is Some <==> 0 < capacity <= MAX_CAPACITY,
            made matches Some(executor) ==> {
                &&& executor.wf()
                &&& executor@.tasks == Map::<u64, Task>::empty()
                &&& executor@.wake_queue == Seq::<u64>::empty()
                &&& executor@.wakers == Map::<u64, TaskWaker>::empty()
                &&& executor@.spawn_queue == Seq::<Task>::empty()
                &&& executor@.capacity == capacity
            },
    {
        if 0 < capacity && capacity <= MAX_CAPACITY {
            Some(
                Executor {
                    tasks: BTreeMap::new(),
                    task_queue: id_queue_new(capacity),
                    waker_cache: BTreeMap::new(),
                    spawn_queue: task_queue_new(capacity),
                },
            )
        } else {
            None
        }
    }

    /// The capacity of the wake queue and of the spawn queue.
    pub fn capacity(&self) -> (capacity: usize)
        ensures
            capacity == self@.capacity,
    {
        id_queue_capacity(&self.task_queue)
    }

    /// How many entries the wake queue holds.
    pub fn queued(&self) -> (len: usize)
        ensures
            len == self@.wake_queue.len(),
    {
        id_queue_len(&self.task_queue)
    }

    /// How many tasks wait on the spawn queue.
    pub fn pending(&self) -> (len: usize)
        ensures
            len == self@.spawn_queue.len(),
    {
        task_queue_len(&self.spawn_queue)
    }

    /// How many tasks are live.
    pub fn len(&self) -> (len: usize)
        requires
            self.wf(),
        ensures
            len == self@.tasks.dom().len(),
    {
        self.tasks.len()
    }

    /// Whether the task `id` is live.
    pub fn is_live(&self, id: TaskId) -> (live: bool)
        ensures
            live == self@.is_live(id),
    {
        self.tasks.contains_key(&id.0)
    }

    /// The live task `id`, if there is one.
    pub fn task(&self, id: TaskId) -> (found: Option<Task>)
        ensures
            found == (if self@.is_live(id) { Some(self@.tasks[id.0]) } else { None }),
    {
        match self.tasks.get(&id.0) {
            Some(task) => Some(*task),
            None => None,
        }
    }

    /// Whether a waker is cached for the task `id`.
    pub fn has_waker(&self, id: TaskId) -> (cached: bool)
        ensures
            cached == self@.wakers.contains_key(id.0),
    {
        self.waker_cache.contains_key(&id.0)
    }

    /// The wake signal for task `id`: puts the identifier on the wake queue,
    /// whether or not such a task is live. A full wake queue is fatal to the
    /// kernel and is left to the caller: [`Executor::try_wake`] tells.
    pub fn wake(&mut self, id: TaskId)
        requires
            old(self).wf(),
            old(self)@.can_wake(),
        ensures
            final(self).wf(),
            final(self)@ == old(self)@.after_wake(id),
    {
        match id_queue_push(&mut self.task_queue, id.0) {
            Ok(()) => {
                proof {
                    lemma_push_keeps(old(self)@.wake_queue, id.0);
                    assert(self@.wakers == old(self)@.wakers);
                    assert(self@.tasks == old(self)@.tasks);
                }
            },
            Err(_) => unreached(),
        }
    }

    /// The wake signal for task `id` if the wake queue has room. Fails with
    /// `WakeQueueFull`, changing nothing, exactly if it is full.
    pub fn try_wake(&mut self, id: TaskId) -> (woken: Result<(), SchedulerError>)
        requires
            old(self).wf(),
        ensures
            final(self).wf(),
            old(self)@.can_wake() ==> woken is Ok && final(self)@ == old(self)@.after_wake(id),
            !old(self)@.can_wake() ==> woken is Err && woken->Err_0
                == SchedulerError::WakeQueueFull && final(self)@ == old(self)@,
    {
        if self.queued() < self.capacity() {
            self.wake(id);
            Ok(())
        } else {
            Err(SchedulerError::WakeQueueFull)
        }
    }

    /// Admits `task`: registers it and marks it runnable. A task whose
    /// identifier is live and a full wake queue are fatal to the kernel and
    /// are left to the caller: [`Executor::try_spawn`] tells.
    pub fn spawn(&mut self, task: Task)
        requires
            old(self).wf(),
            !old(self)@.is_live(task.id),
            old(self)@.can_wake(),
        ensures
            final(self).wf(),
            final(self)@ == old(self)@.after_admit(task),
    {
        let id: u64 = task.id.0;
        match id_queue_push(&mut self.task_queue, id) {
            Ok(()) => {
                self.tasks.insert(id, task);
                proof {
                    lemma_push_keeps(old(self)@.wake_queue, id);
                    assert(self@.wakers == old(self)@.wakers);
                    assert(self@.tasks == old(self)@.tasks.insert(id, task));
                }
            },
            Err(_) => unreached(),
        }
    }

    /// Admits `task` if it can be admitted. Fails, changing nothing, with
    /// `DuplicateTaskId` exactly if a task with its identifier is live, and
    /// otherwise with `WakeQueueFull` exactly if the wake queue is full.
    pub fn try_spawn(&mut self, task: Task) -> (admitted: Result<(), SchedulerError>)
        requires
            old(self).wf(),
        ensures
            final(self).wf(),
            match old(self)@.admit_fault(task) {
                Some(fault) => admitted is Err && admitted->Err_0 == fault && final(self)@ == old(
                    self,
                )@,
                None => admitted is Ok && final(self)@ == old(self)@.after_admit(task),
            },
    {
        if self.tasks.contains_key(&task.id.0) {
            Err(SchedulerError::DuplicateTaskId)
        } else if self.queued() >= self.capacity() {
            Err(SchedulerError::WakeQueueFull)
        } else {
            self.spawn(task);
            Ok(())
        }
    }

    /// Works through the wake queue until it is empty. Each entry whose task
    /// is live has that task polled once, with its waker fetched from the
    /// cache or built and cached; a task that completes is removed with its
    /// waker, one that is suspended stays as the poll left it. An entry for
    /// an identifier that is not live is dropped without further ado.
    /// Returns the polls made, in order. `raw` is what the caller read from
    /// the time registers; it is looked at only if the ready flag is set.
    pub fn run_ready_tasks(&mut self, timer: &mut Timer, raw: RawTime) -> (log: Vec<PollRecord>)
        requires
            old(self).wf(),
            old(timer).wf(),
        ensures
            final(self).wf(),
            final(timer).wf(),
            final(self)@ == old(self)@.drained(old(timer)@, raw).executor,
            final(timer)@ == old(self)@.drained(old(timer)@, raw).timer,
            log@ == old(self)@.drained(old(timer)@, raw).log,
            final(self)@.wake_queue.len() == 0,
    {
        let mut log: Vec<PollRecord> = Vec::new();
        loop
            invariant
                self.wf(),
                timer.wf(),
                old(self)@.drained(old(timer)@, raw).executor == self@.drained(timer@, raw).executor,
                old(self)@.drained(old(timer)@, raw).timer == self@.drained(timer@, raw).timer,
                old(self)@.drained(old(timer)@, raw).log == log@ + self@.drained(timer@, raw).log,
            ensures
                self@.wake_queue.len() == 0,
            decreases self@.wake_queue.len(),
        {
            let ghost before = self@;
            let ghost timer_before = timer@;
            let popped: Option<u64> = id_queue_pop(&mut self.task_queue);
            match popped {
                None => {
                    break ;
                },
                Some(id) => {
                    proof {
                        lemma_poll_front_wf(before, timer_before, raw);
                    }
                    match self.tasks.remove(&id) {
                        None => {
                            assert(self@.tasks =~= before.tasks);
                            assert(self@ == before.poll_front(timer_before, raw).executor);
                            assert(log@ + Seq::<PollRecord>::empty() == log@);
                        },
                        Some(task) => {
                            let mut task: Task = task;
                            let polled: Polled = task.poll(timer, raw);
                            match polled.state {
                                Poll::Ready(_) => {
                                    self.waker_cache.remove(&id);
                                },
                                Poll::Pending => {
                                    if !self.waker_cache.contains_key(&id) {
                                        self.waker_cache.insert(id, TaskWaker::new(TaskId(id)));
                                    }
                                    self.tasks.insert(id, task);
                                },
                            }
                            let record: PollRecord = PollRecord { id: TaskId(id), polled };
                            log.push(record);
                            proof {
                                let first = before.poll_front(timer_before, raw);
                                assert(self@.tasks == first.executor.tasks);
                                assert(self@.wakers == first.executor.wakers);
                                assert(self@ == first.executor);
                                let then = first.executor.drained(first.timer, raw);
                                assert((log@.drop_last() + seq![record]) + then.log == log@.drop_last()
                                    + (seq![record] + then.log));
                                assert(log@ == log@.drop_last() + seq![record]);
                            }
                        },
                    }
                },
            }
        }
        log
    }

    /// Moves the tasks on the spawn queue into the registry, oldest first:
    /// each is admitted as [`Executor::try_spawn`] does. Stops at the first
    /// task that cannot be admitted and returns why; that task is gone from
    /// the queue, those behind it stay on it.
    pub fn admit_spawned(&mut self) -> (fault: Option<SchedulerError>)
        requires
            old(self).wf(),
        ensures
            final(self).wf(),
            final(self)@ == old(self)@.admitted().executor,
            fault == old(self)@.admitted().fault,
    {
        let mut fault: Option<SchedulerError> = None;
        loop
            invariant_except_break
                fault is None,
                old(self)@.admitted() == self@.admitted(),
            invariant
                self.wf(),
            ensures
                old(self)@.admitted() == (Admitted { executor: self@, fault }),
            decreases self@.spawn_queue.len(),
        {
            let ghost before = self@;
            let popped: Option<Task> = task_queue_pop(&mut self.spawn_queue);
            proof {
                assert(self@.wakers == before.wakers);
                assert(self@.tasks == before.tasks);
            }
            match popped {
                None => {
                    assert(self@ == before);
                    break ;
                },
                Some(task) => {
                    assert(self@ == before.without_front_spawn());
                    match self.try_spawn(task) {
                        Ok(()) => {},
                        Err(why) => {
                            fault = Some(why);
                            break ;
                        },
                    }
                },
            }
        }
        fault
    }

    /// One turn of the run loop, which the caller repeats for ever: works
    /// through the wake queue, then admits what is on the spawn queue, then
    /// decides whether the processor halts. The caller has interrupts
    /// disabled during the turn and enables them as `idle` says; on a
    /// `fault` it halts for good.
    pub fn run(&mut self, timer: &mut Timer, raw: RawTime) -> (turn: Turn)
        requires
            old(self).wf(),
            old(timer).wf(),
        ensures
            final(self).wf(),
            final(timer).wf(),
            turn.polled@ == old(self)@.drained(old(timer)@, raw).log,
            final(timer)@ == old(self)@.drained(old(timer)@, raw).timer,
            final(self)@ == old(self)@.drained(old(timer)@, raw).executor.admitted().executor,
            turn.fault == old(self)@.drained(old(timer)@, raw).executor.admitted().fault,
            turn.idle == final(self)@.idle_action(),
    {
        let polled: Vec<PollRecord> = self.run_ready_tasks(timer, raw);
        let fault: Option<SchedulerError> = self.admit_spawned();
        let idle: IdleAction = self.sleep_if_idle();
        Turn { polled, fault, idle }
    }

    /// The decision at the end of a turn: halt if the wake queue is empty,
    /// go on if not. The caller disables interrupts before it asks and
    /// enables them again as the answer says.
    pub fn sleep_if_idle(&self) -> (action: IdleAction)
        ensures
            action == self@.idle_action(),
    {
        if id_queue_is_empty(&self.task_queue) {
            IdleAction::Halt
        } else {
            IdleAction::Resume
        }
    }
}

/// Handling the oldest wake queue entry keeps a valid scheduler and a valid
/// reactor valid, and leaves the spawn queue alone.
pub proof fn lemma_poll_front_wf(state: ExecutorState, timer: TimerState, raw: RawTime)
    requires
        state.wf(),
        timer.wf(),
        state.wake_queue.len() > 0,
    ensures
        state.poll_front(timer, raw).executor.wf(),
        state.poll_front(timer, raw).timer.wf(),
        state.poll_front(timer, raw).executor.spawn_queue == state.spawn_queue,
{
    let id = state.wake_queue[0];
    let after = state.poll_front(timer, raw).executor;
    assert forall|other: u64| #[trigger]
        after.tasks.contains_key(other) && after.tasks[other].resume
            == Resumption::Start implies after.wake_queue.contains(other) by {
        assert(state.tasks.contains_key(other));
        assert(other != id);
        assert(state.wake_queue.contains(other));
        let i = choose|i: int| 0 <= i < state.wake_queue.len() && state.wake_queue[i] == other;
        assert(after.wake_queue[i - 1] == other);
    }
}

/// Working through the wake queue keeps a valid scheduler and a valid reactor
/// valid, leaves the wake queue empty and leaves the spawn queue alone.
pub proof fn lemma_drained_wf(state: ExecutorState, timer: TimerState, raw: RawTime)
    requires
        state.wf(),
        timer.wf(),
    ensures
        state.drained(timer, raw).executor.wf(),
        state.drained(timer, raw).timer.wf(),
        state.drained(timer, raw).executor.wake_queue.len() == 0,
        state.drained(timer, raw).executor.spawn_queue == state.spawn_queue,
    decreases state.wake_queue.len(),
{
    if state.wake_queue.len() > 0 {
        lemma_poll_front_wf(state, timer, raw);
        let first = state.poll_front(timer, raw);
        lemma_drained_wf(first.executor, first.timer, raw);
    }
}

/// Working through the wake queue polls live tasks only and adds none: every
/// poll is of a task that was live before, and every task live afterwards
/// was live before.
pub proof fn lemma_drained_within_registry(state: ExecutorState, timer: TimerState, raw: RawTime)
    ensures
        forall|i: int|
            0 <= i < state.drained(timer, raw).log.len() ==> state.is_live(
                (#[trigger] state.drained(timer, raw).log[i]).id,
            ),
        forall|id: u64| #[trigger]
            state.drained(timer, raw).executor.tasks.contains_key(id)
                ==> state.tasks.contains_key(id),
    decreases state.wake_queue.len(),
{
    if state.wake_queue.len() > 0 {
        let first = state.poll_front(timer, raw);
        lemma_drained_within_registry(first.executor, first.timer, raw);
        let then = first.executor.drained(first.timer, raw);
        assert forall|i: int| 0 <= i < state.drained(timer, raw).log.len() implies state.is_live(
            (#[trigger] state.drained(timer, raw).log[i]).id,
        ) by {
            if i >= first.log.len() {
                assert(state.drained(timer, raw).log[i] == then.log[i - first.log.len()]);
                assert(first.executor.is_live(then.log[i - first.log.len()].id));
            }
        }
        assert forall|id: u64| #[trigger]
            state.drained(timer, raw).executor.tasks.contains_key(id) implies state.tasks.contains_key(
            id,
        ) by {
            assert(first.executor.tasks.contains_key(id));
        }
    }
}

/// Every wake queue entry for a live task has that task polled: a task that
/// is live and on the wake queue is polled when the queue is worked through.
pub proof fn law_queued_task_is_polled(
    state: ExecutorState,
    timer: TimerState,
    raw: RawTime,
    id: TaskId,
)
    requires
        state.is_live(id),
        state.wake_queue.contains(id.0),
    ensures
        exists|i: int|
            0 <= i < state.drained(timer, raw).log.len() && (#[trigger] state.drained(
                timer,
                raw,
            ).log[i]).id == id,
    decreases state.wake_queue.len(),
{
    let first = state.poll_front(timer, raw);
    let then = first.executor.drained(first.timer, raw);
    let log = state.drained(timer, raw).log;
    if state.wake_queue[0] == id.0 {
        assert(log[0].id == id);
    } else {
        let at = choose|at: int| 0 <= at < state.wake_queue.len() && state.wake_queue[at] == id.0;
        assert(first.executor.wake_queue[at - 1] == id.0);
        law_queued_task_is_polled(first.executor, first.timer, raw, id);
        let i = choose|i: int| 0 <= i < then.log.len() && (#[trigger] then.log[i]).id == id;
        assert(log[first.log.len() + i] == then.log[i]);
    }
}

/// Every admitted task is polled at least once: a task that was admitted is
/// live and on the wake queue, where [`law_queued_task_is_polled`] finds it,
/// and in a valid scheduler, whatever was spawned or woken since, a live task
/// that has not been polled yet is still on the wake queue. After the queue
/// has been worked through no live task is left unpolled.
pub proof fn law_spawned_task_is_polled(
    state: ExecutorState,
    task: Task,
    timer: TimerState,
    raw: RawTime,
    id: TaskId,
)
    requires
        state.wf(),
        timer.wf(),
    ensures
        state.admit_fault(task) is None ==> state.after_admit(task).wf() && state.after_admit(
            task,
        ).is_live(task.id) && state.after_admit(task).wake_queue.contains(task.id.0),
        state.is_live(id) && state.tasks[id.0].resume == Resumption::Start
            ==> state.wake_queue.contains(id.0),
        state.drained(timer, raw).executor.is_live(id) ==> state.drained(
            timer,
            raw,
        ).executor.tasks[id.0].resume != Resumption::Start,
{
    lemma_push_keeps(state.wake_queue, task.id.0);
    lemma_drained_wf(state, timer, raw);
    let after = state.drained(timer, raw).executor;
    if after.is_live(id) && after.tasks[id.0].resume == Resumption::Start {
        assert(after.wake_queue.contains(id.0));
    }
}

/// Spawning and waking keep a valid scheduler valid, remove no task, change
/// none that is live, take nothing off the wake queue and leave every task
/// that waits on the spawn queue in its place.
pub proof fn lemma_ops_keep(state: ExecutorState, ops: Seq<Op>, id: TaskId)
    requires
        state.wf(),
    ensures
        state.after_ops(ops).wf(),
        state.is_live(id) ==> state.after_ops(ops).is_live(id) && state.after_ops(ops).tasks[id.0]
            == state.tasks[id.0],
        state.wake_queue.contains(id.0) ==> state.after_ops(ops).wake_queue.contains(id.0),
        state.spawn_queue.len() <= state.after_ops(ops).spawn_queue.len(),
        forall|at: int|
            0 <= at < state.spawn_queue.len() ==> #[trigger] state.after_ops(ops).spawn_queue[at]
                == state.spawn_queue[at],
    decreases ops.len(),
{
    if ops.len() > 0 {
        let next = state.after_op(ops[0]);
        match ops[0] {
            Op::Spawn(task) => {},
            Op::Wake(woken) => {
                lemma_push_keeps(state.wake_queue, woken.0);
            },
        }
        lemma_ops_keep(next, ops.subrange(1, ops.len() as int), id);
        assert forall|at: int| 0 <= at < state.spawn_queue.len() implies #[trigger] state.after_ops(
            ops,
        ).spawn_queue[at] == state.spawn_queue[at] by {
            assert(next.spawn_queue[at] == state.spawn_queue[at]);
        }
    }
}

/// Admitting the spawn queue keeps a valid scheduler valid, removes no task,
/// changes none that is live and takes nothing off the wake queue.
pub proof fn lemma_admitted_keeps(state: ExecutorState, id: TaskId)
    requires
        state.wf(),
    ensures
        state.admitted().executor.wf(),
        state.admitted().fault is None ==> state.admitted().executor.spawn_queue.len() == 0,
        state.is_live(id) ==> state.admitted().executor.is_live(id) && state.admitted().executor.tasks[id.0]
            == state.tasks[id.0],
        state.wake_queue.contains(id.0) ==> state.admitted().executor.wake_queue.contains(id.0),
    decreases state.spawn_queue.len(),
{
    if state.spawn_queue.len() > 0 {
        let task = state.spawn_queue[0];
        let taken = state.without_front_spawn();
        if taken.admit_fault(task) is None {
            lemma_push_keeps(taken.wake_queue, task.id.0);
            lemma_admitted_keeps(taken.after_admit(task), id);
        }
    }
}

/// Every task on the spawn queue is live and on the wake queue once the queue
/// has been admitted without a fault, as the task that was spawned.
pub proof fn law_admitted_task_is_runnable(state: ExecutorState, at: int)
    requires
        state.wf(),
        state.admitted().fault is None,
        0 <= at < state.spawn_queue.len(),
    ensures
        state.admitted().executor.wf(),
        state.admitted().executor.is_live(state.spawn_queue[at].id),
        state.admitted().executor.tasks[state.spawn_queue[at].id.0] == state.spawn_queue[at],
        state.admitted().executor.wake_queue.contains(state.spawn_queue[at].id.0),
    decreases state.spawn_queue.len(),
{
    let task = state.spawn_queue[0];
    let taken = state.without_front_spawn();
    let next = taken.after_admit(task);
    lemma_push_keeps(taken.wake_queue, task.id.0);
    if at == 0 {
        lemma_admitted_keeps(next, task.id);
    } else {
        assert(next.spawn_queue[at - 1] == state.spawn_queue[at]);
        law_admitted_task_is_runnable(next, at - 1);
    }
}

/// For any interleaving of spawns and wake signals, a spawned task is polled.
/// Whatever operations come before the spawn, between the spawn and the turn
/// that admits the spawn queue, and after that turn, the scheduler stays
/// valid, the task is live and on the wake queue at the end, and the next
/// pass over the wake queue polls it.
pub proof fn law_any_interleaving_polls_spawned_task(
    state: ExecutorState,
    before: Seq<Op>,
    task: Task,
    between: Seq<Op>,
    after: Seq<Op>,
    timer: TimerState,
    raw: RawTime,
    next_timer: TimerState,
    next_raw: RawTime,
)
    requires
        state.wf(),
        timer.wf(),
        state.after_ops(before).can_spawn(),
        state.after_ops(before).after_spawn(task).after_ops(between).drained(
            timer,
            raw,
        ).executor.admitted().fault is None,
    ensures
        ({
            let turned = state.after_ops(before).after_spawn(task).after_ops(between).drained(
                timer,
                raw,
            ).executor.admitted().executor;
            let end = turned.after_ops(after);
            &&& end.wf()
            &&& end.is_live(task.id)
            &&& end.tasks[task.id.0] == task
            &&& end.wake_queue.contains(task.id.0)
            &&& exists|i: int|
                0 <= i < end.drained(next_timer, next_raw).log.len() && (#[trigger] end.drained(
                    next_timer,
                    next_raw,
                ).log[i]).id == task.id
        }),
{
    let ready = state.after_ops(before);
    let at = ready.spawn_queue.len() as int;
    let spawned = ready.after_spawn(task);
    lemma_ops_keep(state, before, task.id);
    assert(spawned.wf());
    assert(spawned.spawn_queue[at] == task);
    let waiting = spawned.after_ops(between);
    lemma_ops_keep(spawned, between, task.id);
    assert(waiting.spawn_queue[at] == task);
    let drained = waiting.drained(timer, raw).executor;
    lemma_drained_wf(waiting, timer, raw);
    law_admitted_task_is_runnable(drained, at);
    let turned = drained.admitted().executor;
    lemma_ops_keep(turned, after, task.id);
    law_queued_task_is_polled(turned.after_ops(after), next_timer, next_raw, task.id);
}

/// Once a task has signalled completion it is never polled again: in the
/// polls of one pass over the wake queue, none that follows a completing
/// poll is of the same task, and that task is not live after the pass.
pub proof fn law_completed_task_is_not_polled_again(
    state: ExecutorState,
    timer: TimerState,
    raw: RawTime,
    i: int,
    j: int,
)
    requires
        0 <= i < state.drained(timer, raw).log.len(),
        state.drained(timer, raw).log[i].polled.state is Ready,
    ensures
        i < j < state.drained(timer, raw).log.len() ==> state.drained(timer, raw).log[j].id
            != state.drained(timer, raw).log[i].id,
        !state.drained(timer, raw).executor.is_live(state.drained(timer, raw).log[i].id),
    decreases state.wake_queue.len(),
{
    let first = state.poll_front(timer, raw);
    let then = first.executor.drained(first.timer, raw);
    let log = state.drained(timer, raw).log;
    let skipped = first.log.len() as int;
    if i < skipped {
        lemma_drained_within_registry(first.executor, first.timer, raw);
        if i < j < log.len() {
            assert(log[j] == then.log[j - skipped]);
            assert(first.executor.is_live(then.log[j - skipped].id));
        }
    } else {
        assert(log[i] == then.log[i - skipped]);
        law_completed_task_is_not_polled_again(first.executor, first.timer, raw, i - skipped, j - skipped);
        if i < j < log.len() {
            assert(log[j] == then.log[j - skipped]);
        }
    }
}

/// No two live tasks share an identifier: the registry holds every live task
/// under its own identifier. A task whose identifier is live cannot be
/// admitted, and an identifier is free again once its task has been removed.
pub proof fn law_live_task_ids_are_unique(state: ExecutorState, a: u64, b: u64, task: Task)
    requires
        state.wf(),
    ensures
        state.tasks.contains_key(a) && state.tasks.contains_key(b) && state.tasks[a].id
            == state.tasks[b].id ==> a == b,
        state.admit_fault(task) == Some(SchedulerError::DuplicateTaskId) <==> state.is_live(task.id),
        !state.is_live(task.id) && state.can_wake() ==> state.admit_fault(task) is None,
        state.admit_fault(task) is None ==> state.after_admit(task).tasks.dom().len()
            == state.tasks.dom().len() + 1,
{
}

/// What a sequence held before a push it holds after it.
pub proof fn lemma_push_keeps(queue: Seq<u64>, id: u64)
    ensures
        forall|other: u64| queue.contains(other) ==> #[trigger] queue.push(id).contains(other),
        queue.push(id).contains(id),
{
    assert forall|other: u64| queue.contains(other) implies #[trigger] queue.push(id).contains(
        other,
    ) by {
        let i = choose|i: int| 0 <= i < queue.len() && queue[i] == other;
        assert(queue.push(id)[i] == other);
    }
    assert(queue.push(id)[queue.len() as int] == id);
}

} // verus!
