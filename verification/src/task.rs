//! Tasks: suspendable computations, their identifiers and their wakers.

use vstd::prelude::*;
use crate::task::clock::{decoded_time, print_time, RawTime, Timer, TimerState};

pub mod clock;
pub mod executor;
pub mod keyboard;

verus! {

/// Identifier of a task. Identifiers are handed out in increasing order by
/// [`TaskIds`]; the scheduler keeps at most one live task per identifier.
#[derive(Debug, Clone, Copy, PartialEq, Eq, Structural)]
pub struct TaskId(pub u64);

impl TaskId {
    /// The identifier as a plain number, as the queues and the registry hold it.
    pub fn as_u64(self) -> (n: u64)
        ensures
            n == self.0,
    {
        self.0
    }
}

/// The source of task identifiers: a counter that is created once at boot and
/// handed to whoever creates tasks.
pub struct TaskIds {
    next: u64,
}

impl TaskIds {
    /// The identifier that the next call of [`TaskIds::fresh`] returns.
    pub closed spec fn upcoming(&self) -> u64 {
        self.next
    }

    /// A counter that starts at identifier 0.
    pub fn new() -> (ids: TaskIds)
        ensures
            ids.upcoming() == 0,
    {
        TaskIds { next: 0 }
    }

    /// Hands out the upcoming identifier and moves the counter one up. After
    /// `u64::MAX` the counter starts over at 0; an identifier that is still
    /// live then is caught when the scheduler admits the task.
    pub fn fresh(&mut self) -> (id: TaskId)
        ensures
            id.0 == old(self).upcoming(),
            old(self).upcoming() < u64::MAX ==> final(self).upcoming() == old(self).upcoming() + 1,
            old(self).upcoming() == u64::MAX ==> final(self).upcoming() == 0,
    {
        let id: u64 = self.next;
        self.next = if id == u64::MAX { 0 } else { id + 1 };
        TaskId(id)
    }
}

/// The callback that makes a suspended task runnable again: it names the task
/// whose identifier is put on the wake queue when the waker is invoked.
#[derive(Debug, Clone, Copy, PartialEq, Eq, Structural)]
pub struct TaskWaker {
    pub task_id: TaskId,
}

impl TaskWaker {
    /// The waker of task `task_id`.
    pub fn new(task_id: TaskId) -> (waker: TaskWaker)
        ensures
            waker.task_id == task_id,
    {
        TaskWaker { task_id }
    }
}

/// What polling yields: a value, or the report that the caller is suspended
/// until its waker is invoked.
#[derive(Debug, PartialEq, Eq)]
pub enum Poll<T> {
    Ready(T),
    Pending,
}

/// What a task does between its suspensions.
#[derive(Debug, Clone, Copy, PartialEq, Eq, Structural)]
pub enum Job {
    /// Awaits that many time readings, one per valid clock edge, and is then
    /// complete. With 0 it is complete at its first poll.
    Await(u64),
    /// Awaits time readings for ever and has each one shown.
    PrintTime,
}

/// Where a task resumes when it is polled next.
#[derive(Debug, Clone, Copy, PartialEq, Eq, Structural)]
pub enum Resumption {
    /// At its beginning: the task has not been polled yet.
    Start,
    /// Inside the reactor, awaiting the next edge.
    AwaitingEdge,
}

/// What one poll of a task yielded.
#[derive(Debug, PartialEq, Eq)]
pub struct Polled {
    /// `Ready` if the task is complete, `Pending` if it is suspended.
    pub state: Poll<()>,
    /// The time reading that the task obtained in this poll, if any.
    pub reading: Option<(u8, u8, u8)>,
    /// Whether the reading is to be shown on the display: only the task that
    /// shows the time of day asks for that.
    pub show: bool,
}

/// A suspendable computation with its identifier and its resumption state.
#[derive(Debug, Clone, Copy, PartialEq, Eq, Structural)]
pub struct Task {
    pub id: TaskId,
    pub job: Job,
    pub resume: Resumption,
}

impl Task {
    /// The waker of the task.
    pub open spec fn waker(self) -> TaskWaker {
        TaskWaker { task_id: self.id }
    }

    /// Whether a poll of the task obtains a reading from a reactor in state
    /// `timer`.
    pub open spec fn reads(self, timer: TimerState) -> bool {
        timer.ready && self.job != Job::Await(0)
    }

    /// Whether a poll of the task, with the reactor in state `timer`,
    /// completes it.
    pub open spec fn completes(self, timer: TimerState) -> bool {
        self.job == Job::Await(0) || (self.job == Job::Await(1) && timer.ready)
    }

    /// What a poll of the task yields with the reactor in state `timer` and
    /// `raw` in the time registers.
    pub open spec fn polled(self, timer: TimerState, raw: RawTime) -> Polled {
        Polled {
            state: if self.completes(timer) { Poll::Ready(()) } else { Poll::Pending },
            reading: if self.reads(timer) { Some(decoded_time(raw)) } else { None },
            show: self.reads(timer) && self.job == Job::PrintTime,
        }
    }

    /// The task after a poll with the reactor in state `timer`: a reading
    /// obtained is taken off what it still awaits, and unless it is complete
    /// it resumes inside the reactor.
    pub open spec fn after_poll(self, timer: TimerState) -> Task {
        Task {
            id: self.id,
            job: match self.job {
                Job::Await(n) => if n > 0 && timer.ready { Job::Await((n - 1) as u64) } else { self.job },
                Job::PrintTime => Job::PrintTime,
            },
            resume: if self.job == Job::Await(0) { self.resume } else { Resumption::AwaitingEdge },
        }
    }

    /// The reactor after a poll of the task: untouched by a task that awaits
    /// nothing, left after the fast path by a task that got its last reading,
    /// and else with the task parked in it.
    pub open spec fn timer_after_poll(self, timer: TimerState) -> TimerState {
        if self.job == Job::Await(0) {
            timer
        } else if self.completes(timer) {
            timer.after_poll_next(self.waker())
        } else {
            timer.after_park(self.waker())
        }
    }

    /// A task that has not been polled yet.
    pub fn new(id: TaskId, job: Job) -> (task: Task)
        ensures
            task == (Task { id, job, resume: Resumption::Start }),
    {
        Task { id, job, resume: Resumption::Start }
    }

    /// Polls the task once: runs it from where it resumes until it completes
    /// or is suspended in the reactor. `raw` is what the caller read from the
    /// time registers; it is looked at only if the ready flag is set.
    pub fn poll(&mut self, timer: &mut Timer, raw: RawTime) -> (polled: Polled)
        requires
            old(timer).wf(),
        ensures
            final(timer).wf(),
            polled == old(self).polled(old(timer)@, raw),
            *final(self) == old(self).after_poll(old(timer)@),
            final(timer)@ == old(self).timer_after_poll(old(timer)@),
    {
        let waker: TaskWaker = TaskWaker::new(self.id);
        match self.job {
            Job::PrintTime => {
                let shown: Option<(u8, u8, u8)> = print_time(timer, waker, raw);
                self.resume = Resumption::AwaitingEdge;
                let show: bool = shown.is_some();
                Polled { state: Poll::Pending, reading: shown, show }
            },
            Job::Await(wanted) => {
                if wanted == 0 {
                    Polled { state: Poll::Ready(()), reading: None, show: false }
                } else {
                    self.resume = Resumption::AwaitingEdge;
                    match timer.poll_next(waker, raw) {
                        Poll::Ready(time) => {
                            self.job = Job::Await(wanted - 1);
                            if wanted == 1 {
                                Polled { state: Poll::Ready(()), reading: Some(time), show: false }
                            } else {
                                let again: Poll<(u8, u8, u8)> = timer.poll_next(waker, raw);
                                Polled { state: Poll::Pending, reading: Some(time), show: false }
                            }
                        },
                        Poll::Pending => {
                            assert(timer@ == old(timer)@.after_park(waker));
                            Polled { state: Poll::Pending, reading: None, show: false }
                        },
                    }
                }
            },
        }
    }
}

/// A task that awaits a number of readings gets one reading at most from a
/// poll, counts it off, and completes with the poll that leaves nothing to
/// await: it never yields more readings than it was made for. A task that
/// shows the time for ever never completes.
pub proof fn law_task_completes_with_its_last_reading(task: Task, timer: TimerState, raw: RawTime)
    ensures
        task.job matches Job::Await(wanted) ==> {
            &&& task.after_poll(timer).job == Job::Await(
                if task.reads(timer) { (wanted - 1) as u64 } else { wanted },
            )
            &&& task.reads(timer) ==> wanted > 0
            &&& task.polled(timer, raw).state is Ready <==> task.after_poll(timer).job == Job::Await(0)
        },
        task.job == Job::PrintTime ==> task.polled(timer, raw).state is Pending,
        task.polled(timer, raw).reading is Some <==> task.reads(timer),
        task.polled(timer, raw).show ==> task.job == Job::PrintTime && task.polled(
            timer,
            raw,
        ).reading is Some,
        task.polled(timer, raw).state is Pending ==> !task.timer_after_poll(timer).ready
            && task.timer_after_poll(timer).waker == Some(task.waker()),
{
}

} // verus!
