use ost::interrupts::clock_edge;
use ost::task::clock::{tick, RawTime, Timer};
use ost::task::executor::{
    Executor, IdleAction, PollRecord, SchedulerError, Spawner, Turn, QUEUE_CAPACITY,
};
use ost::task::{Job, Poll, Polled, Resumption, Task, TaskId, TaskIds, TaskWaker};

const EDGE: u8 = 0x00;

fn raw(hours: u8, minutes: u8, seconds: u8) -> RawTime {
    RawTime { hours, minutes, seconds }
}

fn nothing() -> RawTime {
    raw(0, 0, 0)
}

fn ids_of(log: &[PollRecord]) -> Vec<u64> {
    let mut ids = Vec::new();
    for record in log {
        ids.push(record.id.0);
    }
    ids
}

fn pending(reading: Option<(u8, u8, u8)>) -> Polled {
    Polled { state: Poll::Pending, reading, show: false }
}

fn ready(reading: Option<(u8, u8, u8)>) -> Polled {
    Polled { state: Poll::Ready(()), reading, show: false }
}

#[test]
fn task_ids_count_up_from_zero() {
    let mut ids = TaskIds::new();
    assert_eq!(ids.fresh(), TaskId(0));
    assert_eq!(ids.fresh(), TaskId(1));
    assert_eq!(ids.fresh(), TaskId(2));
    assert_eq!(TaskId(7).as_u64(), 7);
}

#[test]
fn new_task_starts_unpolled() {
    let task = Task::new(TaskId(4), Job::Await(2));
    assert_eq!(task, Task { id: TaskId(4), job: Job::Await(2), resume: Resumption::Start });
}

#[test]
fn waker_names_its_task() {
    assert_eq!(TaskWaker::new(TaskId(8)).task_id, TaskId(8));
}

#[test]
fn new_executor_is_empty_and_idle() {
    let executor = Executor::new();
    assert_eq!(executor.capacity(), QUEUE_CAPACITY);
    assert_eq!(executor.capacity(), 100);
    assert_eq!(executor.queued(), 0);
    assert!(!executor.is_live(TaskId(0)));
    assert_eq!(executor.sleep_if_idle(), IdleAction::Halt);
}

#[test]
fn executor_capacity_must_be_positive_and_bounded() {
    assert!(Executor::with_capacity(0).is_none());
    assert!(Executor::with_capacity(65537).is_none());
    assert_eq!(Executor::with_capacity(1).unwrap().capacity(), 1);
    assert_eq!(Executor::with_capacity(65536).unwrap().capacity(), 65536);
}

#[test]
fn spawner_takes_the_capacity_of_its_executor() {
    let executor = Executor::with_capacity(3).unwrap();
    let spawner = Spawner::new(&executor);
    assert_eq!(spawner.capacity(), 3);
    assert_eq!(executor.pending(), 0);
}

#[test]
fn spawn_queue_rejects_the_task_after_the_last_that_fits() {
    let mut executor = Executor::new();
    let mut spawner = Spawner::new(&executor);
    let mut ids = TaskIds::new();
    for _ in 0..QUEUE_CAPACITY {
        assert!(executor.pending() < executor.capacity());
        spawner.spawn(&mut executor, Task::new(ids.fresh(), Job::Await(0)));
    }
    assert_eq!(executor.pending(), QUEUE_CAPACITY);
    assert_eq!(
        spawner.try_spawn(&mut executor, Task::new(ids.fresh(), Job::Await(0))),
        Err(SchedulerError::SpawnQueueFull)
    );
    assert_eq!(executor.pending(), QUEUE_CAPACITY);
}

#[test]
fn rejected_spawn_leaves_the_queue_as_it_was() {
    let mut executor = Executor::with_capacity(2).unwrap();
    let mut spawner = Spawner::new(&executor);
    let mut timer = Timer::new();
    assert_eq!(spawner.try_spawn(&mut executor, Task::new(TaskId(10), Job::Await(0))), Ok(()));
    assert_eq!(spawner.try_spawn(&mut executor, Task::new(TaskId(11), Job::Await(0))), Ok(()));
    assert_eq!(
        spawner.try_spawn(&mut executor, Task::new(TaskId(12), Job::Await(0))),
        Err(SchedulerError::SpawnQueueFull)
    );
    let turn = executor.run(&mut timer, nothing());
    assert_eq!(turn.fault, None);
    assert!(executor.is_live(TaskId(10)));
    assert!(executor.is_live(TaskId(11)));
    assert!(!executor.is_live(TaskId(12)));
    assert_eq!(executor.pending(), 0);
    assert_eq!(executor.len(), 2);
}

#[test]
fn several_spawners_serve_one_executor() {
    let mut executor = Executor::new();
    let mut first = Spawner::new(&executor);
    let mut second = Spawner::new(&executor);
    let mut timer = Timer::new();
    first.spawn(&mut executor, Task::new(TaskId(1), Job::PrintTime));
    second.spawn(&mut executor, Task::new(TaskId(2), Job::PrintTime));
    first.spawn(&mut executor, Task::new(TaskId(3), Job::PrintTime));
    assert_eq!(executor.pending(), 3);
    let turn = executor.run(&mut timer, nothing());
    assert_eq!(turn.fault, None);
    assert_eq!(executor.len(), 3);
    let turn = executor.run(&mut timer, nothing());
    assert_eq!(ids_of(&turn.polled), vec![1, 2, 3]);
}

#[test]
fn admitted_task_is_live_and_runnable() {
    let mut executor = Executor::new();
    let task = Task::new(TaskId(1), Job::PrintTime);
    executor.spawn(task);
    assert!(executor.is_live(TaskId(1)));
    assert_eq!(executor.task(TaskId(1)), Some(task));
    assert_eq!(executor.queued(), 1);
    assert_eq!(executor.len(), 1);
    assert!(!executor.has_waker(TaskId(1)));
    assert_eq!(executor.sleep_if_idle(), IdleAction::Resume);
}

#[test]
fn duplicate_identifier_is_refused() {
    let mut executor = Executor::new();
    assert_eq!(executor.try_spawn(Task::new(TaskId(1), Job::PrintTime)), Ok(()));
    assert_eq!(
        executor.try_spawn(Task::new(TaskId(1), Job::Await(3))),
        Err(SchedulerError::DuplicateTaskId)
    );
    assert_eq!(executor.task(TaskId(1)), Some(Task::new(TaskId(1), Job::PrintTime)));
    assert_eq!(executor.queued(), 1);
    assert_eq!(executor.len(), 1);
}

#[test]
fn identifier_is_free_again_after_removal() {
    let mut executor = Executor::new();
    let mut timer = Timer::new();
    executor.spawn(Task::new(TaskId(1), Job::Await(0)));
    let log = executor.run_ready_tasks(&mut timer, nothing());
    assert_eq!(ids_of(&log), vec![1]);
    assert!(!executor.is_live(TaskId(1)));
    assert_eq!(executor.len(), 0);
    assert_eq!(executor.try_spawn(Task::new(TaskId(1), Job::Await(0))), Ok(()));
    assert!(executor.is_live(TaskId(1)));
}

#[test]
fn admission_fails_when_the_wake_queue_is_full() {
    let mut executor = Executor::with_capacity(1).unwrap();
    executor.wake(TaskId(50));
    assert_eq!(
        executor.try_spawn(Task::new(TaskId(1), Job::Await(0))),
        Err(SchedulerError::WakeQueueFull)
    );
    assert!(!executor.is_live(TaskId(1)));
    assert_eq!(executor.queued(), 1);
}

#[test]
fn wake_queue_overflow_is_reported() {
    let mut executor = Executor::with_capacity(2).unwrap();
    executor.wake(TaskId(1));
    TaskWaker::new(TaskId(2)).wake_task(&mut executor);
    assert_eq!(executor.queued(), 2);
    assert_eq!(executor.try_wake(TaskId(3)), Err(SchedulerError::WakeQueueFull));
    assert_eq!(
        TaskWaker::new(TaskId(3)).try_wake_task(&mut executor),
        Err(SchedulerError::WakeQueueFull)
    );
    assert_eq!(executor.queued(), 2);
}

#[test]
fn wake_with_room_appends_the_identifier() {
    let mut executor = Executor::with_capacity(2).unwrap();
    assert_eq!(executor.try_wake(TaskId(1)), Ok(()));
    assert_eq!(TaskWaker::new(TaskId(2)).try_wake_task(&mut executor), Ok(()));
    assert_eq!(executor.queued(), 2);
}

#[test]
fn wake_for_an_unknown_task_is_ignored() {
    let mut executor = Executor::new();
    let mut timer = Timer::new();
    executor.wake(TaskId(77));
    assert_eq!(executor.queued(), 1);
    let log = executor.run_ready_tasks(&mut timer, nothing());
    assert!(log.is_empty());
    assert_eq!(executor.queued(), 0);
    assert!(!executor.is_live(TaskId(77)));
}

#[test]
fn wake_queue_is_worked_through_in_arrival_order() {
    let mut executor = Executor::new();
    let mut timer = Timer::new();
    for id in [3u64, 1, 2] {
        executor.spawn(Task::new(TaskId(id), Job::Await(5)));
    }
    let log = executor.run_ready_tasks(&mut timer, nothing());
    assert_eq!(ids_of(&log), vec![3, 1, 2]);
    assert_eq!(executor.queued(), 0);
}

#[test]
fn every_spawned_task_is_polled() {
    let mut executor = Executor::new();
    let mut spawner = Spawner::new(&executor);
    let mut timer = Timer::new();
    let mut ids = TaskIds::new();
    for _ in 0..5 {
        spawner.spawn(&mut executor, Task::new(ids.fresh(), Job::Await(1)));
    }
    let first = executor.run(&mut timer, nothing());
    assert!(first.polled.is_empty());
    assert_eq!(first.idle, IdleAction::Resume);
    for id in 0..5u64 {
        assert_eq!(executor.task(TaskId(id)).unwrap().resume, Resumption::Start);
    }
    let second = executor.run(&mut timer, nothing());
    assert_eq!(ids_of(&second.polled), vec![0, 1, 2, 3, 4]);
    for id in 0..5u64 {
        assert_eq!(executor.task(TaskId(id)).unwrap().resume, Resumption::AwaitingEdge);
        assert!(executor.has_waker(TaskId(id)));
    }
    assert_eq!(second.idle, IdleAction::Halt);
}

#[test]
fn completed_task_is_removed_with_its_waker_and_not_polled_again() {
    let mut executor = Executor::new();
    let mut timer = Timer::new();
    executor.spawn(Task::new(TaskId(1), Job::Await(1)));
    executor.wake(TaskId(1));
    executor.wake(TaskId(1));
    tick(&mut timer, EDGE);
    let log = executor.run_ready_tasks(&mut timer, raw(0x11, 0x22, 0x33));
    assert_eq!(
        log,
        vec![PollRecord { id: TaskId(1), polled: ready(Some((2, 4, 6))) }]
    );
    assert!(!executor.is_live(TaskId(1)));
    assert!(!executor.has_waker(TaskId(1)));
    executor.wake(TaskId(1));
    assert!(executor.run_ready_tasks(&mut timer, nothing()).is_empty());
}

#[test]
fn suspended_task_stays_until_it_is_woken() {
    let mut executor = Executor::new();
    let mut timer = Timer::new();
    executor.spawn(Task::new(TaskId(1), Job::PrintTime));
    let log = executor.run_ready_tasks(&mut timer, nothing());
    assert_eq!(log, vec![PollRecord { id: TaskId(1), polled: pending(None) }]);
    assert!(executor.has_waker(TaskId(1)));
    assert!(executor.run_ready_tasks(&mut timer, nothing()).is_empty());
    assert_eq!(
        executor.task(TaskId(1)),
        Some(Task { id: TaskId(1), job: Job::PrintTime, resume: Resumption::AwaitingEdge })
    );
    assert_eq!(timer.registered(), Some(TaskWaker::new(TaskId(1))));
}

#[test]
fn task_poll_counts_down_its_readings() {
    let mut timer = Timer::new();
    let mut task = Task::new(TaskId(6), Job::Await(2));
    assert_eq!(task.poll(&mut timer, nothing()), pending(None));
    assert_eq!(task.job, Job::Await(2));
    assert_eq!(task.resume, Resumption::AwaitingEdge);
    tick(&mut timer, EDGE);
    assert_eq!(task.poll(&mut timer, raw(0, 0, 0x12)), pending(Some((0, 0, 3))));
    assert_eq!(task.job, Job::Await(1));
    assert_eq!(timer.registered(), Some(TaskWaker::new(TaskId(6))));
    tick(&mut timer, EDGE);
    assert_eq!(task.poll(&mut timer, raw(0, 0, 0x13)), ready(Some((0, 0, 4))));
    assert_eq!(task.job, Job::Await(0));
}

#[test]
fn task_that_awaits_nothing_completes_without_touching_the_reactor() {
    let mut timer = Timer::new();
    tick(&mut timer, EDGE);
    let mut task = Task::new(TaskId(6), Job::Await(0));
    assert_eq!(task.poll(&mut timer, raw(1, 1, 1)), ready(None));
    assert!(timer.is_ready());
    assert_eq!(timer.registered(), None);
    assert_eq!(task.resume, Resumption::Start);
}

#[test]
fn only_the_time_printing_task_has_its_reading_shown() {
    let mut timer = Timer::new();
    let mut clock = Task::new(TaskId(1), Job::PrintTime);
    let mut waiting = Task::new(TaskId(2), Job::Await(2));
    tick(&mut timer, EDGE);
    assert_eq!(
        clock.poll(&mut timer, raw(0x10, 0, 0)),
        Polled { state: Poll::Pending, reading: Some((1, 0, 0)), show: true }
    );
    assert_eq!(clock.poll(&mut timer, raw(0x10, 0, 0)), pending(None));
    tick(&mut timer, EDGE);
    assert_eq!(waiting.poll(&mut timer, raw(0x20, 0, 0)), pending(Some((2, 0, 0))));
}

#[test]
fn admission_stops_at_the_first_fault() {
    let mut executor = Executor::with_capacity(4).unwrap();
    let mut spawner = Spawner::new(&executor);
    spawner.spawn(&mut executor, Task::new(TaskId(1), Job::PrintTime));
    spawner.spawn(&mut executor, Task::new(TaskId(1), Job::Await(1)));
    spawner.spawn(&mut executor, Task::new(TaskId(2), Job::Await(1)));
    assert_eq!(executor.admit_spawned(), Some(SchedulerError::DuplicateTaskId));
    assert!(executor.is_live(TaskId(1)));
    assert!(!executor.is_live(TaskId(2)));
    assert_eq!(executor.pending(), 1);
    assert_eq!(executor.admit_spawned(), None);
    assert!(executor.is_live(TaskId(2)));
}

#[test]
fn immediate_task_and_task_awaiting_three_edges() {
    let mut executor = Executor::new();
    let mut spawner = Spawner::new(&executor);
    let mut timer = Timer::new();
    let mut ids = TaskIds::new();
    let immediate = ids.fresh();
    let waiting = ids.fresh();
    spawner.spawn(&mut executor, Task::new(immediate, Job::Await(0)));
    spawner.spawn(&mut executor, Task::new(waiting, Job::Await(3)));

    let mut produced: Vec<(u8, u8, u8)> = Vec::new();
    let mut collect = |turn: &Turn| {
        for record in &turn.polled {
            if let Some(time) = record.polled.reading {
                assert_eq!(record.id, waiting);
                produced.push(time);
            }
        }
    };

    let turn = executor.run(&mut timer, nothing());
    assert_eq!(turn.fault, None);
    assert!(turn.polled.is_empty());
    assert_eq!(turn.idle, IdleAction::Resume);
    collect(&turn);
    let turn = executor.run(&mut timer, nothing());
    assert_eq!(
        turn.polled,
        vec![
            PollRecord { id: immediate, polled: ready(None) },
            PollRecord { id: waiting, polled: pending(None) },
        ]
    );
    collect(&turn);
    assert!(!executor.is_live(immediate));
    assert!(executor.is_live(waiting));
    assert_eq!(turn.idle, IdleAction::Halt);

    let clock = [raw(0x12, 0x00, 0x01), raw(0x12, 0x00, 0x02), raw(0x12, 0x00, 0x03)];
    for (at, registers) in clock.iter().enumerate() {
        assert_eq!(clock_edge(&mut timer, &mut executor, EDGE), Ok(()));
        assert_eq!(executor.queued(), 1);
        let turn = executor.run(&mut timer, *registers);
        assert_eq!(ids_of(&turn.polled), vec![1]);
        collect(&turn);
        assert_eq!(executor.is_live(waiting), at < 2);
    }
    assert_eq!(produced, vec![(3, 0, 1), (3, 0, 2), (3, 0, 3)]);
    assert!(!executor.is_live(waiting));
    assert!(!executor.has_waker(waiting));
    assert_eq!(executor.sleep_if_idle(), IdleAction::Halt);
}

#[test]
fn turn_reports_work_left_on_the_wake_queue() {
    let mut executor = Executor::new();
    let mut spawner = Spawner::new(&executor);
    let mut timer = Timer::new();
    let idle = executor.run(&mut timer, nothing());
    assert_eq!(idle.idle, IdleAction::Halt);
    assert!(idle.polled.is_empty());
    spawner.spawn(&mut executor, Task::new(TaskId(1), Job::PrintTime));
    let busy = executor.run(&mut timer, nothing());
    assert_eq!(busy.idle, IdleAction::Resume);
    assert_eq!(busy.fault, None);
}
