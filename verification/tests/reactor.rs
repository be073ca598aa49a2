use ost::task::clock::{decode, decode_time, print_time, tick, EdgeFilter, RawTime, Timer, EDGE_BIT};
use ost::task::{Poll, TaskId, TaskWaker};

fn raw(hours: u8, minutes: u8, seconds: u8) -> RawTime {
    RawTime { hours, minutes, seconds }
}

const EDGE: u8 = 0x00;
const SPURIOUS: u8 = 1 << EDGE_BIT;

#[test]
fn decode_adds_the_two_nibbles() {
    assert_eq!(decode(0x23), (0x23 >> 4) + (0x23 & 0xF));
    assert_eq!(decode(0x23), 5);
    assert_eq!(decode(0x00), 0);
    assert_eq!(decode(0x59), 14);
    assert_eq!(decode(0xFF), 30);
    assert_eq!(decode(0x10), 1);
}

#[test]
fn decode_is_not_binary_coded_decimal() {
    assert_ne!(decode(0x23), 23);
}

#[test]
fn decode_time_orders_hour_minute_second() {
    assert_eq!(decode_time(raw(0x23, 0x59, 0x07)), (5, 14, 7));
}

#[test]
fn new_timer_is_idle() {
    let timer = Timer::new();
    assert!(!timer.is_ready());
    assert_eq!(timer.registered(), None);
}

#[test]
fn edge_gate_takes_bits_of_a_byte_only() {
    assert!(EdgeFilter::new(0).is_some());
    assert!(EdgeFilter::new(7).is_some());
    assert!(EdgeFilter::new(8).is_none());
    assert!(EdgeFilter::new(255).is_none());
}

#[test]
fn edge_gate_passes_when_its_bit_is_clear() {
    let gate = EdgeFilter::new(4).unwrap();
    assert!(gate.passes(0x00));
    assert!(gate.passes(0xEF));
    assert!(!gate.passes(0x10));
    assert!(!gate.passes(0xFF));
    assert_eq!(EDGE_BIT, 3);
    let standard = EdgeFilter::standard();
    assert!(standard.passes(0xF7));
    assert!(!standard.passes(0x08));
}

#[test]
fn valid_edge_sets_the_flag() {
    let mut timer = Timer::new();
    assert_eq!(tick(&mut timer, EDGE), None);
    assert!(timer.is_ready());
}

#[test]
fn spurious_interrupt_changes_nothing() {
    let mut timer = Timer::new();
    let waker = TaskWaker::new(TaskId(3));
    timer.register(waker);
    assert_eq!(tick(&mut timer, SPURIOUS), None);
    assert!(!timer.is_ready());
    assert_eq!(timer.registered(), Some(waker));
}

#[test]
fn timer_with_its_own_gate() {
    let mut timer = Timer::with_filter(EdgeFilter::new(0).unwrap());
    assert_eq!(tick(&mut timer, 0x01), None);
    assert!(!timer.is_ready());
    assert_eq!(tick(&mut timer, 0x40), None);
    assert!(timer.is_ready());
}

#[test]
fn edge_invokes_the_registered_waker_and_empties_the_slot() {
    let mut timer = Timer::new();
    let waker = TaskWaker::new(TaskId(9));
    timer.register(waker);
    assert_eq!(tick(&mut timer, EDGE), Some(waker));
    assert_eq!(timer.registered(), None);
    assert_eq!(tick(&mut timer, EDGE), None);
}

#[test]
fn registration_overwrites_the_slot() {
    let mut timer = Timer::new();
    timer.register(TaskWaker::new(TaskId(1)));
    timer.register(TaskWaker::new(TaskId(2)));
    assert_eq!(timer.registered(), Some(TaskWaker::new(TaskId(2))));
}

#[test]
fn poll_with_flag_set_returns_at_once() {
    let mut timer = Timer::new();
    tick(&mut timer, EDGE);
    let got = timer.poll_next(TaskWaker::new(TaskId(1)), raw(0x12, 0x34, 0x56));
    assert_eq!(got, Poll::Ready((3, 7, 11)));
    assert!(!timer.is_ready());
    assert_eq!(timer.registered(), None);
}

#[test]
fn poll_with_flag_clear_suspends_with_the_waker_registered() {
    let mut timer = Timer::new();
    let waker = TaskWaker::new(TaskId(1));
    assert_eq!(timer.poll_next(waker, raw(1, 2, 3)), Poll::Pending);
    assert_eq!(timer.registered(), Some(waker));
}

#[test]
fn an_edge_is_delivered_once() {
    let mut timer = Timer::new();
    let waker = TaskWaker::new(TaskId(1));
    tick(&mut timer, EDGE);
    assert_eq!(timer.poll_next(waker, raw(1, 2, 3)), Poll::Ready((1, 2, 3)));
    assert_eq!(timer.poll_next(waker, raw(1, 2, 3)), Poll::Pending);
    assert_eq!(timer.poll_next(waker, raw(1, 2, 4)), Poll::Pending);
}

#[test]
fn two_edges_before_a_poll_give_one_reading() {
    let mut timer = Timer::new();
    let waker = TaskWaker::new(TaskId(1));
    tick(&mut timer, EDGE);
    tick(&mut timer, EDGE);
    assert_eq!(timer.poll_next(waker, raw(0, 0, 1)), Poll::Ready((0, 0, 1)));
    assert_eq!(timer.poll_next(waker, raw(0, 0, 1)), Poll::Pending);
}

#[test]
fn edge_between_fast_path_and_registration_is_not_lost() {
    let mut timer = Timer::new();
    let waker = TaskWaker::new(TaskId(5));
    assert_eq!(timer.poll_ready(raw(0, 0, 0)), Poll::Pending);
    assert_eq!(tick(&mut timer, EDGE), None);
    timer.register(waker);
    assert_eq!(timer.poll_registered(raw(0x21, 0x43, 0x05)), Poll::Ready((3, 7, 5)));
    assert!(!timer.is_ready());
    assert_eq!(timer.registered(), None);
}

#[test]
fn edge_between_registration_and_recheck_is_not_lost() {
    let mut timer = Timer::new();
    let waker = TaskWaker::new(TaskId(5));
    assert_eq!(timer.poll_ready(raw(0, 0, 0)), Poll::Pending);
    timer.register(waker);
    assert_eq!(tick(&mut timer, EDGE), Some(waker));
    assert_eq!(timer.poll_registered(raw(0, 0, 9)), Poll::Ready((0, 0, 9)));
}

#[test]
fn edge_after_suspension_wakes_and_the_next_poll_reads() {
    let mut timer = Timer::new();
    let waker = TaskWaker::new(TaskId(5));
    assert_eq!(timer.poll_next(waker, raw(0, 0, 0)), Poll::Pending);
    assert_eq!(tick(&mut timer, EDGE), Some(waker));
    assert_eq!(timer.poll_next(waker, raw(0x10, 0x20, 0x30)), Poll::Ready((1, 2, 3)));
}

#[test]
fn recheck_without_an_edge_suspends() {
    let mut timer = Timer::new();
    let waker = TaskWaker::new(TaskId(5));
    timer.register(waker);
    assert_eq!(timer.poll_registered(raw(1, 1, 1)), Poll::Pending);
    assert_eq!(timer.registered(), Some(waker));
}

#[test]
fn print_time_shows_a_reading_and_parks_the_task() {
    let mut timer = Timer::new();
    let waker = TaskWaker::new(TaskId(2));
    assert_eq!(print_time(&mut timer, waker, raw(1, 2, 3)), None);
    assert_eq!(timer.registered(), Some(waker));
    assert_eq!(tick(&mut timer, EDGE), Some(waker));
    assert_eq!(print_time(&mut timer, waker, raw(0x23, 0x15, 0x48)), Some((5, 6, 12)));
    assert!(!timer.is_ready());
    assert_eq!(timer.registered(), Some(waker));
}
