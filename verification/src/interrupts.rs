//! The interrupt controller bridge: vectors, the vector table, what the fault
//! handlers decide and what each hardware interrupt handler does before it
//! acknowledges.

use vstd::prelude::*;
use crate::task::clock::{tick, Timer, TimerState};
use crate::task::executor::{Executor, ExecutorState, SchedulerError};
use crate::task::keyboard::{add_scancode, Pushed, ScancodeQueue};
use crate::task::TaskWaker;

verus! {

/// Vector at which the primary controller's lines start.
pub const PIC1_OFFSET: u8 = 32;

/// Vector at which the secondary controller's lines start.
pub const PIC2_OFFSET: u8 = 40;

/// Index of the interrupt stack that the double fault handler runs on.
pub const DOUBLE_FAULT_IST_INDEX: u16 = 0;

/// Number of vectors in the vector table.
pub const VECTORS: usize = 256;

/// The hardware interrupt lines this kernel handles.
#[derive(Debug, Clone, Copy, PartialEq, Eq, Structural)]
pub enum InterruptIndex {
    /// The interval timer, on line 0 of the primary controller.
    Timer,
    /// The keyboard, on line 1 of the primary controller.
    Keyboard,
    /// The real-time clock, on line 0 of the secondary controller.
    RTC,
}

impl InterruptIndex {
    /// The line's distance from the primary controller's base vector.
    pub open spec fn line(self) -> int {
        match self {
            InterruptIndex::Timer => 0,
            InterruptIndex::Keyboard => 1,
            InterruptIndex::RTC => 8,
        }
    }

    /// The vector number of this line.
    pub open spec fn vector(self) -> int {
        PIC1_OFFSET as int + self.line()
    }

    /// The vector number of this line, which is also what its handler names
    /// when it acknowledges.
    pub fn as_u8(self) -> (v: u8)
        ensures
            v as int == self.vector(),
    {
        match self {
            InterruptIndex::Timer => PIC1_OFFSET,
            InterruptIndex::Keyboard => PIC1_OFFSET + 1,
            InterruptIndex::RTC => PIC1_OFFSET + 8,
        }
    }

    /// The vector number as an index into the vector table.
    pub fn as_usize(self) -> (v: usize)
        ensures
            v as int == self.vector(),
    {
        self.as_u8() as usize
    }
}

/// The processor exceptions this kernel handles.
#[derive(Debug, Clone, Copy, PartialEq, Eq, Structural)]
pub enum Exception {
    Breakpoint,
    Overflow,
    DoubleFault,
    PageFault,
}

/// What happens after an exception has been reported.
#[derive(Debug, Clone, Copy, PartialEq, Eq, Structural)]
pub enum Disposition {
    /// Control returns to the interrupted context.
    Resume,
    /// The processor halts for good.
    Halt,
}

/// What the report of an exception holds besides its name.
#[derive(Debug, Clone, Copy, PartialEq, Eq, Structural)]
pub struct FaultReport {
    /// The interrupted context: the stack frame that the processor pushed.
    pub stack_frame: bool,
    /// The error code that the processor pushed.
    pub error_code: bool,
    /// The address whose access faulted.
    pub fault_address: bool,
}

impl Exception {
    /// What the report of the exception holds: always the interrupted
    /// context; with a double fault and a page fault the error code; with a
    /// page fault the faulting address too.
    pub open spec fn reported(self) -> FaultReport {
        FaultReport {
            stack_frame: true,
            error_code: self.is_terminal(),
            fault_address: self == Exception::PageFault,
        }
    }

    /// What the handler puts into its report.
    pub fn report(self) -> (report: FaultReport)
        ensures
            report == self.reported(),
    {
        match self {
            Exception::Breakpoint => FaultReport { stack_frame: true, error_code: false, fault_address: false },
            Exception::Overflow => FaultReport { stack_frame: true, error_code: false, fault_address: false },
            Exception::DoubleFault => FaultReport { stack_frame: true, error_code: true, fault_address: false },
            Exception::PageFault => FaultReport { stack_frame: true, error_code: true, fault_address: true },
        }
    }

    /// The vector that the processor assigns to the exception.
    pub open spec fn vector(self) -> int {
        match self {
            Exception::Breakpoint => 3,
            Exception::Overflow => 4,
            Exception::DoubleFault => 8,
            Exception::PageFault => 14,
        }
    }

    /// Whether the exception ends the kernel: page faults and double faults
    /// do, breakpoints and overflows do not.
    pub open spec fn is_terminal(self) -> bool {
        self == Exception::DoubleFault || self == Exception::PageFault
    }

    /// The interrupt stack that the handler runs on, if it has one of its
    /// own: only the double fault handler does.
    pub open spec fn stack(self) -> Option<u16> {
        if self == Exception::DoubleFault {
            Some(DOUBLE_FAULT_IST_INDEX)
        } else {
            None
        }
    }

    /// The vector of the exception as an index into the vector table.
    pub fn as_usize(self) -> (v: usize)
        ensures
            v as int == self.vector(),
    {
        match self {
            Exception::Breakpoint => 3,
            Exception::Overflow => 4,
            Exception::DoubleFault => 8,
            Exception::PageFault => 14,
        }
    }

    /// The interrupt stack that the handler runs on, if it has one of its own.
    pub fn stack_index(self) -> (stack: Option<u16>)
        ensures
            stack == self.stack(),
    {
        match self {
            Exception::DoubleFault => Some(DOUBLE_FAULT_IST_INDEX),
            _ => None,
        }
    }

    /// What the handler does once it has reported the exception.
    pub fn disposition(self) -> (then: Disposition)
        ensures
            then == (if self.is_terminal() { Disposition::Halt } else { Disposition::Resume }),
    {
        match self {
            Exception::Breakpoint => Disposition::Resume,
            Exception::Overflow => Disposition::Resume,
            Exception::DoubleFault => Disposition::Halt,
            Exception::PageFault => Disposition::Halt,
        }
    }
}

/// What a vector is routed to.
#[derive(Debug, Clone, Copy, PartialEq, Eq, Structural)]
pub enum Handler {
    Fault(Exception),
    Line(InterruptIndex),
}

/// A populated entry of the vector table.
#[derive(Debug, Clone, Copy, PartialEq, Eq, Structural)]
pub struct Gate {
    pub handler: Handler,
    /// The interrupt stack to switch to, if the handler has one of its own.
    pub stack: Option<u16>,
}

/// The entry that this kernel puts at `vector`: the four exceptions and the
/// three hardware lines at their vectors, nothing anywhere else.
pub open spec fn gate_at(vector: int) -> Option<Gate> {
    if vector == Exception::Breakpoint.vector() {
        Some(Gate { handler: Handler::Fault(Exception::Breakpoint), stack: None })
    } else if vector == Exception::Overflow.vector() {
        Some(Gate { handler: Handler::Fault(Exception::Overflow), stack: None })
    } else if vector == Exception::DoubleFault.vector() {
        Some(
            Gate {
                handler: Handler::Fault(Exception::DoubleFault),
                stack: Some(DOUBLE_FAULT_IST_INDEX),
            },
        )
    } else if vector == Exception::PageFault.vector() {
        Some(Gate { handler: Handler::Fault(Exception::PageFault), stack: None })
    } else if vector == InterruptIndex::Timer.vector() {
        Some(Gate { handler: Handler::Line(InterruptIndex::Timer), stack: None })
    } else if vector == InterruptIndex::Keyboard.vector() {
        Some(Gate { handler: Handler::Line(InterruptIndex::Keyboard), stack: None })
    } else if vector == InterruptIndex::RTC.vector() {
        Some(Gate { handler: Handler::Line(InterruptIndex::RTC), stack: None })
    } else {
        None
    }
}

/// The vector table: one entry, populated or not, for each of the
/// [`VECTORS`] vectors.
pub struct VectorTable {
    gates: Vec<Option<Gate>>,
}

impl View for VectorTable {
    type V = Seq<Option<Gate>>;

    closed spec fn view(&self) -> Seq<Option<Gate>> {
        self.gates@
    }
}

impl VectorTable {
    /// The entry at `vector`, or `None` if the table has none there.
    pub fn gate(&self, vector: usize) -> (gate: Option<Gate>)
        ensures
            gate == (if vector < self@.len() { self@[vector as int] } else { None }),
    {
        if vector < self.gates.len() {
            self.gates[vector]
        } else {
            None
        }
    }
}

/// Builds the vector table of this kernel, for the caller to load: the
/// handlers for breakpoint, overflow, double fault (on its own stack) and
/// page fault, and those of the timer, keyboard and clock lines.
pub fn init_idt() -> (table: VectorTable)
    ensures
        table@.len() == VECTORS,
        forall|vector: int| 0 <= vector < VECTORS ==> #[trigger] table@[vector] == gate_at(vector),
{
    let mut gates: Vec<Option<Gate>> = Vec::new();
    while gates.len() < VECTORS
        invariant
            gates.len() <= VECTORS,
            forall|vector: int| 0 <= vector < gates.len() ==> #[trigger] gates@[vector] is None,
        decreases VECTORS - gates.len(),
    {
        gates.push(None);
    }
    gates.set(
        Exception::Breakpoint.as_usize(),
        Some(Gate { handler: Handler::Fault(Exception::Breakpoint), stack: Exception::Breakpoint.stack_index() }),
    );
    gates.set(
        Exception::Overflow.as_usize(),
        Some(Gate { handler: Handler::Fault(Exception::Overflow), stack: Exception::Overflow.stack_index() }),
    );
    gates.set(
        Exception::DoubleFault.as_usize(),
        Some(Gate { handler: Handler::Fault(Exception::DoubleFault), stack: Exception::DoubleFault.stack_index() }),
    );
    gates.set(
        Exception::PageFault.as_usize(),
        Some(Gate { handler: Handler::Fault(Exception::PageFault), stack: Exception::PageFault.stack_index() }),
    );
    gates.set(
        InterruptIndex::Timer.as_usize(),
        Some(Gate { handler: Handler::Line(InterruptIndex::Timer), stack: None }),
    );
    gates.set(
        InterruptIndex::Keyboard.as_usize(),
        Some(Gate { handler: Handler::Line(InterruptIndex::Keyboard), stack: None }),
    );
    gates.set(
        InterruptIndex::RTC.as_usize(),
        Some(Gate { handler: Handler::Line(InterruptIndex::RTC), stack: None }),
    );
    VectorTable { gates }
}

/// What the keyboard interrupt handler did with a scancode.
#[derive(Debug, Clone, Copy, PartialEq, Eq, Structural)]
pub struct KeyboardEvent {
    /// Whether the scancode was stored or dropped; on a drop the caller
    /// emits a diagnostic.
    pub pushed: Pushed,
    /// The vector to name in the acknowledgement.
    pub acknowledge: u8,
}

/// What the clock interrupt handler did.
#[derive(Debug, Clone, Copy, PartialEq, Eq)]
pub struct ClockEvent {
    /// `Err` if the edge had a waker to invoke and the wake queue was full,
    /// which is fatal to the kernel.
    pub woken: Result<(), SchedulerError>,
    /// The vector to name in the acknowledgement.
    pub acknowledge: u8,
}

/// Why a clock interrupt that comes with `status` cannot wake its task, if it
/// cannot: it is a valid edge, the slot holds a waker and the wake queue is
/// full.
pub open spec fn clock_edge_fault(
    timer: TimerState,
    executor: ExecutorState,
    status: u8,
) -> Option<SchedulerError> {
    if timer.woken_by(status) is Some && !executor.can_wake() {
        Some(SchedulerError::WakeQueueFull)
    } else {
        None
    }
}

/// The scheduler after a clock interrupt that comes with `status`: the waker
/// that a valid edge found in the slot has been invoked, so that its task is
/// on the wake queue; anything else leaves the scheduler as it was.
pub open spec fn after_clock_edge(
    timer: TimerState,
    executor: ExecutorState,
    status: u8,
) -> ExecutorState {
    match timer.woken_by(status) {
        Some(waker) => if executor.can_wake() {
            executor.after_wake(waker.task_id)
        } else {
            executor
        },
        None => executor,
    }
}

/// The timer interrupt handler: nothing to do but to acknowledge. Returns
/// the vector to name in the acknowledgement.
pub fn timer_interrupt() -> (acknowledge: u8)
    ensures
        acknowledge as int == InterruptIndex::Timer.vector(),
{
    InterruptIndex::Timer.as_u8()
}

/// The keyboard interrupt handler, given the byte that the caller read from
/// the keyboard's data port: hands it to the scancode buffer. Whether the
/// buffer took it or was full and dropped it, the acknowledgement is due, so
/// that the line stays live.
pub fn keyboard_interrupt(buffer: &mut ScancodeQueue, scancode: u8) -> (event: KeyboardEvent)
    requires
        old(buffer).wf(),
    ensures
        final(buffer).wf(),
        final(buffer).room() == old(buffer).room(),
        event.acknowledge as int == InterruptIndex::Keyboard.vector(),
        old(buffer)@.len() < old(buffer).room() ==> event.pushed == Pushed::Stored && final(buffer)@
            == old(buffer)@.push(scancode),
        old(buffer)@.len() >= old(buffer).room() ==> event.pushed == Pushed::Dropped
            && final(buffer)@ == old(buffer)@,
{
    let pushed: Pushed = add_scancode(buffer, scancode);
    KeyboardEvent { pushed, acknowledge: InterruptIndex::Keyboard.as_u8() }
}

/// What the clock interrupt does to the reactor and the scheduler, given the
/// clock's status register as the handler read it. If the designated bit is
/// clear the interrupt is a valid edge: the ready flag is set and the waker
/// in the continuation slot, if there is one, is invoked, which puts its task
/// on the wake queue. A spurious interrupt changes nothing. Fails with
/// `WakeQueueFull`, the scheduler unchanged, exactly if there is a waker to
/// invoke and the wake queue is full; the flag is set all the same.
pub fn clock_edge(timer: &mut Timer, executor: &mut Executor, status: u8) -> (woken: Result<
    (),
    SchedulerError,
>)
    requires
        old(timer).wf(),
        old(executor).wf(),
    ensures
        final(timer).wf(),
        final(executor).wf(),
        final(timer)@ == old(timer)@.after_interrupt(status),
        final(executor)@ == after_clock_edge(old(timer)@, old(executor)@, status),
        match clock_edge_fault(old(timer)@, old(executor)@, status) {
            Some(fault) => woken is Err && woken->Err_0 == fault,
            None => woken is Ok,
        },
{
    let slot: Option<TaskWaker> = tick(timer, status);
    match slot {
        Some(waker) => waker.try_wake_task(executor),
        None => Ok(()),
    }
}

/// The clock interrupt handler, given the clock's status register as the
/// caller read it: does what [`clock_edge`] does, so that on a valid edge the
/// ready flag is set and the registered waker invoked before the caller
/// acknowledges. The acknowledgement is due whatever the status was.
pub fn rtc_interrupt(timer: &mut Timer, executor: &mut Executor, status: u8) -> (event: ClockEvent)
    requires
        old(timer).wf(),
        old(executor).wf(),
    ensures
        final(timer).wf(),
        final(executor).wf(),
        final(timer)@ == old(timer)@.after_interrupt(status),
        final(executor)@ == after_clock_edge(old(timer)@, old(executor)@, status),
        match clock_edge_fault(old(timer)@, old(executor)@, status) {
            Some(fault) => event.woken is Err && event.woken->Err_0 == fault,
            None => event.woken is Ok,
        },
        event.acknowledge as int == InterruptIndex::RTC.vector(),
{
    let woken: Result<(), SchedulerError> = clock_edge(timer, executor, status);
    ClockEvent { woken, acknowledge: InterruptIndex::RTC.as_u8() }
}

/// A valid edge wakes the task that is suspended in the reactor: after a poll
/// that suspended the caller, an edge sets the ready flag and puts the
/// caller's task on the wake queue, where the next pass polls it if it is
/// live, and the reactor then has a reading for it.
pub proof fn law_edge_wakes_suspended_task(
    timer: TimerState,
    executor: ExecutorState,
    waker: TaskWaker,
    status: u8,
)
    requires
        !timer.ready,
        timer.admits(status),
        executor.can_wake(),
    ensures
        ({
            let parked = timer.after_poll_next(waker);
            &&& parked.after_interrupt(status).ready
            &&& clock_edge_fault(parked, executor, status) is None
            &&& after_clock_edge(parked, executor, status).wake_queue.contains(waker.task_id.0)
        }),
{
    let parked = timer.after_poll_next(waker);
    let woken = after_clock_edge(parked, executor, status);
    assert(woken.wake_queue[executor.wake_queue.len() as int] == waker.task_id.0);
}

} // verus!
