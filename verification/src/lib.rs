//! Concurrency core of a small single-core kernel: interrupt bridge,
//! hardware event producers, the time-of-day reactor and a cooperative
//! task scheduler, written as verified decision logic.
//!
//! The library decides and its caller touches the hardware. A function here
//! takes what was read from a port as a plain value and returns what is to be
//! written or done: the vector to acknowledge, the waker to invoke, whether
//! to halt.
//!
//! All state is reached through exclusive references. On one core an
//! interrupt handler runs to its end between two steps of normal code, so the
//! caller makes each call with interrupts disabled and each function is one
//! indivisible step. Where the order of steps matters, as with the reactor's
//! poll and the clock edge, the steps are functions of their own and the laws
//! speak of every order.

use vstd::prelude::*;
use crate::interrupts::{PIC1_OFFSET, PIC2_OFFSET};

pub mod clock;
pub mod interrupts;
pub mod memory;
pub mod port;
pub mod queue;
pub mod task;
pub mod thread;
pub mod vga;

verus! {

/// One step of bringing the kernel up.
#[derive(Debug, Clone, Copy, PartialEq, Eq, Structural)]
pub enum InitStep {
    /// Load the descriptor tables, with the double fault stack registered.
    DescriptorTables,
    /// Build and load the vector table.
    VectorTable,
    /// Program the two chained interrupt controllers with their vector
    /// offsets and their interrupt masks.
    ControllerBridge { primary_offset: u8, secondary_offset: u8, primary_mask: u8, secondary_mask: u8 },
    /// Start the real-time clock.
    TimeSource,
    /// Enable interrupts on the processor.
    EnableInterrupts,
}

/// The steps of bringing the kernel up, in the one order in which they are
/// taken: descriptor tables, vector table, controller bridge with every line
/// unmasked, time source, and only then interrupts.
pub open spec fn init_order() -> Seq<InitStep> {
    seq![
        InitStep::DescriptorTables,
        InitStep::VectorTable,
        InitStep::ControllerBridge {
            primary_offset: PIC1_OFFSET,
            secondary_offset: PIC2_OFFSET,
            primary_mask: 0,
            secondary_mask: 0,
        },
        InitStep::TimeSource,
        InitStep::EnableInterrupts,
    ]
}

/// The steps of bringing the kernel up, for the caller to take once, in this
/// order, with interrupts disabled until the last.
pub fn init() -> (steps: Vec<InitStep>)
    ensures
        steps@ == init_order(),
{
    let mut steps: Vec<InitStep> = Vec::new();
    steps.push(InitStep::DescriptorTables);
    steps.push(InitStep::VectorTable);
    steps.push(
        InitStep::ControllerBridge {
            primary_offset: PIC1_OFFSET,
            secondary_offset: PIC2_OFFSET,
            primary_mask: 0,
            secondary_mask: 0,
        },
    );
    steps.push(InitStep::TimeSource);
    steps.push(InitStep::EnableInterrupts);
    assert(steps@ =~= init_order());
    steps
}

/// Interrupts are enabled last: every other step comes before it. The
/// controllers are programmed with every line unmasked, and the secondary
/// controller's vectors follow the primary's eight.
pub proof fn law_interrupts_enabled_last()
    ensures
        init_order().last() == InitStep::EnableInterrupts,
        init_order()[2] == (InitStep::ControllerBridge {
            primary_offset: PIC1_OFFSET,
            secondary_offset: PIC2_OFFSET,
            primary_mask: 0,
            secondary_mask: 0,
        }),
        forall|at: int|
            0 <= at < init_order().len() - 1 ==> #[trigger] init_order()[at]
                != InitStep::EnableInterrupts,
        PIC2_OFFSET == PIC1_OFFSET + 8,
{
}

/// The codes by which the kernel tells the emulator how a test run ended.
#[derive(Debug, Clone, Copy, PartialEq, Eq, Structural)]
pub enum QemuExitCode {
    Success,
    Failed,
}

impl QemuExitCode {
    /// The number written to the emulator's exit port.
    pub open spec fn code(self) -> u32 {
        match self {
            QemuExitCode::Success => 0x10,
            QemuExitCode::Failed => 0x11,
        }
    }

    /// The number written to the emulator's exit port.
    pub fn as_u32(self) -> (code: u32)
        ensures
            code == self.code(),
    {
        match self {
            QemuExitCode::Success => 0x10,
            QemuExitCode::Failed => 0x11,
        }
    }
}

} // verus!
