//! Bookkeeping of kernel threads: the control block and the stack that a new
//! thread starts on.

use vstd::prelude::*;

verus! {

/// Number of 64-bit words of a thread's stack.
pub const STACK_WORDS: usize = 512;

/// Number of callee-saved registers that the context switch restores.
pub const NUM_CALLEE_SAVED: usize = 6;

/// Index of the stack word that the saved stack pointer of a new thread
/// points at: below the entry point, the callee-saved registers, the flags
/// and one control register.
pub const FIRST_SAVED_WORD: usize = 503;

/// What the context switch needs to know of a thread: where its saved stack
/// pointer is.
#[derive(Debug, Clone, Copy, PartialEq, Eq, Structural)]
pub struct TCBInfo {
    pub stack_pointer: usize,
}

impl TCBInfo {
    /// The control block of a thread whose saved stack pointer is
    /// `stack_pointer`.
    pub fn new(stack_pointer: usize) -> (info: TCBInfo)
        ensures
            info.stack_pointer == stack_pointer,
    {
        TCBInfo { stack_pointer }
    }
}

/// The stack of a thread that has not run yet: zero everywhere but in its
/// last word, which holds the address the thread starts at.
pub open spec fn fresh_stack(entry_point: u64) -> Seq<u64> {
    Seq::new(STACK_WORDS as nat, |i: int| if i == STACK_WORDS - 1 { entry_point } else { 0u64 })
}

/// Builds the stack of a new thread that starts at `entry_point`.
pub fn initial_stack(entry_point: u64) -> (stack: Vec<u64>)
    ensures
        stack@ == fresh_stack(entry_point),
{
    let mut stack: Vec<u64> = Vec::new();
    while stack.len() < STACK_WORDS
        invariant
            stack.len() <= STACK_WORDS,
            forall|i: int| 0 <= i < stack.len() ==> #[trigger] stack@[i] == 0,
        decreases STACK_WORDS - stack.len(),
    {
        stack.push(0);
    }
    let end_of_stack: usize = STACK_WORDS - 1;
    stack.set(end_of_stack, entry_point);
    let index: usize = end_of_stack - NUM_CALLEE_SAVED - 1;
    stack.set(index, 0);
    stack.set(index - 1, 0);
    assert(stack@ =~= fresh_stack(entry_point));
    stack
}

/// The control block of a new thread whose stack lies at address
/// `stack_base`: its saved stack pointer is the address of word
/// [`FIRST_SAVED_WORD`] of the stack. `None` if that address does not fit
/// the address space.
pub fn initial_info(stack_base: usize) -> (info: Option<TCBInfo>)
    ensures
        info == (if stack_base + FIRST_SAVED_WORD * 8 <= usize::MAX {
            Some(TCBInfo { stack_pointer: (stack_base + FIRST_SAVED_WORD * 8) as usize })
        } else {
            None
        }),
{
    let offset: usize = FIRST_SAVED_WORD * 8;
    if stack_base <= usize::MAX - offset {
        Some(TCBInfo::new(stack_base + offset))
    } else {
        None
    }
}

} // verus!
