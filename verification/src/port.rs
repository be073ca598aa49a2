//! Port output as data: what the kernel's logic asks its caller to write.

use vstd::prelude::*;

verus! {

/// One byte written to one port.
#[derive(Debug, Clone, Copy, PartialEq, Eq, Structural)]
pub struct PortWrite {
    pub port: u16,
    pub value: u8,
}

} // verus!
