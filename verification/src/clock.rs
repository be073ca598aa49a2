//! Start-up of the real-time clock: what is written to its index and data
//! ports before interrupts are enabled.

use vstd::prelude::*;
use crate::port::PortWrite;

verus! {

/// The clock's index port.
pub const INDEX_PORT: u16 = 0x70;

/// The clock's data port.
pub const DATA_PORT: u16 = 0x71;

/// Index of status register A, with non-maskable interrupts held off.
pub const STATUS_A: u8 = 0x8A;

/// Index of status register B, with non-maskable interrupts held off.
pub const STATUS_B: u8 = 0x8B;

/// Index of status register C, with non-maskable interrupts held off.
/// Reading it clears the pending interrupt and re-arms delivery.
pub const STATUS_C: u8 = 0x8C;

/// Index of the seconds register.
pub const SECONDS: u8 = 0x80;

/// Index of the minutes register.
pub const MINUTES: u8 = 0x82;

/// Index of the hours register.
pub const HOURS: u8 = 0x84;

/// What start-up writes to status register A: the divider and the rate.
pub const RATE: u8 = 0x26;

/// The bit of status register B that selects the 24-hour format.
pub const HOUR_FORMAT_24: u8 = 0x02;

/// What start-up writes to status register B: the interrupts that the clock
/// raises, and the 24-hour format.
pub const MODE: u8 = 0x52;

/// The writes that start the clock, in order: select status register A and
/// set the rate, then select status register B and set the mode, which has
/// the 24-hour format selected.
pub open spec fn start_up() -> Seq<PortWrite> {
    seq![
        PortWrite { port: INDEX_PORT, value: STATUS_A },
        PortWrite { port: DATA_PORT, value: RATE },
        PortWrite { port: INDEX_PORT, value: STATUS_B },
        PortWrite { port: DATA_PORT, value: MODE },
    ]
}

/// The writes that start the clock, in the order in which the caller performs
/// them, with interrupts disabled from the first to the last. The last one
/// puts into status register B a byte that selects the 24-hour format.
pub fn init() -> (writes: Vec<PortWrite>)
    ensures
        writes@ == start_up(),
        writes@.len() == 4,
        writes@[2] == (PortWrite { port: INDEX_PORT, value: STATUS_B }),
        writes@[3].port == DATA_PORT,
        writes@[3].value & HOUR_FORMAT_24 == HOUR_FORMAT_24,
{
    assert(MODE & HOUR_FORMAT_24 == HOUR_FORMAT_24) by (bit_vector)
        requires
            MODE == 0x52u8,
            HOUR_FORMAT_24 == 0x02u8,
    ;
    let mut writes: Vec<PortWrite> = Vec::new();
    writes.push(PortWrite { port: INDEX_PORT, value: STATUS_A });
    writes.push(PortWrite { port: DATA_PORT, value: RATE });
    writes.push(PortWrite { port: INDEX_PORT, value: STATUS_B });
    writes.push(PortWrite { port: DATA_PORT, value: MODE });
    assert(writes@ =~= start_up());
    writes
}

} // verus!
