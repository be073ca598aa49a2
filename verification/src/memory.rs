//! Physical frames for the kernel, taken in order from the usable regions of
//! the boot-time memory map.

use vstd::prelude::*;

verus! {

/// The size of a physical frame in bytes.
pub const FRAME_SIZE: u64 = 4096;

/// One region of the memory map: the addresses from `start` up to, but not
/// including, `end`, and whether the kernel may use them.
#[derive(Debug, Clone, Copy, PartialEq, Eq, Structural)]
pub struct MemoryRegion {
    pub start: u64,
    pub end: u64,
    pub usable: bool,
}

/// The start of the frame that contains `address`.
pub open spec fn frame_of(address: int) -> int {
    address - address % (FRAME_SIZE as int)
}

impl MemoryRegion {
    /// How many frames the region yields: one for every `FRAME_SIZE` bytes
    /// counted from its start, as long as the count stays below its end;
    /// none if the region is not usable.
    pub open spec fn frame_count(self) -> int {
        if self.usable && self.start < self.end {
            (self.end - self.start - 1) / (FRAME_SIZE as int) + 1
        } else {
            0
        }
    }

    /// The frames the region yields, by their start addresses, in order.
    pub open spec fn frames(self) -> Seq<int> {
        Seq::new(
            self.frame_count() as nat,
            |k: int| frame_of(self.start + k * FRAME_SIZE),
        )
    }
}

/// The frames that the regions of a memory map yield, region after region.
pub open spec fn usable_frames(regions: Seq<MemoryRegion>) -> Seq<int>
    decreases regions.len(),
{
    if regions.len() == 0 {
        Seq::empty()
    } else {
        regions[0].frames() + usable_frames(regions.subrange(1, regions.len() as int))
    }
}

/// The frame with index `index` among the usable frames, if there are that
/// many.
pub open spec fn nth_frame(regions: Seq<MemoryRegion>, index: int) -> Option<int> {
    if 0 <= index < usable_frames(regions).len() {
        Some(usable_frames(regions)[index])
    } else {
        None
    }
}

/// Hands out the usable frames of a memory map, each once, in order.
pub struct BootInfoFrameAllocator {
    memory_map: Vec<MemoryRegion>,
    next: usize,
}

impl BootInfoFrameAllocator {
    /// The regions of the memory map.
    pub closed spec fn regions(&self) -> Seq<MemoryRegion> {
        self.memory_map@
    }

    /// The index of the frame that is handed out next.
    pub closed spec fn next(&self) -> int {
        self.next as int
    }

    /// An allocator over `memory_map` that has handed out nothing yet.
    pub fn init(memory_map: Vec<MemoryRegion>) -> (allocator: BootInfoFrameAllocator)
        ensures
            allocator.regions() == memory_map@,
            allocator.next() == 0,
    {
        BootInfoFrameAllocator { memory_map, next: 0 }
    }

    /// Hands out the next usable frame, by its start address, or `None` when
    /// the usable frames are used up. Every call moves on to the next index,
    /// so that no frame is handed out twice.
    pub fn allocate_frame(&mut self) -> (frame: Option<u64>)
        ensures
            final(self).regions() == old(self).regions(),
            old(self).next() < usize::MAX ==> final(self).next() == old(self).next() + 1,
            old(self).next() == usize::MAX ==> final(self).next() == old(self).next(),
            old(self).next() < usize::MAX ==> match nth_frame(old(self).regions(), old(self).next()) {
                Some(start) => frame is Some && frame->0 as int == start,
                None => frame is None,
            },
            old(self).next() == usize::MAX ==> frame is None,
    {
        if self.next == usize::MAX {
            return None;
        }
        let wanted: usize = self.next;
        self.next = self.next + 1;
        let mut skipped: usize = 0;
        let mut at: usize = 0;
        let ghost all = self.memory_map@;
        assert(all.subrange(0, all.len() as int) =~= all);
        while at < self.memory_map.len()
            invariant
                at <= self.memory_map.len(),
                all == self.memory_map@,
                all == old(self).memory_map@,
                wanted == old(self).next,
                self.next == wanted + 1,
                skipped <= wanted,
                nth_frame(all, wanted as int) == nth_frame(
                    all.subrange(at as int, all.len() as int),
                    wanted - skipped,
                ),
            decreases self.memory_map.len() - at,
        {
            let region: MemoryRegion = self.memory_map[at];
            let ghost rest = all.subrange(at as int, all.len() as int);
            assert(rest[0] == region);
            assert(rest.subrange(1, rest.len() as int) == all.subrange(at + 1, all.len() as int));
            if region.usable && region.start < region.end {
                let count: u64 = (region.end - region.start - 1) / FRAME_SIZE + 1;
                let index: usize = wanted - skipped;
                if (index as u64) < count {
                    let address: u64 = region.start + (index as u64) * FRAME_SIZE;
                    let frame: u64 = address - address % FRAME_SIZE;
                    assert(region.frames()[index as int] == frame);
                    return Some(frame);
                }
                skipped = skipped + count as usize;
            }
            at = at + 1;
        }
        None
    }
}

} // verus!
