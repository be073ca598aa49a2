use ost::interrupts::{Exception, FaultReport};
use ost::memory::{BootInfoFrameAllocator, MemoryRegion, FRAME_SIZE};
use ost::thread::{initial_info, initial_stack, TCBInfo, FIRST_SAVED_WORD, NUM_CALLEE_SAVED, STACK_WORDS};

fn region(start: u64, end: u64, usable: bool) -> MemoryRegion {
    MemoryRegion { start, end, usable }
}

fn drain(regions: Vec<MemoryRegion>) -> Vec<u64> {
    let mut allocator = BootInfoFrameAllocator::init(regions);
    let mut frames = Vec::new();
    while let Some(frame) = allocator.allocate_frame() {
        frames.push(frame);
        assert!(frames.len() < 1000);
    }
    assert_eq!(allocator.allocate_frame(), None);
    frames
}

#[test]
fn frames_come_from_usable_regions_in_order() {
    let frames = drain(vec![
        region(0x0000, 0x2000, true),
        region(0x2000, 0x9000, false),
        region(0x9000, 0xB000, true),
    ]);
    assert_eq!(frames, vec![0x0000, 0x1000, 0x9000, 0xA000]);
    assert_eq!(FRAME_SIZE, 4096);
}

#[test]
fn frames_match_the_stepped_ranges() {
    let regions = vec![
        region(0x1000, 0x1001, true),
        region(0x3000, 0x3000, true),
        region(0x5000, 0x4000, true),
        region(0x7800, 0xA000, true),
        region(0x10_0000, 0x10_3001, true),
    ];
    let mut expected = Vec::new();
    for r in &regions {
        if r.usable {
            for address in (r.start..r.end).step_by(4096) {
                expected.push(address - address % 4096);
            }
        }
    }
    assert_eq!(drain(regions), expected);
    assert_eq!(expected, vec![0x1000, 0x7000, 0x8000, 0x9000, 0x10_0000, 0x10_1000, 0x10_2000, 0x10_3000]);
}

#[test]
fn empty_map_has_no_frames() {
    assert_eq!(drain(Vec::new()), Vec::<u64>::new());
    assert_eq!(drain(vec![region(0, 0x10000, false)]), Vec::<u64>::new());
}

#[test]
fn region_at_the_top_of_the_address_space() {
    let frames = drain(vec![region(u64::MAX - 0x1FFF, u64::MAX, true)]);
    assert_eq!(frames, vec![u64::MAX - 0x1FFF, u64::MAX - 0xFFF]);
}

#[test]
fn new_stack_holds_the_entry_point_in_its_last_word() {
    let stack = initial_stack(0xDEAD_BEEF);
    assert_eq!(stack.len(), STACK_WORDS);
    assert_eq!(stack.len(), 512);
    assert_eq!(stack[511], 0xDEAD_BEEF);
    assert!(stack[..511].iter().all(|&word| word == 0));
}

#[test]
fn saved_stack_pointer_lies_below_the_saved_registers() {
    assert_eq!(FIRST_SAVED_WORD, STACK_WORDS - 1 - NUM_CALLEE_SAVED - 1 - 1);
    assert_eq!(initial_info(0x10_0000), Some(TCBInfo::new(0x10_0000 + 503 * 8)));
    assert_eq!(initial_info(0), Some(TCBInfo { stack_pointer: 4024 }));
    assert_eq!(initial_info(usize::MAX - 4024), Some(TCBInfo { stack_pointer: usize::MAX }));
    assert_eq!(initial_info(usize::MAX - 4023), None);
    assert_eq!(initial_info(usize::MAX), None);
}

#[test]
fn fault_reports_hold_what_the_fault_pushed() {
    let frame_only = FaultReport { stack_frame: true, error_code: false, fault_address: false };
    assert_eq!(Exception::Breakpoint.report(), frame_only);
    assert_eq!(Exception::Overflow.report(), frame_only);
    assert_eq!(
        Exception::DoubleFault.report(),
        FaultReport { stack_frame: true, error_code: true, fault_address: false }
    );
    assert_eq!(
        Exception::PageFault.report(),
        FaultReport { stack_frame: true, error_code: true, fault_address: true }
    );
}
