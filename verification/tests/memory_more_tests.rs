use emu8086::fault::Fault;
use emu8086::memory::{
    get_physical_address, AddressPolicy, MemoryPointer, MemorySegments, Segment, MEMORY_SIZE,
};

#[test]
fn physical_address_by_policy() {
    assert_eq!(get_physical_address((0xDEEF, 0x0100), AddressPolicy::TimesTen), 570_966);
    assert_eq!(get_physical_address((0xF000, 0xFFF0), AddressPolicy::TimesTen), 679_920);
    assert_eq!(get_physical_address((0xF000, 0xFFF0), AddressPolicy::TimesSixteen), 0xFFFF0);
    assert_eq!(get_physical_address((0xFFFF, 0xFFFF), AddressPolicy::TimesSixteen), 0x10FFEF);
    assert_eq!(get_physical_address((0, 0), AddressPolicy::TimesTen), 0);
}

#[test]
fn new_memory_is_zeroed() {
    let mem = MemorySegments::new();
    assert_eq!(mem.memory.len(), MEMORY_SIZE);
    assert_eq!(mem.address_policy(), AddressPolicy::TimesTen);
    assert_eq!(mem.code_segment, 0);
    assert_eq!(mem.data_segment, 0);
    assert_eq!(mem.stack_segment, 0);
    assert_eq!(mem.extra_segment, 0);
    assert_eq!(mem.index((0x1234, 0x5678)), Ok(0));
    assert_eq!(mem.translate(0x1234, 0x5678), 0x1234 * 10 + 0x5678);
    let real = MemorySegments::with_policy(AddressPolicy::TimesSixteen);
    assert_eq!(real.translate(0x1234, 0x5678), 0x1234 * 16 + 0x5678);
}

#[test]
fn segments_by_name_and_code() {
    assert_eq!(Segment::from("ds"), Ok(Segment::DS));
    assert_eq!(Segment::from("DS"), Ok(Segment::DS));
    assert_eq!(Segment::from("Cs"), Ok(Segment::CS));
    assert_eq!(Segment::from("sS"), Ok(Segment::SS));
    assert_eq!(Segment::from("ES"), Ok(Segment::ES));
    assert_eq!(Segment::from("ivt"), Err(()));
    assert_eq!(Segment::from(""), Err(()));
    assert_eq!(Segment::from_lowercase("ds"), Ok(Segment::DS));
    assert_eq!(Segment::from_lowercase("cs"), Ok(Segment::CS));
    assert_eq!(Segment::from_lowercase("ss"), Ok(Segment::SS));
    assert_eq!(Segment::from_lowercase("es"), Ok(Segment::ES));
    assert_eq!(Segment::from_lowercase("DS"), Err(()));
    assert_eq!(Segment::from_lowercase("d"), Err(()));
    assert_eq!(Segment::from_code(0), Ok(Segment::ES));
    assert_eq!(Segment::from_code(1), Ok(Segment::CS));
    assert_eq!(Segment::from_code(2), Ok(Segment::SS));
    assert_eq!(Segment::from_code(3), Ok(Segment::DS));
    assert_eq!(Segment::from_code(4), Err(()));
}

#[test]
fn segment_values() {
    let mut mem = MemorySegments::new();
    mem.code_segment = 1;
    mem.stack_segment = 2;
    mem.extra_segment = 3;
    mem.data_segment = 4;
    assert_eq!(Segment::CS.get_segment(&mem), 1);
    assert_eq!(Segment::SS.get_segment(&mem), 2);
    assert_eq!(Segment::ES.get_segment(&mem), 3);
    assert_eq!(Segment::DS.get_segment(&mem), 4);
    assert_eq!(Segment::IVT.get_segment(&mem), 0);
    assert_eq!(mem.get_memory_pointer(&Segment::DS, 0x20), 4 * 10 + 0x20);
    assert_eq!(mem.get_memory_pointer(&Segment::IVT, 0x84), 0x84);
}

#[test]
fn cells_are_little_endian() {
    let mut mem = MemorySegments::new();
    let cell = MemoryPointer::new(4, 0x100);
    assert_eq!(cell.set(&mut mem, 0x1234_5678), Ok(()));
    assert_eq!(mem.memory[0x100], 0x78);
    assert_eq!(mem.memory[0x101], 0x56);
    assert_eq!(mem.memory[0x102], 0x34);
    assert_eq!(mem.memory[0x103], 0x12);
    assert_eq!(cell.get(&mem), Ok(0x1234_5678));
    assert_eq!(MemoryPointer::new(2, 0x101).get(&mem), Ok(0x3456));
    assert_eq!(MemoryPointer::new(1, 0x103).get(&mem), Ok(0x12));
}

#[test]
fn narrow_cells_take_the_low_bytes() {
    let mut mem = MemorySegments::new();
    assert_eq!(MemoryPointer::new(4, 0x200).set(&mut mem, 0xFFFF_FFFF), Ok(()));
    assert_eq!(MemoryPointer::new(1, 0x200).set(&mut mem, 0x1234_5678), Ok(()));
    assert_eq!(MemoryPointer::new(4, 0x200).get(&mem), Ok(0xFFFF_FF78));
    assert_eq!(MemoryPointer::new(2, 0x202).set(&mut mem, 0x1234_5678), Ok(()));
    assert_eq!(MemoryPointer::new(4, 0x200).get(&mem), Ok(0x5678_FF78));
    assert_eq!(mem.read_value(0x200, 2), Ok(0xFF78));
    assert_eq!(mem.write_value(0x200, 2, 0xABCD), Ok(()));
    assert_eq!(mem.read_value(0x200, 4), Ok(0x5678_ABCD));
}

#[test]
fn cells_outside_the_image_are_refused() {
    let mut mem = MemorySegments::new();
    let last = (MEMORY_SIZE - 1) as u32;
    assert_eq!(MemoryPointer::new(1, last).set(&mut mem, 0xAB), Ok(()));
    assert_eq!(MemoryPointer::new(1, last).get(&mem), Ok(0xAB));
    assert_eq!(MemoryPointer::new(2, last).get(&mem), Err(Fault::AddressOutOfRange(last)));
    assert_eq!(
        MemoryPointer::new(2, last).set(&mut mem, 0x1234),
        Err(Fault::AddressOutOfRange(last))
    );
    assert_eq!(MemoryPointer::new(1, last).get(&mem), Ok(0xAB));
    assert_eq!(
        MemoryPointer::new(4, last + 1).get(&mem),
        Err(Fault::AddressOutOfRange(last + 1))
    );
    let real = MemorySegments::with_policy(AddressPolicy::TimesSixteen);
    assert_eq!(real.index((0xFFFF, 0xFFFF)), Err(Fault::AddressOutOfRange(0x10FFEF)));
    assert_eq!(real.index((0xF000, 0xFFFF)), Ok(0));
}

#[test]
fn blocks_are_copied() {
    let mut mem = MemorySegments::new();
    assert_eq!(mem.write(&vec![1, 2, 3], (0x10, 0x5)), Ok(()));
    assert_eq!(mem.memory[0x10 * 10 + 5], 1);
    assert_eq!(mem.memory[0x10 * 10 + 6], 2);
    assert_eq!(mem.memory[0x10 * 10 + 7], 3);
    assert_eq!(mem.memory[0x10 * 10 + 8], 0);
    assert_eq!(mem.memory[0x10 * 10 + 4], 0);
    assert_eq!(mem.write(&vec![], (0xFFFF, 0xFFFF)), Ok(()));
    let mut real = MemorySegments::with_policy(AddressPolicy::TimesSixteen);
    assert_eq!(
        real.write(&vec![1, 2, 3], (0xFFFF, 0x000E)),
        Err(Fault::AddressOutOfRange(0xFFFFE))
    );
    assert_eq!(real.memory[0xFFFFE], 0);
    assert_eq!(real.write(&vec![1, 2], (0xFFFF, 0x000E)), Ok(()));
    assert_eq!(real.memory[0xFFFFF], 2);
}
