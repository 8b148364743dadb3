use emu8086::descriptor::ModrmRegField;
use emu8086::memory::{MemoryPointer, MemorySegments, Segment};
use emu8086::memory_unit::MemoryUnit;

#[test]
fn mempointer() {
    let mut mem = MemorySegments::new();
    let seg = Segment::DS;
    let p = mem.get_memory_pointer(&seg, 0);
    let memp = MemoryPointer::new(2, p);
    memp.set(&mut mem, 0xABCD).unwrap();
    assert_eq!(memp.get(&mem), Ok(0xABCD));
    assert_eq!(mem.index((0, 0)), Ok(0xCD));
    assert_eq!(mem.index((0, 1)), Ok(0xAB));
}

#[test]
fn operand_test() {
    let mut mem = MemoryUnit::new();
    let reg = mem.get_reg(0, ModrmRegField::Reg, true);
    let reg2 = mem.get_reg(1, ModrmRegField::Reg, true);
    reg.set(&mut mem, 20).unwrap();
    reg2.set(&mut mem, 5).unwrap();
    assert!(mem.ax == 20);
    assert!(mem.cx == 5);
}
