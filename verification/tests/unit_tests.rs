use emu8086::descriptor::{InstructionType, ModrmRegField, OperandType};
use emu8086::fault::Fault;
use emu8086::instructions::entry;
use emu8086::machine::{Operand, RegisterId};
use emu8086::memory::{MemoryPointer, Segment};
use emu8086::memory_unit::MemoryUnit;
use emu8086::registers;
use emu8086::semantics::{Operation, Shift};
use queues::IsQueue;

fn unit_with_bus(bytes: &[u8]) -> MemoryUnit {
    let mut unit = MemoryUnit::new();
    for byte in bytes {
        unit.inst_bus.add(*byte).unwrap();
    }
    unit
}

#[test]
fn new_unit() {
    let unit = MemoryUnit::new();
    assert_eq!(unit.sp, 0xFFFE);
    assert_eq!(unit.ip, 0);
    assert_eq!(unit.ax, 0);
    assert_eq!(unit.flags.as_word(), 0);
    assert_eq!(unit.inst_bus.size(), 0);
    assert_eq!(unit.inst_bus.capacity(), 6);
    assert_eq!(unit.segment, Segment::CS);
}

#[test]
fn register_codes() {
    let unit = MemoryUnit::new();
    let word = [
        RegisterId::AX,
        RegisterId::CX,
        RegisterId::DX,
        RegisterId::BX,
        RegisterId::SP,
        RegisterId::BP,
        RegisterId::SI,
        RegisterId::DI,
    ];
    for code in 0..8u8 {
        assert_eq!(
            unit.get_reg(code, ModrmRegField::Reg, true),
            Operand::Register(word[code as usize])
        );
        assert_eq!(
            unit.get_reg(code, ModrmRegField::Reg, false),
            Operand::SmallRegister(word[(code % 4) as usize], code > 3)
        );
    }
    assert_eq!(
        unit.get_reg(registers::RES, ModrmRegField::Reg, true),
        Operand::Register(RegisterId::ES)
    );
    assert_eq!(
        unit.get_reg(registers::RCS, ModrmRegField::Reg, true),
        Operand::Register(RegisterId::CS)
    );
    assert_eq!(
        unit.get_reg(registers::RSS, ModrmRegField::Reg, true),
        Operand::Register(RegisterId::SS)
    );
    assert_eq!(
        unit.get_reg(registers::RDS, ModrmRegField::Reg, true),
        Operand::Register(RegisterId::DS)
    );
    assert_eq!(
        unit.get_reg(registers::ES, ModrmRegField::Sreg, true),
        Operand::Register(RegisterId::ES)
    );
    assert_eq!(
        unit.get_reg(registers::DS, ModrmRegField::Sreg, true),
        Operand::Register(RegisterId::DS)
    );
    assert_eq!(MemoryUnit::find_reg(8, ModrmRegField::Reg, true), None);
    assert_eq!(MemoryUnit::find_reg(4, ModrmRegField::Sreg, true), None);
    assert_eq!(MemoryUnit::find_reg(0, ModrmRegField::Group(0), true), None);
}

#[test]
fn half_registers_share_a_word() {
    let mut unit = MemoryUnit::new();
    unit.ax = 0x1234;
    let low = unit.get_reg(registers::AL, ModrmRegField::Reg, false);
    let high = unit.get_reg(registers::AH, ModrmRegField::Reg, false);
    assert_eq!(low.get(&unit), Ok(0x34));
    assert_eq!(high.get(&unit), Ok(0x12));
    assert_eq!(low.set(&mut unit, 0xABCD), Ok(()));
    assert_eq!(unit.ax, 0x12CD);
    assert_eq!(high.set(&mut unit, 0x1_00EF), Ok(()));
    assert_eq!(unit.ax, 0xEFCD);
    assert_eq!(low.get(&unit), Ok(0xCD));
    assert_eq!(high.get(&unit), Ok(0xEF));
}

#[test]
fn operands_read_and_write() {
    let mut unit = MemoryUnit::new();
    let register = Operand::Register(RegisterId::BX);
    assert_eq!(register.set(&mut unit, 0x1_2345), Ok(()));
    assert_eq!(unit.bx, 0x2345);
    assert_eq!(register.get(&unit), Ok(0x2345));
    assert_eq!(Operand::Data(7).get(&unit), Ok(7));
    assert_eq!(Operand::Data(7).set(&mut unit, 9), Ok(()));
    assert_eq!(Operand::Absent.get(&unit), Ok(0));
    assert_eq!(Operand::Absent.set(&mut unit, 9), Ok(()));
    assert_eq!(unit.bx, 0x2345);
    let cell = Operand::Memory(MemoryPointer::new(2, 0x300));
    assert_eq!(cell.set(&mut unit, 0xBEEF), Ok(()));
    assert_eq!(cell.get(&unit), Ok(0xBEEF));
    assert_eq!(unit.memory.memory[0x300], 0xEF);
    let segment = Operand::Register(RegisterId::ES);
    assert_eq!(segment.set(&mut unit, 0x55), Ok(()));
    assert_eq!(unit.memory.extra_segment, 0x55);
    let pointer = Operand::Register(RegisterId::IP);
    assert_eq!(pointer.set(&mut unit, 0x66), Ok(()));
    assert_eq!(unit.ip, 0x66);
}

#[test]
fn immediates_come_from_the_bus() {
    let mut unit = unit_with_bus(&[0x34, 0x12, 0x56]);
    assert_eq!(unit.get_data(2), Ok(Operand::Data(0x1234)));
    assert_eq!(unit.inst_bus.size(), 1);
    assert_eq!(unit.get_data(2), Err(Fault::IncompleteInstruction));
    assert_eq!(unit.inst_bus.size(), 1);
    assert_eq!(unit.get_data(1), Ok(Operand::Data(0x56)));
    assert_eq!(unit.get_data(1), Err(Fault::IncompleteInstruction));
    assert_eq!(unit.get_data(0), Ok(Operand::Data(0)));
    let mut unit = unit_with_bus(&[0x78, 0x56, 0x34, 0x12, 0x9A]);
    assert_eq!(unit.get_data(4), Ok(Operand::Data(0x1234_5678)));
    let mut unit = unit_with_bus(&[0x78, 0x56, 0x34, 0x12]);
    assert_eq!(unit.get_data(3), Ok(Operand::Data(0x34_5678)));
    assert_eq!(unit.inst_bus.size(), 1);
}

fn address_of(unit: &mut MemoryUnit, modf: u8, rm: u8) -> u32 {
    match unit.get_addressing_operand(modf, rm, true) {
        Ok(Operand::Memory(pointer)) => {
            assert_eq!(pointer.len, 2);
            pointer.ptr
        }
        other => panic!("no memory operand: {:?}", other),
    }
}

fn addressing_unit(bytes: &[u8]) -> MemoryUnit {
    let mut unit = unit_with_bus(bytes);
    unit.bx = 0x1000;
    unit.bp = 0x2000;
    unit.si = 0x0300;
    unit.di = 0x0040;
    unit.segment = Segment::DS;
    unit.memory.data_segment = 0x10;
    unit
}

#[test]
fn effective_addresses_without_displacement() {
    let base = 0x10 * 10;
    let expected = [0x1300, 0x1040, 0x2300, 0x2040, 0x0300, 0x0040, 0x5678, 0x1000];
    for rm in 0..8u8 {
        let mut unit = addressing_unit(&[0x78, 0x56]);
        assert_eq!(address_of(&mut unit, 0, rm), base + expected[rm as usize]);
        // Only the direct address takes bytes from the bus.
        assert_eq!(unit.inst_bus.size(), if rm == 6 { 0 } else { 2 });
    }
}

#[test]
fn effective_addresses_with_byte_displacement() {
    let base = 0x10 * 10;
    let expected = [0x1300, 0x1040, 0x2300, 0x2040, 0x0300, 0x0040, 0x2000, 0x1000];
    for rm in 0..8u8 {
        let mut unit = addressing_unit(&[0x85, 0x56]);
        assert_eq!(address_of(&mut unit, 1, rm), base + expected[rm as usize] + 0x85);
        assert_eq!(unit.inst_bus.size(), 1);
    }
}

#[test]
fn effective_addresses_with_word_displacement() {
    let base = 0x10 * 10;
    let expected = [0x1300, 0x1040, 0x2300, 0x2040, 0x0300, 0x0040, 0x2000, 0x1000];
    for rm in 0..8u8 {
        let mut unit = addressing_unit(&[0x78, 0x56]);
        assert_eq!(address_of(&mut unit, 2, rm), base + expected[rm as usize] + 0x5678);
        assert_eq!(unit.inst_bus.size(), 0);
    }
}

#[test]
fn effective_addresses_wrap_at_16_bits() {
    let mut unit = addressing_unit(&[0xFF, 0xFF]);
    // 0x1000 + 0x0300 + 0xFFFF = 0x112FF, which wraps to 0x12FF.
    assert_eq!(address_of(&mut unit, 2, 0), 0x10 * 10 + 0x12FF);
    let mut unit = addressing_unit(&[]);
    unit.bx = 0xF000;
    unit.si = 0x2000;
    assert_eq!(address_of(&mut unit, 0, 0), 0x10 * 10 + 0x1000);
}

#[test]
fn mod_three_names_a_register() {
    let mut unit = addressing_unit(&[0x78]);
    assert_eq!(unit.get_addressing_operand(3, 3, true), Ok(Operand::Register(RegisterId::BX)));
    assert_eq!(
        unit.get_addressing_operand(3, 5, false),
        Ok(Operand::SmallRegister(RegisterId::CX, true))
    );
    assert_eq!(unit.inst_bus.size(), 1);
    assert_eq!(unit.get_addressing_operand(3, 8, true), Err(Fault::IllegalRegister(8)));
    assert_eq!(unit.get_addressing_operand(4, 0, true), Err(Fault::MalformedDescriptor));
    assert_eq!(unit.get_addressing_operand(2, 0, true), Err(Fault::IncompleteInstruction));
}

#[test]
fn byte_operands_are_one_byte_wide() {
    let mut unit = addressing_unit(&[]);
    match unit.get_addressing_operand(0, 7, false) {
        Ok(Operand::Memory(pointer)) => {
            assert_eq!(pointer.len, 1);
            assert_eq!(pointer.ptr, 0x10 * 10 + 0x1000);
        }
        other => panic!("no memory operand: {:?}", other),
    }
}

#[test]
fn code_bytes_fill_the_bus() {
    let mut unit = MemoryUnit::new();
    unit.memory.code_segment = 0x20;
    unit.ip = 0xFFFF;
    unit.memory.write(&vec![0xAA], (0x20, 0xFFFF)).unwrap();
    unit.memory.write(&vec![0xBB, 0xCC], (0x20, 0x0000)).unwrap();
    assert_eq!(unit.peek_code(), Ok(0xAA));
    assert_eq!(unit.read_code_segment(3), Ok(()));
    // The instruction pointer wraps around inside the segment.
    assert_eq!(unit.ip, 2);
    assert_eq!(unit.inst_bus.size(), 3);
    assert_eq!(unit.peek_bus(), Some(0xAA));
    assert_eq!(unit.pop_bus(), Some(0xAA));
    assert_eq!(unit.pop_bus(), Some(0xBB));
    assert_eq!(unit.pop_bus(), Some(0xCC));
    assert_eq!(unit.pop_bus(), None);
    assert_eq!(unit.peek_bus(), None);
}

#[test]
fn the_bus_holds_six_bytes() {
    let mut unit = MemoryUnit::new();
    assert_eq!(unit.read_code_segment(6), Ok(()));
    assert_eq!(unit.ip, 6);
    assert_eq!(unit.read_code_segment(1), Err(Fault::InstructionTooLong));
    unit.clear_bus();
    assert_eq!(unit.inst_bus.size(), 0);
    assert_eq!(unit.read_code_segment(1), Ok(()));
}

#[test]
fn operands_of_a_register_move() {
    // MOV AX, BX: mod 3, reg 0 (AX), r/m 3 (BX), with the reg field as destination.
    let mut unit = unit_with_bus(&[0xC3]);
    let inst = entry(
        OperandType::ModRM(ModrmRegField::Reg, false),
        InstructionType::General,
        true,
        true,
        true,
        None,
    );
    assert_eq!(
        unit.read(&inst),
        Ok((Operand::Register(RegisterId::AX), Operand::Register(RegisterId::BX)))
    );
    assert_eq!(unit.reference, 0);
    // The other direction.
    let mut unit = unit_with_bus(&[0xCB]);
    let inst = entry(
        OperandType::ModRM(ModrmRegField::Reg, false),
        InstructionType::General,
        true,
        false,
        true,
        None,
    );
    assert_eq!(
        unit.read(&inst),
        Ok((Operand::Register(RegisterId::BX), Operand::Register(RegisterId::CX)))
    );
}

#[test]
fn operands_of_a_group_instruction() {
    let mut unit = unit_with_bus(&[0xC3, 0x05]);
    unit.cx = 0x1234;
    let inst = entry(
        OperandType::ModRM(ModrmRegField::Group(0), true),
        InstructionType::General,
        false,
        false,
        true,
        Some(Operation::Add),
    );
    assert_eq!(
        unit.read(&inst),
        Ok((Operand::SmallRegister(RegisterId::BX, false), Operand::Data(5)))
    );
    let mut unit = unit_with_bus(&[0xC3]);
    unit.cx = 0x1234;
    let by_one = entry(
        OperandType::ModRM(ModrmRegField::Group(1), false),
        InstructionType::General,
        true,
        false,
        true,
        Some(Operation::Shift(Shift::ShiftLeft, true)),
    );
    assert_eq!(unit.read(&by_one), Ok((Operand::Register(RegisterId::BX), Operand::Data(1))));
    let mut unit = unit_with_bus(&[0xC3]);
    unit.cx = 0x1234;
    let by_cl = entry(
        OperandType::ModRM(ModrmRegField::Group(2), false),
        InstructionType::General,
        true,
        false,
        true,
        Some(Operation::Shift(Shift::ShiftLeft, true)),
    );
    assert_eq!(unit.read(&by_cl), Ok((Operand::Register(RegisterId::BX), Operand::Data(0x34))));
}

#[test]
fn operands_of_stack_instructions() {
    let mut unit = MemoryUnit::new();
    unit.memory.stack_segment = 0x30;
    unit.sp = 0x0100;
    let push = entry(
        OperandType::Registers(registers::CX, None),
        InstructionType::Stack,
        true,
        true,
        true,
        None,
    );
    assert_eq!(
        unit.read(&push),
        Ok((
            Operand::Memory(MemoryPointer::new(2, 0x30 * 10 + 0xFE)),
            Operand::Register(RegisterId::CX)
        ))
    );
    let pop = entry(
        OperandType::Registers(registers::CX, None),
        InstructionType::Stack,
        true,
        false,
        true,
        None,
    );
    assert_eq!(
        unit.read(&pop),
        Ok((
            Operand::Register(RegisterId::CX),
            Operand::Memory(MemoryPointer::new(2, 0x30 * 10 + 0x100))
        ))
    );
    // The stack pointer itself moves at write-back only.
    assert_eq!(unit.sp, 0x0100);
}

#[test]
fn operands_of_a_far_jump() {
    let mut unit = unit_with_bus(&[0x00, 0x01, 0xEF, 0xDE]);
    let jump = entry(
        OperandType::Data(0),
        InstructionType::ProgramFlow(true),
        true,
        false,
        true,
        Some(Operation::Source),
    );
    assert_eq!(
        unit.read(&jump),
        Ok((Operand::Register(RegisterId::IP), Operand::Data(0xDEEF_0100)))
    );
    assert_eq!(unit.inst_bus.size(), 0);
}

#[test]
fn operands_of_a_return_with_words_to_drop() {
    let mut unit = unit_with_bus(&[0x03, 0x00]);
    unit.sp = 0x0100;
    unit.memory.stack_segment = 0x30;
    let ret = entry(
        OperandType::Data(0),
        InstructionType::Procedure,
        true,
        false,
        true,
        Some(Operation::Source),
    );
    // The return address is read where the stack pointer was.
    assert_eq!(
        unit.read(&ret),
        Ok((
            Operand::Register(RegisterId::IP),
            Operand::Memory(MemoryPointer::new(2, 0x30 * 10 + 0x100))
        ))
    );
    assert_eq!(unit.sp, 0x0106);
}

#[test]
fn operands_of_a_multiplication() {
    let mut unit = unit_with_bus(&[0xE3]);
    unit.dx = 0x0001;
    unit.ax = 0x0002;
    let mul = entry(
        OperandType::ModRM(ModrmRegField::Group(0), false),
        InstructionType::Math,
        true,
        true,
        true,
        Some(Operation::Multiply),
    );
    assert_eq!(
        unit.read(&mul),
        Ok((Operand::Data(0x0001_0002), Operand::Register(RegisterId::BX)))
    );
    assert!(unit.flags.res1);
    assert_eq!(unit.reference, 4);
}

#[test]
fn operands_that_cannot_be_resolved() {
    let mut unit = unit_with_bus(&[]);
    let inst = entry(OperandType::Data(0), InstructionType::General, true, false, true, None);
    assert_eq!(unit.read(&inst), Err(Fault::IncompleteInstruction));
    let inst = entry(OperandType::Data(9), InstructionType::General, true, false, true, None);
    assert_eq!(unit.read(&inst), Err(Fault::IllegalRegister(9)));
    let mut unit = unit_with_bus(&[0xF8]);
    let inst = entry(
        OperandType::ModRM(ModrmRegField::Sreg, false),
        InstructionType::General,
        true,
        true,
        true,
        None,
    );
    assert_eq!(unit.read(&inst), Err(Fault::IllegalRegister(7)));
    let mut unit = unit_with_bus(&[]);
    let inst = entry(
        OperandType::Registers(0, Some(14)),
        InstructionType::General,
        true,
        false,
        true,
        None,
    );
    assert_eq!(unit.read(&inst), Err(Fault::IllegalRegister(14)));
    let inst = entry(OperandType::Absent, InstructionType::General, false, false, false, None);
    assert_eq!(unit.read(&inst), Ok((Operand::Absent, Operand::Absent)));
}
