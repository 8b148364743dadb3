use emu8086::descriptor::{InstructionFormat, InstructionType, ModrmRegField, OperandType};
use emu8086::fault::Fault;
use emu8086::instructions::group1::{group1, group1_instructions};
use emu8086::instructions::group2::{group2, group2_instructions};
use emu8086::instructions::group3::{group3, group3_instructions};
use emu8086::instructions::group4::{group4, group4_instructions};
use emu8086::instructions::group5::{group5, group5_instructions};
use emu8086::instructions::io::io_instructions;
use emu8086::instructions::seg_override::segment_override_instructions;
use emu8086::instructions::{base_row, entry, group_decode, instructions_decode};
use emu8086::registers;
use emu8086::semantics::{Condition, Operation, Shift};

fn row(table: &Vec<(u8, InstructionFormat)>, opcode: u8) -> Option<InstructionFormat> {
    let mut found = None;
    for (op, format) in table.iter() {
        if *op == opcode {
            assert!(found.is_none());
            found = Some(*format);
        }
    }
    found
}

fn placeholder(group: u8, word: bool) -> InstructionFormat {
    entry(
        OperandType::ModRM(ModrmRegField::Group(0), false),
        InstructionType::Group(group),
        word,
        false,
        true,
        None,
    )
}

#[test]
fn table_has_one_row_for_each_opcode() {
    let table = instructions_decode();
    assert_eq!(table.len(), 175);
    let mut seen = [false; 256];
    for (op, _) in table.iter() {
        assert!(!seen[*op as usize]);
        seen[*op as usize] = true;
    }
    assert!(seen[0x00]);
    assert!(seen[0xF4]);
    assert!(seen[0xFF]);
    assert!(!seen[0x0F]);
    assert!(!seen[0x60]);
    assert!(!seen[0xC0]);
}

#[test]
fn arithmetic_rows() {
    let table = instructions_decode();
    assert_eq!(
        row(&table, 0x00),
        Some(entry(
            OperandType::ModRM(ModrmRegField::Reg, false),
            InstructionType::General,
            false,
            false,
            true,
            Some(Operation::Add)
        ))
    );
    assert_eq!(
        row(&table, 0x0B),
        Some(entry(
            OperandType::ModRM(ModrmRegField::Reg, false),
            InstructionType::General,
            true,
            true,
            true,
            Some(Operation::Or)
        ))
    );
    assert_eq!(
        row(&table, 0x15),
        Some(entry(
            OperandType::Data(registers::AX),
            InstructionType::General,
            true,
            false,
            true,
            Some(Operation::AddCarry)
        ))
    );
    assert_eq!(
        row(&table, 0x3C),
        Some(entry(
            OperandType::Data(registers::AL),
            InstructionType::General,
            false,
            false,
            false,
            Some(Operation::Compare(false))
        ))
    );
    assert_eq!(row(&table, 0x1A).unwrap().execute, Some(Operation::SubBorrow));
    assert_eq!(row(&table, 0x22).unwrap().execute, Some(Operation::And));
    assert_eq!(row(&table, 0x29).unwrap().execute, Some(Operation::Sub));
    assert_eq!(row(&table, 0x33).unwrap().execute, Some(Operation::Xor));
    assert_eq!(row(&table, 0x39).unwrap().execute, Some(Operation::Compare(true)));
    assert_eq!(row(&table, 0x3A).unwrap().execute, Some(Operation::Compare(false)));
    assert_eq!(row(&table, 0x3D).unwrap().execute, Some(Operation::Compare(true)));
}

#[test]
fn stack_rows() {
    let table = instructions_decode();
    assert_eq!(
        row(&table, 0x50),
        Some(entry(
            OperandType::Registers(registers::AX, None),
            InstructionType::Stack,
            true,
            true,
            true,
            None
        ))
    );
    assert_eq!(
        row(&table, 0x5F),
        Some(entry(
            OperandType::Registers(registers::DI, None),
            InstructionType::Stack,
            true,
            false,
            true,
            None
        ))
    );
    assert_eq!(
        row(&table, 0x06),
        Some(entry(
            OperandType::Registers(registers::RES, None),
            InstructionType::Stack,
            true,
            true,
            true,
            None
        ))
    );
    assert_eq!(
        row(&table, 0x9D),
        Some(entry(
            OperandType::Absent,
            InstructionType::Stack,
            true,
            false,
            false,
            Some(Operation::PopFlags)
        ))
    );
}

#[test]
fn jump_rows() {
    let table = instructions_decode();
    assert_eq!(
        row(&table, 0x74),
        Some(entry(
            OperandType::Data(0),
            InstructionType::ProgramFlow(false),
            false,
            false,
            true,
            Some(Operation::Jump(Condition::Equal))
        ))
    );
    assert_eq!(row(&table, 0x7F).unwrap().execute, Some(Operation::Jump(Condition::Greater)));
    assert_eq!(row(&table, 0xEB).unwrap().execute, Some(Operation::Jump(Condition::Always)));
    assert_eq!(
        row(&table, 0xEA),
        Some(entry(
            OperandType::Data(0),
            InstructionType::ProgramFlow(true),
            true,
            false,
            true,
            Some(Operation::Source)
        ))
    );
    assert_eq!(
        row(&table, 0xE8),
        Some(entry(
            OperandType::Data(0),
            InstructionType::Procedure,
            true,
            true,
            true,
            Some(Operation::Add)
        ))
    );
}

#[test]
fn move_rows() {
    let table = instructions_decode();
    assert_eq!(row(&table, 0xB0).unwrap().operand_type, OperandType::Data(registers::AL));
    assert_eq!(row(&table, 0xB2).unwrap().operand_type, OperandType::Data(registers::BL));
    assert_eq!(row(&table, 0xB3).unwrap().operand_type, OperandType::Data(registers::DL));
    assert_eq!(row(&table, 0xB7).unwrap().operand_type, OperandType::Data(registers::BH));
    assert_eq!(row(&table, 0xBF).unwrap().operand_type, OperandType::Data(registers::DI));
    assert!(row(&table, 0xBF).unwrap().word);
    assert!(!row(&table, 0xB7).unwrap().word);
    assert_eq!(
        row(&table, 0x8E),
        Some(entry(
            OperandType::ModRM(ModrmRegField::Sreg, false),
            InstructionType::General,
            true,
            true,
            true,
            None
        ))
    );
    assert_eq!(
        row(&table, 0xA2),
        Some(entry(
            OperandType::Address(registers::AL),
            InstructionType::General,
            false,
            true,
            true,
            None
        ))
    );
    assert_eq!(
        row(&table, 0xF4),
        Some(entry(OperandType::Absent, InstructionType::General, false, false, false, None))
    );
}

#[test]
fn base_rows_leave_the_special_ones_out() {
    assert!(base_row(0x00).is_some());
    assert!(base_row(0x80).is_none());
    assert!(base_row(0x26).is_none());
    assert!(base_row(0xE4).is_none());
    assert!(base_row(0x0F).is_none());
    assert_eq!(base_row(0x40).unwrap().execute, Some(Operation::Increment));
    assert_eq!(base_row(0x4F).unwrap().execute, Some(Operation::Decrement));
}

#[test]
fn group_rows_are_appended() {
    let mut rows: Vec<(u8, InstructionFormat)> = Vec::new();
    group1_instructions(&mut rows);
    assert_eq!(rows.len(), 4);
    assert_eq!(rows[0].0, 0x80);
    assert_eq!(rows[3].0, 0x83);
    assert_eq!(
        rows[1].1,
        entry(
            OperandType::ModRM(ModrmRegField::Group(0), true),
            InstructionType::Group(1),
            true,
            false,
            true,
            None
        )
    );
    assert!(!rows[3].1.word);
    group2_instructions(&mut rows);
    assert_eq!(rows.len(), 8);
    assert_eq!(rows[4].0, 0xD0);
    assert_eq!(rows[4].1.operand_type, OperandType::ModRM(ModrmRegField::Group(1), false));
    assert_eq!(rows[7].0, 0xD3);
    assert_eq!(rows[7].1.operand_type, OperandType::ModRM(ModrmRegField::Group(2), false));
    group3_instructions(&mut rows);
    assert_eq!(rows.len(), 10);
    assert_eq!(rows[8], (0xF6, placeholder(3, false)));
    assert_eq!(rows[9], (0xF7, placeholder(3, true)));
    group4_instructions(&mut rows);
    assert_eq!(rows[10], (0xFE, placeholder(4, false)));
    group5_instructions(&mut rows);
    assert_eq!(rows[11], (0xFF, placeholder(5, true)));
    segment_override_instructions(&mut rows);
    assert_eq!(rows.len(), 16);
    assert_eq!(
        rows[12],
        (
            0x26,
            entry(
                OperandType::Registers(registers::ES, None),
                InstructionType::SegmentOverride,
                false,
                false,
                false,
                None
            )
        )
    );
    assert_eq!(rows[13].1.operand_type, OperandType::Registers(registers::CS, None));
    assert_eq!(rows[14].1.operand_type, OperandType::Registers(registers::SS, None));
    assert_eq!(rows[15].1.operand_type, OperandType::Registers(registers::DS, None));
    io_instructions(&mut rows);
    assert_eq!(rows.len(), 24);
    assert_eq!(
        rows[18],
        (
            0xE6,
            entry(OperandType::Data(registers::AL), InstructionType::IO, false, true, true, None)
        )
    );
    assert_eq!(
        rows[21],
        (
            0xED,
            entry(
                OperandType::Registers(registers::AX, Some(registers::DX)),
                InstructionType::IO,
                true,
                false,
                true,
                None
            )
        )
    );
}

#[test]
fn group1_resolves_arithmetic() {
    let operations = [
        Operation::Add,
        Operation::Or,
        Operation::AddCarry,
        Operation::SubBorrow,
        Operation::And,
        Operation::Sub,
        Operation::Xor,
        Operation::Compare(true),
    ];
    for code in 0..8u8 {
        let mut inst = entry(
            OperandType::ModRM(ModrmRegField::Group(0), true),
            InstructionType::Group(1),
            true,
            false,
            true,
            None,
        );
        assert_eq!(group1(code, &mut inst), Ok(()));
        assert_eq!(inst.execute, Some(operations[code as usize]));
        assert_eq!(inst.write, code != 7);
        assert_eq!(inst.instrution_type, InstructionType::General);
        assert_eq!(inst.operand_type, OperandType::ModRM(ModrmRegField::Group(0), true));
        assert!(inst.word);
    }
    let mut inst = placeholder(1, false);
    assert_eq!(group1(7, &mut inst), Ok(()));
    assert_eq!(inst.execute, Some(Operation::Compare(false)));
    let mut inst = placeholder(1, false);
    assert_eq!(group1(8, &mut inst), Err(Fault::IllegalGroupCode(1, 8)));
    assert_eq!(inst, placeholder(1, false));
}

#[test]
fn group2_resolves_shifts() {
    let operations = [
        Some(Shift::RotateLeft),
        Some(Shift::RotateRight),
        Some(Shift::RotateCarryLeft),
        Some(Shift::RotateCarryRight),
        Some(Shift::ShiftLeft),
        Some(Shift::ShiftRight),
        None,
        Some(Shift::ShiftArithmeticRight),
    ];
    for code in 0..8u8 {
        let mut inst = placeholder(2, true);
        match operations[code as usize] {
            Some(kind) => {
                assert_eq!(group2(code, &mut inst), Ok(()));
                assert_eq!(inst.execute, Some(Operation::Shift(kind, true)));
                assert_eq!(inst.instrution_type, InstructionType::General);
                // The operation works at the width of the placeholder.
                let mut byte = placeholder(2, false);
                assert_eq!(group2(code, &mut byte), Ok(()));
                assert_eq!(byte.execute, Some(Operation::Shift(kind, false)));
            }
            None => {
                assert_eq!(group2(code, &mut inst), Err(Fault::IllegalGroupCode(2, code)));
                assert_eq!(inst, placeholder(2, true));
            }
        }
    }
}

#[test]
fn group3_resolves_unary_and_math() {
    let mut inst = placeholder(3, true);
    assert_eq!(group3(0, &mut inst), Ok(()));
    assert_eq!(
        inst,
        entry(
            OperandType::ModRM(ModrmRegField::Group(0), true),
            InstructionType::General,
            true,
            false,
            false,
            Some(Operation::And)
        )
    );
    let mut inst = placeholder(3, false);
    assert_eq!(group3(1, &mut inst), Err(Fault::IllegalGroupCode(3, 1)));
    let mut inst = placeholder(3, false);
    assert_eq!(group3(2, &mut inst), Ok(()));
    assert_eq!(
        inst,
        entry(
            OperandType::ModRM(ModrmRegField::Group(0), false),
            InstructionType::General,
            false,
            false,
            true,
            Some(Operation::Not)
        )
    );
    let mut inst = placeholder(3, false);
    assert_eq!(group3(3, &mut inst), Ok(()));
    assert_eq!(inst.execute, Some(Operation::Negate));
    assert_eq!(inst.instrution_type, InstructionType::General);
    let math = [
        Operation::Multiply,
        Operation::SignedMultiply,
        Operation::Divide,
        Operation::SignedDivide,
    ];
    for code in 4..8u8 {
        let mut inst = placeholder(3, true);
        assert_eq!(group3(code, &mut inst), Ok(()));
        assert_eq!(
            inst,
            entry(
                OperandType::ModRM(ModrmRegField::Group(0), false),
                InstructionType::Math,
                true,
                true,
                true,
                Some(math[(code - 4) as usize])
            )
        );
    }
}

#[test]
fn group4_resolves_byte_increment() {
    let mut inst = placeholder(4, false);
    assert_eq!(group4(0, &mut inst), Ok(()));
    assert_eq!(inst.execute, Some(Operation::Increment));
    assert_eq!(inst.instrution_type, InstructionType::General);
    let mut inst = placeholder(4, false);
    assert_eq!(group4(1, &mut inst), Ok(()));
    assert_eq!(inst.execute, Some(Operation::Decrement));
    let mut inst = placeholder(4, false);
    assert_eq!(group4(2, &mut inst), Err(Fault::IllegalGroupCode(4, 2)));
    assert_eq!(inst, placeholder(4, false));
}

#[test]
fn group5_resolves_calls_and_jumps() {
    let mut inst = placeholder(5, true);
    assert_eq!(group5(0, &mut inst), Ok(()));
    assert_eq!(inst.execute, Some(Operation::Increment));
    assert_eq!(inst.instrution_type, InstructionType::General);
    assert!(!inst.direction);
    let mut inst = placeholder(5, true);
    assert_eq!(group5(1, &mut inst), Ok(()));
    assert_eq!(inst.execute, Some(Operation::Decrement));
    let mut inst = placeholder(5, true);
    assert_eq!(group5(2, &mut inst), Ok(()));
    assert_eq!(inst.instrution_type, InstructionType::Procedure);
    assert_eq!(inst.execute, Some(Operation::Source));
    assert!(inst.direction);
    // The far call is refused, not passed over.
    let mut inst = placeholder(5, true);
    assert_eq!(group5(3, &mut inst), Err(Fault::Unimplemented(5, 3)));
    assert_eq!(inst, placeholder(5, true));
    let mut inst = placeholder(5, true);
    assert_eq!(group5(4, &mut inst), Ok(()));
    assert_eq!(inst.instrution_type, InstructionType::ProgramFlow(false));
    let mut inst = placeholder(5, true);
    assert_eq!(group5(5, &mut inst), Ok(()));
    assert_eq!(inst.instrution_type, InstructionType::ProgramFlow(true));
    let mut inst = placeholder(5, true);
    assert_eq!(group5(6, &mut inst), Ok(()));
    assert_eq!(inst.instrution_type, InstructionType::Stack);
    assert!(inst.direction);
    let mut inst = placeholder(5, true);
    assert_eq!(group5(7, &mut inst), Err(Fault::IllegalGroupCode(5, 7)));
}

#[test]
fn group_decode_selects_the_group() {
    let mut inst = placeholder(2, true);
    assert_eq!(group_decode(2, 4, &mut inst), Ok(()));
    assert_eq!(inst.execute, Some(Operation::Shift(Shift::ShiftLeft, true)));
    let mut inst = placeholder(3, true);
    assert_eq!(group_decode(3, 6, &mut inst), Ok(()));
    assert_eq!(inst.execute, Some(Operation::Divide));
    let mut inst = placeholder(9, true);
    assert_eq!(group_decode(9, 0, &mut inst), Err(Fault::IllegalGroupCode(9, 0)));
    assert_eq!(inst, placeholder(9, true));
    // The same group and sub-code give the same descriptor each time.
    let mut first = placeholder(1, false);
    let mut second = placeholder(1, false);
    assert_eq!(group_decode(1, 5, &mut first), Ok(()));
    assert_eq!(group_decode(1, 5, &mut second), Ok(()));
    assert_eq!(first, second);
}
