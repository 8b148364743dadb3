//! Group 1: arithmetic on an operand and an immediate.

use crate::descriptor::{InstructionFormat, InstructionType, ModrmRegField, OperandType};
use crate::fault::Fault;
use crate::instructions::{arithmetic_operation, entry, rows_of};
use crate::semantics::Operation;
use vstd::prelude::*;

verus! {

/// The descriptor of sub-code `code` of group 1: the arithmetic operation
/// of that number. All but the comparison write their result back.
pub open spec fn group1_resolution(code: u8, base: InstructionFormat) -> Result<
    InstructionFormat,
    Fault,
> {
    if code < 8 {
        Ok(
            InstructionFormat {
                instrution_type: InstructionType::General,
                write: code != 7,
                execute: Some(arithmetic_operation(code as int, base.word)),
                ..base
            },
        )
    } else {
        Err(Fault::IllegalGroupCode(1, code))
    }
}

/// Resolves a sub-code of group 1: 0 is ADD, 1 OR, 2 ADC, 3 SBB, 4 AND,
/// 5 SUB, 6 XOR and 7 CMP.
pub fn group1(code: u8, inst: &mut InstructionFormat) -> (res: Result<(), Fault>)
    ensures
        match group1_resolution(code, *old(inst)) {
            Ok(resolved) => res is Ok && *final(inst) == resolved,
            Err(fault) => res == Err::<(), Fault>(fault) && *final(inst) == *old(inst),
        },
{
    let execute = match code {
        0 => Operation::Add,
        1 => Operation::Or,
        2 => Operation::AddCarry,
        3 => Operation::SubBorrow,
        4 => Operation::And,
        5 => Operation::Sub,
        6 => Operation::Xor,
        7 => Operation::Compare(inst.word),
        _ => {
            return Err(Fault::IllegalGroupCode(1, code));
        },
    };
    *inst = InstructionFormat {
        instrution_type: InstructionType::General,
        write: code != 7,
        execute: Some(execute),
        ..*inst
    };
    Ok(())
}

/// Adds the placeholder rows of group 1, opcodes 0x80 to 0x83.
pub fn group1_instructions(instructions_map: &mut Vec<(u8, InstructionFormat)>)
    ensures
        final(instructions_map)@ == old(instructions_map)@ + rows_of(seq![0x80u8, 0x81u8, 0x82u8, 0x83u8]),
{
    let ghost before = instructions_map@;
    instructions_map.push((0x80, entry(OperandType::ModRM(ModrmRegField::Group(0), true), InstructionType::Group(1), false, false, true, None)));
    instructions_map.push((0x81, entry(OperandType::ModRM(ModrmRegField::Group(0), true), InstructionType::Group(1), true, false, true, None)));
    instructions_map.push((0x82, entry(OperandType::ModRM(ModrmRegField::Group(0), true), InstructionType::Group(1), false, false, true, None)));
    instructions_map.push((0x83, entry(OperandType::ModRM(ModrmRegField::Group(0), true), InstructionType::Group(1), false, false, true, None)));
    assert(instructions_map@ =~= before + rows_of(seq![0x80u8, 0x81u8, 0x82u8, 0x83u8]));
}

} // verus!
