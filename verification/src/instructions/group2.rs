//! Group 2: shifts and rotations by one or by the low byte of CX.

use crate::descriptor::{InstructionFormat, InstructionType, ModrmRegField, OperandType};
use crate::fault::Fault;
use crate::instructions::{entry, rows_of};
use crate::semantics::{Operation, Shift};
use vstd::prelude::*;

verus! {

/// The shift or rotation of sub-code `code` of group 2, if it has one.
pub open spec fn group2_operation(code: u8) -> Option<Shift> {
    if code == 0 {
        Some(Shift::RotateLeft)
    } else if code == 1 {
        Some(Shift::RotateRight)
    } else if code == 2 {
        Some(Shift::RotateCarryLeft)
    } else if code == 3 {
        Some(Shift::RotateCarryRight)
    } else if code == 4 {
        Some(Shift::ShiftLeft)
    } else if code == 5 {
        Some(Shift::ShiftRight)
    } else if code == 7 {
        Some(Shift::ShiftArithmeticRight)
    } else {
        None
    }
}

/// The descriptor of sub-code `code` of group 2: the shift or rotation of
/// that number, on an operand of the width of the placeholder.
pub open spec fn group2_resolution(code: u8, base: InstructionFormat) -> Result<
    InstructionFormat,
    Fault,
> {
    match group2_operation(code) {
        Some(kind) => Ok(
            InstructionFormat {
                instrution_type: InstructionType::General,
                execute: Some(Operation::Shift(kind, base.word)),
                ..base
            },
        ),
        None => Err(Fault::IllegalGroupCode(2, code)),
    }
}

/// Resolves a sub-code of group 2: 0 is ROL, 1 ROR, 2 RCL, 3 RCR, 4 SHL,
/// 5 SHR and 7 SAR.
pub fn group2(code: u8, inst: &mut InstructionFormat) -> (res: Result<(), Fault>)
    ensures
        match group2_resolution(code, *old(inst)) {
            Ok(resolved) => res is Ok && *final(inst) == resolved,
            Err(fault) => res == Err::<(), Fault>(fault) && *final(inst) == *old(inst),
        },
{
    let execute = match code {
        0 => Shift::RotateLeft,
        1 => Shift::RotateRight,
        2 => Shift::RotateCarryLeft,
        3 => Shift::RotateCarryRight,
        4 => Shift::ShiftLeft,
        5 => Shift::ShiftRight,
        7 => Shift::ShiftArithmeticRight,
        _ => {
            return Err(Fault::IllegalGroupCode(2, code));
        },
    };
    *inst = InstructionFormat {
        instrution_type: InstructionType::General,
        execute: Some(Operation::Shift(execute, inst.word)),
        ..*inst
    };
    Ok(())
}

/// Adds the placeholder rows of group 2, opcodes 0xD0 to 0xD3.
pub fn group2_instructions(instructions_map: &mut Vec<(u8, InstructionFormat)>)
    ensures
        final(instructions_map)@ == old(instructions_map)@ + rows_of(seq![0xD0u8, 0xD1u8, 0xD2u8, 0xD3u8]),
{
    let ghost before = instructions_map@;
    instructions_map.push((0xD0, entry(OperandType::ModRM(ModrmRegField::Group(1), false), InstructionType::Group(2), false, false, true, None)));
    instructions_map.push((0xD1, entry(OperandType::ModRM(ModrmRegField::Group(1), false), InstructionType::Group(2), true, false, true, None)));
    instructions_map.push((0xD2, entry(OperandType::ModRM(ModrmRegField::Group(2), false), InstructionType::Group(2), false, false, true, None)));
    instructions_map.push((0xD3, entry(OperandType::ModRM(ModrmRegField::Group(2), false), InstructionType::Group(2), true, false, true, None)));
    assert(instructions_map@ =~= before + rows_of(seq![0xD0u8, 0xD1u8, 0xD2u8, 0xD3u8]));
}

} // verus!
