//! Group 3: test, complement, negation, multiplication and division.

use crate::descriptor::{InstructionFormat, InstructionType, ModrmRegField, OperandType};
use crate::fault::Fault;
use crate::instructions::{entry, rows_of};
use crate::semantics::Operation;
use vstd::prelude::*;

verus! {

/// The operation of sub-code `code` of group 3, if it has one.
pub open spec fn group3_operation(code: u8) -> Option<Operation> {
    if code == 0 {
        Some(Operation::And)
    } else if code == 2 {
        Some(Operation::Not)
    } else if code == 3 {
        Some(Operation::Negate)
    } else if code == 4 {
        Some(Operation::Multiply)
    } else if code == 5 {
        Some(Operation::SignedMultiply)
    } else if code == 6 {
        Some(Operation::Divide)
    } else if code == 7 {
        Some(Operation::SignedDivide)
    } else {
        None
    }
}

/// The descriptor of sub-code `code` of group 3. The test takes an
/// immediate and writes nothing back. The sub-codes below 4 are general
/// instructions on the decoded operand; from 4 on they are in the
/// multiply and divide category, whose destination is the pair DX:AX.
pub open spec fn group3_resolution(code: u8, base: InstructionFormat) -> Result<
    InstructionFormat,
    Fault,
> {
    match group3_operation(code) {
        Some(operation) => Ok(
            InstructionFormat {
                operand_type: OperandType::ModRM(ModrmRegField::Group(0), code == 0),
                instrution_type: if code < 4 {
                    InstructionType::General
                } else {
                    InstructionType::Math
                },
                direction: code >= 4,
                write: code != 0,
                execute: Some(operation),
                ..base
            },
        ),
        None => Err(Fault::IllegalGroupCode(3, code)),
    }
}

/// Resolves a sub-code of group 3: 0 is TEST, 2 NOT, 3 NEG, 4 MUL, 5 IMUL,
/// 6 DIV and 7 IDIV.
pub fn group3(code: u8, inst: &mut InstructionFormat) -> (res: Result<(), Fault>)
    ensures
        match group3_resolution(code, *old(inst)) {
            Ok(resolved) => res is Ok && *final(inst) == resolved,
            Err(fault) => res == Err::<(), Fault>(fault) && *final(inst) == *old(inst),
        },
{
    let execute = match code {
        0 => Operation::And,
        2 => Operation::Not,
        3 => Operation::Negate,
        4 => Operation::Multiply,
        5 => Operation::SignedMultiply,
        6 => Operation::Divide,
        7 => Operation::SignedDivide,
        _ => {
            return Err(Fault::IllegalGroupCode(3, code));
        },
    };
    *inst = InstructionFormat {
        operand_type: OperandType::ModRM(ModrmRegField::Group(0), code == 0),
        instrution_type: if code < 4 {
            InstructionType::General
        } else {
            InstructionType::Math
        },
        direction: code >= 4,
        write: code != 0,
        execute: Some(execute),
        ..*inst
    };
    Ok(())
}

/// Adds the placeholder rows of group 3, opcodes 0xF6 and 0xF7.
pub fn group3_instructions(instructions_map: &mut Vec<(u8, InstructionFormat)>)
    ensures
        final(instructions_map)@ == old(instructions_map)@ + rows_of(seq![0xF6u8, 0xF7u8]),
{
    let ghost before = instructions_map@;
    instructions_map.push((0xF6, entry(OperandType::ModRM(ModrmRegField::Group(0), false), InstructionType::Group(3), false, false, true, None)));
    instructions_map.push((0xF7, entry(OperandType::ModRM(ModrmRegField::Group(0), false), InstructionType::Group(3), true, false, true, None)));
    assert(instructions_map@ =~= before + rows_of(seq![0xF6u8, 0xF7u8]));
}

} // verus!
