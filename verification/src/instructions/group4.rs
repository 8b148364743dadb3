//! Group 4: increment and decrement of a byte.

use crate::descriptor::{InstructionFormat, InstructionType, ModrmRegField, OperandType};
use crate::fault::Fault;
use crate::instructions::{entry, rows_of};
use crate::semantics::Operation;
use vstd::prelude::*;

verus! {

/// The descriptor of sub-code `code` of group 4.
pub open spec fn group4_resolution(code: u8, base: InstructionFormat) -> Result<
    InstructionFormat,
    Fault,
> {
    if code < 2 {
        Ok(
            InstructionFormat {
                instrution_type: InstructionType::General,
                execute: Some(
                    if code == 0 {
                        Operation::Increment
                    } else {
                        Operation::Decrement
                    },
                ),
                ..base
            },
        )
    } else {
        Err(Fault::IllegalGroupCode(4, code))
    }
}

/// Resolves a sub-code of group 4: 0 is INC and 1 is DEC.
pub fn group4(code: u8, inst: &mut InstructionFormat) -> (res: Result<(), Fault>)
    ensures
        match group4_resolution(code, *old(inst)) {
            Ok(resolved) => res is Ok && *final(inst) == resolved,
            Err(fault) => res == Err::<(), Fault>(fault) && *final(inst) == *old(inst),
        },
{
    let execute = match code {
        0 => Operation::Increment,
        1 => Operation::Decrement,
        _ => {
            return Err(Fault::IllegalGroupCode(4, code));
        },
    };
    *inst = InstructionFormat {
        instrution_type: InstructionType::General,
        execute: Some(execute),
        ..*inst
    };
    Ok(())
}

/// Adds the placeholder row of group 4, opcode 0xFE.
pub fn group4_instructions(instructions_map: &mut Vec<(u8, InstructionFormat)>)
    ensures
        final(instructions_map)@ == old(instructions_map)@ + rows_of(seq![0xFEu8]),
{
    let ghost before = instructions_map@;
    instructions_map.push((0xFE, entry(OperandType::ModRM(ModrmRegField::Group(0), false), InstructionType::Group(4), false, false, true, None)));
    assert(instructions_map@ =~= before + rows_of(seq![0xFEu8]));
}

} // verus!
