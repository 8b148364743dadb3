//! Group 5: increment, decrement, call, jump and push of a word.

use crate::descriptor::{InstructionFormat, InstructionType, ModrmRegField, OperandType};
use crate::fault::Fault;
use crate::instructions::{entry, rows_of};
use crate::semantics::Operation;
use vstd::prelude::*;

verus! {

/// The descriptor of sub-code `code` of group 5. Increment and decrement
/// are general instructions on the decoded operand. The near call, the two
/// jumps and the push take the decoded operand as their source, so the
/// operands change places. The far call is not implemented, and sub-code 7
/// selects nothing.
pub open spec fn group5_resolution(code: u8, base: InstructionFormat) -> Result<
    InstructionFormat,
    Fault,
> {
    if code < 2 {
        Ok(
            InstructionFormat {
                instrution_type: InstructionType::General,
                direction: false,
                execute: Some(
                    if code == 0 {
                        Operation::Increment
                    } else {
                        Operation::Decrement
                    },
                ),
                ..base
            },
        )
    } else if code == 3 {
        Err(Fault::Unimplemented(5, code))
    } else if code < 7 {
        Ok(
            InstructionFormat {
                instrution_type: if code == 2 {
                    InstructionType::Procedure
                } else if code == 6 {
                    InstructionType::Stack
                } else {
                    InstructionType::ProgramFlow(code == 5)
                },
                direction: true,
                execute: Some(Operation::Source),
                ..base
            },
        )
    } else {
        Err(Fault::IllegalGroupCode(5, code))
    }
}

/// Resolves a sub-code of group 5: 0 is INC, 1 DEC, 2 the near CALL, 4 the
/// near JMP, 5 the far JMP and 6 PUSH. Sub-code 3, the far CALL, is refused.
pub fn group5(code: u8, inst: &mut InstructionFormat) -> (res: Result<(), Fault>)
    ensures
        match group5_resolution(code, *old(inst)) {
            Ok(resolved) => res is Ok && *final(inst) == resolved,
            Err(fault) => res == Err::<(), Fault>(fault) && *final(inst) == *old(inst),
        },
{
    let (instrution_type, execute) = match code {
        0 => (InstructionType::General, Operation::Increment),
        1 => (InstructionType::General, Operation::Decrement),
        2 => (InstructionType::Procedure, Operation::Source),
        3 => {
            return Err(Fault::Unimplemented(5, code));
        },
        4 => (InstructionType::ProgramFlow(false), Operation::Source),
        5 => (InstructionType::ProgramFlow(true), Operation::Source),
        6 => (InstructionType::Stack, Operation::Source),
        _ => {
            return Err(Fault::IllegalGroupCode(5, code));
        },
    };
    *inst = InstructionFormat {
        instrution_type,
        direction: code >= 2,
        execute: Some(execute),
        ..*inst
    };
    Ok(())
}

/// Adds the placeholder row of group 5, opcode 0xFF.
pub fn group5_instructions(instructions_map: &mut Vec<(u8, InstructionFormat)>)
    ensures
        final(instructions_map)@ == old(instructions_map)@ + rows_of(seq![0xFFu8]),
{
    let ghost before = instructions_map@;
    instructions_map.push((0xFF, entry(OperandType::ModRM(ModrmRegField::Group(0), false), InstructionType::Group(5), true, false, true, None)));
    assert(instructions_map@ =~= before + rows_of(seq![0xFFu8]));
}

} // verus!
