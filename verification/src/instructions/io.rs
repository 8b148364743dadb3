//! Port input and output.

use crate::descriptor::{InstructionFormat, InstructionType, OperandType};
use crate::instructions::{entry, rows_of};
use crate::registers;
use vstd::prelude::*;

verus! {

/// Adds the rows of the port instructions: IN and OUT with the port in an
/// immediate byte (0xE4 to 0xE7) or in DX (0xEC to 0xEF).
pub fn io_instructions(instructions_map: &mut Vec<(u8, InstructionFormat)>)
    ensures
        final(instructions_map)@ == old(instructions_map)@ + rows_of(seq![0xE4u8, 0xE5u8, 0xE6u8, 0xE7u8, 0xECu8, 0xEDu8, 0xEEu8, 0xEFu8]),
{
    let ghost before = instructions_map@;
    instructions_map.push((0xE4, entry(OperandType::Data(registers::AL), InstructionType::IO, false, false, true, None)));
    instructions_map.push((0xE5, entry(OperandType::Data(registers::AL), InstructionType::IO, true, false, true, None)));
    instructions_map.push((0xE6, entry(OperandType::Data(registers::AL), InstructionType::IO, false, true, true, None)));
    instructions_map.push((0xE7, entry(OperandType::Data(registers::AL), InstructionType::IO, true, true, true, None)));
    instructions_map.push((0xEC, entry(OperandType::Registers(registers::AL, Some(registers::DX)), InstructionType::IO, false, false, true, None)));
    instructions_map.push((0xED, entry(OperandType::Registers(registers::AX, Some(registers::DX)), InstructionType::IO, true, false, true, None)));
    instructions_map.push((0xEE, entry(OperandType::Registers(registers::AL, Some(registers::DX)), InstructionType::IO, false, true, true, None)));
    instructions_map.push((0xEF, entry(OperandType::Registers(registers::AX, Some(registers::DX)), InstructionType::IO, true, true, true, None)));
    assert(instructions_map@ =~= before + rows_of(seq![0xE4u8, 0xE5u8, 0xE6u8, 0xE7u8, 0xECu8, 0xEDu8, 0xEEu8, 0xEFu8]));
}

} // verus!
