//! The segment override prefixes.

use crate::descriptor::{InstructionFormat, InstructionType, OperandType};
use crate::instructions::{entry, rows_of};
use crate::registers;
use vstd::prelude::*;

verus! {

/// Adds the rows of the segment override prefixes: 0x26 for ES, 0x2E for CS,
/// 0x36 for SS and 0x3E for DS.
pub fn segment_override_instructions(instructions_map: &mut Vec<(u8, InstructionFormat)>)
    ensures
        final(instructions_map)@ == old(instructions_map)@ + rows_of(seq![0x26u8, 0x2Eu8, 0x36u8, 0x3Eu8]),
{
    let ghost before = instructions_map@;
    instructions_map.push((0x26, entry(OperandType::Registers(registers::ES, None), InstructionType::SegmentOverride, false, false, false, None)));
    instructions_map.push((0x2E, entry(OperandType::Registers(registers::CS, None), InstructionType::SegmentOverride, false, false, false, None)));
    instructions_map.push((0x36, entry(OperandType::Registers(registers::SS, None), InstructionType::SegmentOverride, false, false, false, None)));
    instructions_map.push((0x3E, entry(OperandType::Registers(registers::DS, None), InstructionType::SegmentOverride, false, false, false, None)));
    assert(instructions_map@ =~= before + rows_of(seq![0x26u8, 0x2Eu8, 0x36u8, 0x3Eu8]));
}

} // verus!
