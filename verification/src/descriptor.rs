//! Instruction descriptors: what the decoder knows of an opcode before it
//! reads the operands.

use crate::semantics::Operation;
use vstd::prelude::*;

verus! {

/// How the `reg` field of a ModRM byte is read.
#[derive(Clone, Copy, Debug, PartialEq, Eq, Structural)]
pub enum ModrmRegField {
    /// A general register.
    Reg,
    /// A segment register.
    Sreg,
    /// A sub-code of a group opcode. The number selects the second operand:
    /// 1 is the constant one, 2 is the low byte of CX, any other is none.
    Group(u8),
}

/// The addressing mode of an instruction.
#[derive(Clone, Copy, Debug, PartialEq, Eq, Structural)]
pub enum OperandType {
    /// A ModRM byte follows; the flag tells whether an immediate follows it.
    ModRM(ModrmRegField, bool),
    /// An immediate and the register with this code.
    Data(u8),
    /// A direct address and the register with this code.
    Address(u8),
    /// The register with the first code and, if present, the one with the
    /// second.
    Registers(u8, Option<u8>),
    /// No operand.
    Absent,
}

/// The category of an instruction, which selects its write-back.
#[derive(Clone, Copy, Debug, PartialEq, Eq, Structural)]
pub enum InstructionType {
    General,
    /// A placeholder: the operation is selected by the sub-code in the ModRM
    /// byte, within the group of this number.
    Group(u8),
    Stack,
    /// A jump; the flag is set for a far jump.
    ProgramFlow(bool),
    Prefix,
    Procedure,
    Math,
    Interrupt,
    SegmentOverride,
    IO,
}

/// The descriptor of an opcode: how its operands are found, what is
/// computed from them and how the result is written back.
#[derive(Clone, Copy, Debug, PartialEq, Eq, Structural)]
pub struct InstructionFormat {
    /// The addressing mode.
    pub operand_type: OperandType,
    /// The category.
    pub instrution_type: InstructionType,
    /// Whether the operands are words (16 bits) or bytes.
    pub word: bool,
    /// Whether the operands of the addressing mode change places: with a
    /// ModRM byte, whether the `reg` field names the destination.
    pub direction: bool,
    /// Whether the result is written back.
    pub write: bool,
    /// The operation; without one, the source is passed through.
    pub execute: Option<Operation>,
}

} // verus!
