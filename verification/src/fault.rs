//! The conditions that stop the processor.

use vstd::prelude::*;

verus! {

/// A fatal condition met while fetching, decoding or executing an
/// instruction. The first six are decode errors.
#[derive(Clone, Copy, Debug, PartialEq, Eq, Structural)]
pub enum Fault {
    /// No descriptor exists for this opcode byte.
    UnknownOpcode(u8),
    /// The opcode byte is a prefix that the processor does not support, or a
    /// second segment override in one instruction.
    UnsupportedPrefix(u8),
    /// The sub-code (second field) selects no operation in the group (first
    /// field).
    IllegalGroupCode(u8, u8),
    /// The sub-code (second field) of the group (first field) names an
    /// operation that is not implemented.
    Unimplemented(u8, u8),
    /// A register code that names no register in the place where it stands.
    IllegalRegister(u8),
    /// The descriptor combines an addressing mode and a category that cannot
    /// be resolved.
    MalformedDescriptor,
    /// The instruction bytes ended before every operand was read.
    IncompleteInstruction,
    /// The instruction has more bytes than the instruction buffer holds.
    InstructionTooLong,
    /// A memory access at this physical address falls outside the memory image.
    AddressOutOfRange(u32),
    /// An access to this port index falls outside the port space.
    PortOutOfRange(u32),
    /// Division by zero, or a quotient that does not fit its destination.
    DivideError,
}

impl Fault {
    /// Whether the fault is a decode error: the bytes at the instruction
    /// pointer are no instruction that the processor implements.
    pub open spec fn is_decode_error(self) -> bool {
        match self {
            Fault::UnknownOpcode(_) => true,
            Fault::UnsupportedPrefix(_) => true,
            Fault::IllegalGroupCode(_, _) => true,
            Fault::Unimplemented(_, _) => true,
            Fault::IllegalRegister(_) => true,
            Fault::MalformedDescriptor => true,
            Fault::IncompleteInstruction => true,
            Fault::InstructionTooLong => true,
            Fault::AddressOutOfRange(_) => false,
            Fault::PortOutOfRange(_) => false,
            Fault::DivideError => false,
        }
    }

    /// Whether the fault is a decode error.
    pub fn decode_error(&self) -> (decode: bool)
        ensures
            decode == self.is_decode_error(),
    {
        match self {
            Fault::AddressOutOfRange(_) => false,
            Fault::PortOutOfRange(_) => false,
            Fault::DivideError => false,
            _ => true,
        }
    }
}

} // verus!
