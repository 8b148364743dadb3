//! Fetch and decode: from the bytes at the instruction pointer to a
//! concrete descriptor and the bytes of one instruction in the instruction
//! buffer.

use crate::descriptor::{InstructionFormat, InstructionType, OperandType};
use crate::fault::Fault;
use crate::instructions::resolution;
use crate::machine::{default_segment, tail_length, Machine};
use crate::memory::Segment;
use vstd::prelude::*;

verus! {

/// A descriptor table as a map from opcodes to descriptors.
pub type Table = Map<u8, InstructionFormat>;

/// The descriptor of an opcode in a table.
pub open spec fn looked_up(table: Table, opcode: u8) -> Result<InstructionFormat, Fault> {
    if table.contains_key(opcode) {
        Ok(table[opcode])
    } else {
        Err(Fault::UnknownOpcode(opcode))
    }
}

/// The sub-code in a ModRM byte: its bits 5 to 3.
pub open spec fn sub_code(modrm: u8) -> u8 {
    ((modrm / 8) % 8) as u8
}

/// What an instruction is once its opcode has been read: the state, in
/// which the opcode is the one byte in the instruction buffer and the
/// segment of the memory operands is set; the opcode; and its concrete
/// descriptor.
pub struct Opened {
    pub machine: Machine,
    pub opcode: u8,
    pub inst: InstructionFormat,
}

impl Machine {
    /// The concrete descriptor of an instruction whose opcode was just
    /// fetched. The descriptor of a group opcode is resolved by the sub-code
    /// in the next byte, which stays where it is; any other descriptor is
    /// concrete already.
    pub open spec fn concrete(self, inst: InstructionFormat) -> Result<InstructionFormat, Fault> {
        match inst.instrution_type {
            InstructionType::Group(number) => match self.peeked() {
                Err(fault) => Err(fault),
                Ok(modrm) => resolution(number, sub_code(modrm), inst),
            },
            _ => Ok(inst),
        }
    }

    /// The instruction after a segment override prefix with the descriptor
    /// `prefix`, in the state after the prefix was fetched. The prefix
    /// leaves the instruction buffer and names the segment of the memory
    /// operands. A second prefix is refused.
    pub open spec fn overridden(self, table: Table, prefix: InstructionFormat) -> Result<
        Opened,
        Fault,
    > {
        match prefix.operand_type {
            OperandType::Registers(code, _) => match Segment::coded(code) {
                None => Err(Fault::IllegalRegister(code)),
                Some(segment) => match (Machine { bus: Seq::empty(), segment, ..self }).fetched(1) {
                    Err(fault) => Err(fault),
                    Ok(machine) => match looked_up(table, machine.bus[0]) {
                        Err(fault) => Err(fault),
                        Ok(inst) => if inst.instrution_type is Prefix
                            || inst.instrution_type is SegmentOverride {
                            Err(Fault::UnsupportedPrefix(machine.bus[0]))
                        } else {
                            match machine.concrete(inst) {
                                Err(fault) => Err(fault),
                                Ok(inst) => Ok(Opened { machine, opcode: machine.bus[0], inst }),
                            }
                        },
                    },
                },
            },
            _ => Err(Fault::MalformedDescriptor),
        }
    }

    /// The opcode at the instruction pointer and its concrete descriptor.
    /// The instruction buffer is emptied first. A segment override prefix
    /// names the segment of the memory operands for this instruction only;
    /// without one it is the default segment of the category.
    pub open spec fn opened(self, table: Table) -> Result<Opened, Fault> {
        match (Machine { bus: Seq::empty(), ..self }).fetched(1) {
            Err(fault) => Err(fault),
            Ok(machine) => match looked_up(table, machine.bus[0]) {
                Err(fault) => Err(fault),
                Ok(first) => match first.instrution_type {
                    InstructionType::Prefix => Err(Fault::UnsupportedPrefix(machine.bus[0])),
                    InstructionType::SegmentOverride => machine.overridden(table, first),
                    _ => match machine.concrete(first) {
                        Err(fault) => Err(fault),
                        Ok(inst) => Ok(
                            Opened {
                                machine: Machine {
                                    segment: default_segment(inst.instrution_type),
                                    ..machine
                                },
                                opcode: machine.bus[0],
                                inst,
                            },
                        ),
                    },
                },
            },
        }
    }

    /// The instruction at the instruction pointer: the state in which all
    /// its bytes, but for a prefix, are in the instruction buffer and the
    /// instruction pointer is past them; its opcode; and its concrete
    /// descriptor.
    pub open spec fn instruction(self, table: Table) -> Result<Opened, Fault> {
        match self.opened(table) {
            Err(fault) => Err(fault),
            Ok(opened) => match (if opened.inst.operand_type is ModRM {
                opened.machine.peeked()
            } else {
                Ok(0u8)
            }) {
                Err(fault) => Err(fault),
                Ok(modrm) => match opened.machine.fetched(tail_length(opened.inst, modrm) as nat) {
                    Err(fault) => Err(fault),
                    Ok(machine) => Ok(Opened { machine, opcode: opened.opcode, inst: opened.inst }),
                },
            },
        }
    }
}

} // verus!
