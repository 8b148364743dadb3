//! Operand resolution: from a descriptor and the bytes in the instruction
//! buffer to the destination and the source of the instruction.

use crate::descriptor::{InstructionFormat, InstructionType, ModrmRegField, OperandType};
use crate::fault::Fault;
use crate::flags::Flags;
use crate::machine::{register_operand, width, Machine, Operand, RegisterId, Resolved};
use crate::memory::Segment;
use vstd::prelude::*;

verus! {

impl Machine {
    /// The second operand of a group instruction: the constant one for
    /// selector 1, the low byte of CX for selector 2, none for any other.
    pub open spec fn group_source(self, selector: u8) -> Operand {
        if selector == 1 {
            Operand::Data(1)
        } else if selector == 2 {
            Operand::Data((self.cx % 0x100) as u32)
        } else {
            Operand::Absent
        }
    }

    /// The operands of an instruction whose ModRM byte is the first byte in
    /// the instruction buffer. The `mod` and `r/m` fields give one operand.
    /// The `reg` field gives the other, which is the destination where the
    /// direction flag of the descriptor is set. An immediate, where the
    /// addressing mode has one, takes the place of the source.
    pub open spec fn modrm_operands(
        self,
        inst: InstructionFormat,
        regfd: ModrmRegField,
        immediate: bool,
    ) -> Result<Resolved, Fault> {
        if self.bus.len() == 0 {
            Err(Fault::IncompleteInstruction)
        } else {
            let modrm = self.bus[0];
            let regf = ((modrm / 8) % 8) as u8;
            match (Machine { bus: self.bus.skip(1), ..self }).addressed(
                modrm / 64,
                modrm % 8,
                inst.word,
            ) {
                Err(fault) => Err(fault),
                Ok((target, rest)) => {
                    let other = match regfd {
                        ModrmRegField::Group(selector) => Some(self.group_source(selector)),
                        _ => register_operand(regf, regfd, inst.word),
                    };
                    match other {
                        None => Err(Fault::IllegalRegister(regf)),
                        Some(other) => {
                            let turned = if inst.direction {
                                Resolved {
                                    machine: Machine { reference: regf as u16, ..rest },
                                    dst: other,
                                    src: target,
                                }
                            } else {
                                Resolved { machine: rest, dst: target, src: other }
                            };
                            if immediate {
                                match turned.machine.taken(width(inst.word)) {
                                    Err(fault) => Err(fault),
                                    Ok((value, last)) => Ok(
                                        Resolved {
                                            machine: last,
                                            dst: turned.dst,
                                            src: Operand::Data(value),
                                        },
                                    ),
                                }
                            } else {
                                Ok(turned)
                            }
                        },
                    }
                },
            }
        }
    }

    /// The operands that the addressing mode of the descriptor gives, before
    /// the category of the instruction is looked at. The first operand of
    /// the addressing mode is the destination, unless the direction flag
    /// makes the two change places.
    pub open spec fn primary(self, inst: InstructionFormat) -> Result<Resolved, Fault> {
        match inst.operand_type {
            OperandType::Data(reg) => match register_operand(reg, ModrmRegField::Reg, inst.word) {
                None => Err(Fault::IllegalRegister(reg)),
                Some(register) => match self.taken(width(inst.word)) {
                    Err(fault) => Err(fault),
                    Ok((value, rest)) => Ok(
                        if inst.direction && !(inst.instrution_type is Procedure) {
                            Resolved { machine: rest, dst: Operand::Data(value), src: register }
                        } else {
                            Resolved { machine: rest, dst: register, src: Operand::Data(value) }
                        },
                    ),
                },
            },
            OperandType::Address(reg) => match register_operand(
                reg,
                ModrmRegField::Reg,
                inst.word,
            ) {
                None => Err(Fault::IllegalRegister(reg)),
                Some(register) => match self.addressed(0, 6, inst.word) {
                    Err(fault) => Err(fault),
                    Ok((target, rest)) => Ok(
                        if inst.direction {
                            Resolved { machine: rest, dst: target, src: register }
                        } else {
                            Resolved { machine: rest, dst: register, src: target }
                        },
                    ),
                },
            },
            OperandType::ModRM(regfd, immediate) => self.modrm_operands(inst, regfd, immediate),
            OperandType::Registers(first, second) => match register_operand(
                first,
                ModrmRegField::Reg,
                inst.word,
            ) {
                None => Err(Fault::IllegalRegister(first)),
                Some(register) => {
                    let other = match second {
                        Some(code) => register_operand(code, ModrmRegField::Reg, inst.word),
                        None => Some(Operand::Absent),
                    };
                    match other {
                        None => Err(Fault::IllegalRegister(second.unwrap())),
                        Some(other) => Ok(
                            if inst.direction {
                                Resolved { machine: self, dst: other, src: register }
                            } else {
                                Resolved { machine: self, dst: register, src: other }
                            },
                        ),
                    }
                },
            },
            OperandType::Absent => Ok(
                Resolved { machine: self, dst: Operand::Absent, src: Operand::Absent },
            ),
        }
    }

    /// What the category of the instruction makes of the operands of the
    /// addressing mode.
    ///
    /// A jump writes to the instruction pointer; a far jump takes two more
    /// bytes from the instruction buffer as the high word of its source. A
    /// push writes to the word below the stack pointer and a pop reads the
    /// word at the stack pointer. A call writes to the instruction pointer;
    /// a return reads the word at the stack pointer and then moves the
    /// stack pointer up by twice its operand. A multiplication or division
    /// takes the pair DX:AX as destination value and records its width in
    /// the flags.
    pub open spec fn specialized(
        self,
        inst: InstructionFormat,
        dst: Operand,
        src: Operand,
    ) -> Result<Resolved, Fault> {
        match inst.instrution_type {
            InstructionType::ProgramFlow(far) => if far {
                match self.taken(2) {
                    Err(fault) => Err(fault),
                    Ok((segment, rest)) => match rest.value(src) {
                        Err(fault) => Err(fault),
                        Ok(offset) => Ok(
                            Resolved {
                                machine: rest,
                                dst: Operand::Register(RegisterId::IP),
                                src: Operand::Data(
                                    ((segment * 0x10000) as u32).wrapping_add(offset),
                                ),
                            },
                        ),
                    },
                }
            } else {
                Ok(Resolved { machine: self, dst: Operand::Register(RegisterId::IP), src })
            },
            InstructionType::Stack => Ok(
                if inst.direction {
                    Resolved {
                        machine: self,
                        dst: Operand::Memory(self.cell(Segment::SS, self.sp.wrapping_sub(2), 2)),
                        src,
                    }
                } else {
                    Resolved {
                        machine: self,
                        dst,
                        src: Operand::Memory(self.cell(Segment::SS, self.sp, 2)),
                    }
                },
            ),
            InstructionType::Procedure => if inst.direction {
                Ok(Resolved { machine: self, dst: Operand::Register(RegisterId::IP), src })
            } else {
                match self.value(src) {
                    Err(fault) => Err(fault),
                    Ok(words) => Ok(
                        Resolved {
                            machine: Machine {
                                sp: self.sp.wrapping_add(((words * 2) % 0x10000) as u16),
                                ..self
                            },
                            dst: Operand::Register(RegisterId::IP),
                            src: Operand::Memory(self.cell(Segment::SS, self.sp, 2)),
                        },
                    ),
                }
            },
            InstructionType::Math => Ok(
                Resolved {
                    machine: Machine {
                        flags: Flags { res1: inst.word, ..self.flags },
                        ..self
                    },
                    dst: Operand::Data((self.dx * 0x10000 + self.ax) as u32),
                    src,
                },
            ),
            _ => Ok(Resolved { machine: self, dst, src }),
        }
    }

    /// The operands of the instruction with the descriptor `inst` whose
    /// bytes after the opcode wait in the instruction buffer, and the state
    /// after they were resolved.
    #[verifier::opaque]
    pub open spec fn resolved(self, inst: InstructionFormat) -> Result<Resolved, Fault> {
        match self.primary(inst) {
            Err(fault) => Err(fault),
            Ok(operands) => operands.machine.specialized(inst, operands.dst, operands.src),
        }
    }
}

} // verus!
