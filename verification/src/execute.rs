//! Execution and write-back: from the operands of an instruction to the
//! state after it.

use crate::descriptor::{InstructionFormat, InstructionType};
use crate::fault::Fault;
use crate::flags::Flags;
use crate::machine::{Effect, Machine, Operand};
use crate::memory::Segment;
use vstd::prelude::*;

verus! {

impl Machine {
    /// The result of the operation of the instruction on its operands, and
    /// the flags after it. Without an operation the source is passed
    /// through.
    pub open spec fn computed(self, inst: InstructionFormat, dst: Operand, src: Operand) -> Result<
        (u32, Flags),
        Fault,
    > {
        match inst.execute {
            Some(operation) => match self.value(dst) {
                Err(fault) => Err(fault),
                Ok(d) => match self.value(src) {
                    Err(fault) => Err(fault),
                    Ok(s) => match operation.result(d, s, self.flags) {
                        Err(fault) => Err(fault),
                        Ok(result) => Ok((result, operation.flags_after(d, s, self.flags))),
                    },
                },
            },
            None => match self.value(src) {
                Err(fault) => Err(fault),
                Ok(s) => Ok((s, self.flags)),
            },
        }
    }

    /// The state after a word was pushed: the stack pointer is two lower
    /// and the word lies where it points.
    pub open spec fn pushed(self, word: u32) -> Result<Machine, Fault> {
        (Machine { sp: self.sp.wrapping_sub(2), ..self }).stored(
            self.cell(Segment::SS, self.sp.wrapping_sub(2), 2),
            word,
        )
    }

    /// The write-back of a call (direction set) or a return.
    pub open spec fn procedure_done(self, inst: InstructionFormat, dst: Operand, res: u32) -> Result<
        Machine,
        Fault,
    > {
        if inst.direction {
            match self.value(dst) {
                Err(fault) => Err(fault),
                Ok(link) => match self.pushed(link) {
                    Err(fault) => Err(fault),
                    Ok(machine) => machine.written(dst, res),
                },
            }
        } else {
            (Machine { sp: self.sp.wrapping_add(2), ..self }).written(dst, res)
        }
    }

    /// The write-back of a multiplication or division: AX takes the low 16
    /// bits of the result and, in a word operation, DX the high 16 bits.
    pub open spec fn math_done(self, inst: InstructionFormat, res: u32) -> Machine {
        Machine {
            ax: (res % 0x10000) as u16,
            dx: if inst.word {
                (res / 0x10000) as u16
            } else {
                self.dx
            },
            ..self
        }
    }

    /// Entry into the interrupt with the number `number`: the flags, then
    /// the code segment and the instruction pointer go on the stack, the
    /// interrupt-enable and trap flags are cleared, and the code segment
    /// (first word) and the instruction pointer (second word) come from the
    /// entry of the vector table at four times the number.
    #[verifier::opaque]
    pub open spec fn interrupt_entered(self, number: u32) -> Result<Machine, Fault> {
        match self.pushed(self.flags.encoding() as u32) {
            Err(fault) => Err(fault),
            Ok(first) => match (Machine { sp: first.sp.wrapping_sub(4), ..first }).stored(
                first.cell(Segment::SS, first.sp.wrapping_sub(4), 4),
                (first.cs * 0x10000 + first.ip) as u32,
            ) {
                Err(fault) => Err(fault),
                Ok(second) => match second.loaded(
                    second.cell(Segment::IVT, (((number % 0x10000) * 4) % 0x10000) as u16, 4),
                ) {
                    Err(fault) => Err(fault),
                    Ok(vector) => Ok(
                        Machine {
                            cs: (vector % 0x10000) as u16,
                            ip: (vector / 0x10000) as u16,
                            flags: Flags { interrupt: false, trap: false, ..second.flags },
                            ..second
                        },
                    ),
                },
            },
        }
    }

    /// Return from an interrupt: the instruction pointer and the code
    /// segment, then the flags come back from the stack.
    pub open spec fn interrupt_left(self) -> Result<Machine, Fault> {
        match self.loaded(self.cell(Segment::SS, self.sp, 4)) {
            Err(fault) => Err(fault),
            Ok(link) => match self.loaded(self.cell(Segment::SS, self.sp.wrapping_add(4), 2)) {
                Err(fault) => Err(fault),
                Ok(word) => Ok(
                    Machine {
                        ip: (link % 0x10000) as u16,
                        cs: (link / 0x10000) as u16,
                        sp: self.sp.wrapping_add(6),
                        flags: Flags::decoded(word as u16),
                        ..self
                    },
                ),
            },
        }
    }

    /// The port array after an output of `value` to the port `port`: one
    /// byte, or two for a word. A port above 0xFFFF or outside the array is
    /// a fault.
    pub open spec fn ports_written(ports: Seq<u8>, port: u32, value: u32, word: bool) -> Result<
        Seq<u8>,
        Fault,
    > {
        if port > 0xFFFF || port >= ports.len() {
            Err(Fault::PortOutOfRange(port))
        } else if word && (port == 0xFFFF || port + 1 >= ports.len()) {
            Err(Fault::PortOutOfRange((port + 1) as u32))
        } else if word {
            Ok(
                ports.update(port as int, (value % 0x100) as u8).update(
                    port + 1,
                    ((value / 0x100) % 0x100) as u8,
                ),
            )
        } else {
            Ok(ports.update(port as int, (value % 0x100) as u8))
        }
    }

    /// The value that an input from the port `port` reads: one byte, or two
    /// for a word. A port above 0xFFFF or outside the array is a fault.
    pub open spec fn ports_read(ports: Seq<u8>, port: u32, word: bool) -> Result<u32, Fault> {
        if port > 0xFFFF || port >= ports.len() {
            Err(Fault::PortOutOfRange(port))
        } else if word && (port == 0xFFFF || port + 1 >= ports.len()) {
            Err(Fault::PortOutOfRange((port + 1) as u32))
        } else if word {
            Ok((ports[port as int] + ports[port + 1] * 0x100) as u32)
        } else {
            Ok(ports[port as int] as u32)
        }
    }

    /// The write-back of a port instruction. An output (direction set)
    /// writes the source to the port that the destination names and reports
    /// the port; an input writes what the port of the source holds to the
    /// destination.
    pub open spec fn io_done(
        self,
        inst: InstructionFormat,
        dst: Operand,
        src: Operand,
        ports: Seq<u8>,
    ) -> Result<Effect, Fault> {
        match self.value(dst) {
            Err(fault) => Err(fault),
            Ok(d) => match self.value(src) {
                Err(fault) => Err(fault),
                Ok(s) => if inst.direction {
                    match Machine::ports_written(ports, d, s, inst.word) {
                        Err(fault) => Err(fault),
                        Ok(after) => Ok(
                            Effect {
                                machine: self,
                                ports: after,
                                output: Some(((d % 0x10000) as u16, inst.word)),
                            },
                        ),
                    }
                } else {
                    match Machine::ports_read(ports, s, inst.word) {
                        Err(fault) => Err(fault),
                        Ok(value) => match self.written(dst, value) {
                            Err(fault) => Err(fault),
                            Ok(machine) => Ok(Effect { machine, ports, output: None }),
                        },
                    }
                },
            },
        }
    }

    /// The state after the write-back that the category of the instruction
    /// asks for, before the flags are committed. The flags in `self` are
    /// those after the operation.
    #[verifier::opaque]
    pub open spec fn category_done(
        self,
        inst: InstructionFormat,
        dst: Operand,
        src: Operand,
        res: u32,
        ports: Seq<u8>,
    ) -> Result<Effect, Fault> {
        match inst.instrution_type {
            InstructionType::IO => self.io_done(inst, dst, src, ports),
            _ => match (match inst.instrution_type {
                InstructionType::Stack => match self.written(dst, res) {
                    Err(fault) => Err(fault),
                    Ok(machine) => Ok(
                        Machine {
                            sp: if inst.direction {
                                machine.sp.wrapping_sub(2)
                            } else {
                                machine.sp.wrapping_add(2)
                            },
                            ..machine
                        },
                    ),
                },
                InstructionType::Procedure => self.procedure_done(inst, dst, res),
                InstructionType::Math => Ok(self.math_done(inst, res)),
                InstructionType::Interrupt => if inst.direction {
                    self.interrupt_left()
                } else {
                    match self.value(src) {
                        Err(fault) => Err(fault),
                        Ok(number) => self.interrupt_entered(number),
                    }
                },
                InstructionType::ProgramFlow(far) => (if far {
                    Machine { cs: (res / 0x10000) as u16, ..self }
                } else {
                    self
                }).written(dst, res),
                _ => self.written(dst, res),
            }) {
                Err(fault) => Err(fault),
                Ok(machine) => Ok(Effect { machine, ports, output: None }),
            },
        }
    }

    /// The state and the port array after the instruction with the
    /// descriptor `inst` ran on the operands `dst` and `src`: the operation
    /// is applied, the result is written back as the category asks where
    /// the descriptor says so, and the flags are committed in either case.
    #[verifier::opaque]
    pub open spec fn executed(
        self,
        inst: InstructionFormat,
        dst: Operand,
        src: Operand,
        ports: Seq<u8>,
    ) -> Result<Effect, Fault> {
        match self.computed(inst, dst, src) {
            Err(fault) => Err(fault),
            Ok((res, flags)) => if inst.write {
                (Machine { flags, ..self }).category_done(inst, dst, src, res, ports)
            } else {
                Ok(Effect { machine: Machine { flags, ..self }, ports, output: None })
            },
        }
    }

    /// The state and the port array after the instruction with the
    /// descriptor `inst`, whose bytes after the opcode wait in the
    /// instruction buffer, was performed: its operands are resolved and it
    /// is executed on them.
    #[verifier::opaque]
    pub open spec fn performed(self, inst: InstructionFormat, ports: Seq<u8>) -> Result<
        Effect,
        Fault,
    > {
        match self.resolved(inst) {
            Err(fault) => Err(fault),
            Ok(operands) => operands.machine.executed(inst, operands.dst, operands.src, ports),
        }
    }
}

} // verus!
