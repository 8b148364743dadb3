//! The execution and write-back dispatcher.

use crate::descriptor::{InstructionFormat, InstructionType};
use crate::fault::Fault;
use crate::flags::Flags;
use crate::machine::{Machine, Operand, RegisterId};
use crate::memory::Segment;
use crate::memory_unit::MemoryUnit;
use vstd::prelude::*;

verus! {

/// A port array of 65536 zero bytes.
pub fn new_ports() -> (ports: Vec<u8>)
    ensures
        ports@ == Seq::new(0x10000, |i: int| 0u8),
{
    let mut ports: Vec<u8> = Vec::new();
    let mut i: usize = 0;
    while i < 0x10000
        invariant
            i <= 0x10000,
            ports@ == Seq::new(i as nat, |k: int| 0u8),
        decreases 0x10000 - i,
    {
        ports.push(0);
        i = i + 1;
    }
    ports
}

/// Writes `value` to the port `port`: one byte, or two for a word, lowest
/// byte first. Where a byte falls outside the port array nothing is
/// written.
pub fn write_ports(ports: &mut Vec<u8>, port: u32, value: u32, word: bool) -> (res: Result<
    (),
    Fault,
>)
    ensures
        match Machine::ports_written(old(ports)@, port, value, word) {
            Ok(after) => res is Ok && final(ports)@ == after,
            Err(fault) => res == Err::<(), Fault>(fault) && final(ports)@ == old(ports)@,
        },
{
    if port > 0xFFFF || port as usize >= ports.len() {
        return Err(Fault::PortOutOfRange(port));
    }
    let index: usize = port as usize;
    if word {
        if port == 0xFFFF || index + 1 >= ports.len() {
            return Err(Fault::PortOutOfRange(port + 1));
        }
        ports.set(index, (value % 0x100) as u8);
        ports.set(index + 1, ((value / 0x100) % 0x100) as u8);
    } else {
        ports.set(index, (value % 0x100) as u8);
    }
    Ok(())
}

/// Reads the port `port`: one byte, or two for a word, lowest byte first.
pub fn read_ports(ports: &Vec<u8>, port: u32, word: bool) -> (res: Result<u32, Fault>)
    ensures
        res == Machine::ports_read(ports@, port, word),
{
    if port > 0xFFFF || port as usize >= ports.len() {
        return Err(Fault::PortOutOfRange(port));
    }
    let index: usize = port as usize;
    if word {
        if port == 0xFFFF || index + 1 >= ports.len() {
            return Err(Fault::PortOutOfRange(port + 1));
        }
        Ok(ports[index] as u32 + ports[index + 1] as u32 * 0x100)
    } else {
        Ok(ports[index] as u32)
    }
}

impl MemoryUnit {
    /// Pushes a word: moves the stack pointer down by two and writes the
    /// word where it points. Where the word cannot be written the stack
    /// pointer stays.
    pub fn push_word(&mut self, word: u32) -> (res: Result<(), Fault>)
        ensures
            match old(self)@.pushed(word) {
                Ok(machine) => res is Ok && final(self)@ == machine,
                Err(fault) => res == Err::<(), Fault>(fault) && final(self)@ == old(self)@,
            },
    {
        let top: u16 = self.sp.wrapping_sub(2);
        let cell = self.cell(Segment::SS, top, 2);
        match self.store(cell, word) {
            Ok(()) => {
                self.set_register(RegisterId::SP, top);
                Ok(())
            },
            Err(fault) => Err(fault),
        }
    }

    fn procedure_done(&mut self, inst: &InstructionFormat, dst: Operand, res: u32) -> (done: Result<
        (),
        Fault,
    >)
        requires
            dst.valid(),
        ensures
            match old(self)@.procedure_done(*inst, dst, res) {
                Ok(machine) => done is Ok && final(self)@ == machine,
                Err(fault) => done == Err::<(), Fault>(fault) && final(self)@ == old(self)@,
            },
    {
        if inst.direction {
            let link: u32 = match dst.get(self) {
                Ok(value) => value,
                Err(fault) => {
                    return Err(fault);
                },
            };
            let cell = self.cell(Segment::SS, self.sp.wrapping_sub(2), 2);
            match self.blocked(Operand::Memory(cell)) {
                Some(fault) => {
                    return Err(fault);
                },
                None => {},
            }
            match self.blocked(dst) {
                Some(fault) => {
                    return Err(fault);
                },
                None => {},
            }
            let _ = self.push_word(link);
            dst.set(self, res)
        } else {
            match self.blocked(dst) {
                Some(fault) => {
                    return Err(fault);
                },
                None => {},
            }
            let top: u16 = self.sp.wrapping_add(2);
            self.set_register(RegisterId::SP, top);
            dst.set(self, res)
        }
    }

    fn math_done(&mut self, inst: &InstructionFormat, res: u32)
        ensures
            final(self)@ == old(self)@.math_done(*inst, res),
    {
        self.set_register(RegisterId::AX, (res % 0x10000) as u16);
        if inst.word {
            self.set_register(RegisterId::DX, (res / 0x10000) as u16);
        }
    }

    /// Enters the interrupt with the number `number`. Where a cell of the
    /// stack or the entry of the vector table lies outside the memory image
    /// nothing is changed.
    pub fn interrupt_entered(&mut self, number: u32) -> (res: Result<(), Fault>)
        ensures
            match old(self)@.interrupt_entered(number) {
                Ok(machine) => res is Ok && final(self)@ == machine,
                Err(fault) => res == Err::<(), Fault>(fault) && final(self)@ == old(self)@,
            },
    {
        proof {
            reveal(Machine::interrupt_entered);
        }
        let top: u16 = self.sp.wrapping_sub(2).wrapping_sub(4);
        let flags_cell = self.cell(Segment::SS, self.sp.wrapping_sub(2), 2);
        let link = self.cell(Segment::SS, top, 4);
        let offset: u16 = (((number % 0x10000) * 4) % 0x10000) as u16;
        let entry = self.cell(Segment::IVT, offset, 4);
        match self.blocked(Operand::Memory(flags_cell)) {
            Some(fault) => {
                return Err(fault);
            },
            None => {},
        }
        match self.blocked(Operand::Memory(link)) {
            Some(fault) => {
                return Err(fault);
            },
            None => {},
        }
        match self.blocked(Operand::Memory(entry)) {
            Some(fault) => {
                return Err(fault);
            },
            None => {},
        }
        let word: u16 = self.flags.as_word();
        let _ = self.push_word(word as u32);
        let address: u32 = self.memory.code_segment as u32 * 0x10000 + self.ip as u32;
        let _ = self.store(link, address);
        self.set_register(RegisterId::SP, top);
        let vector: u32 = match self.load(entry) {
            Ok(value) => value,
            Err(_) => 0,
        };
        self.set_register(RegisterId::CS, (vector % 0x10000) as u16);
        self.set_register(RegisterId::IP, (vector / 0x10000) as u16);
        let flags = Flags { interrupt: false, trap: false, ..self.flags };
        self.set_flags(flags);
        Ok(())
    }

    /// Returns from an interrupt.
    pub fn interrupt_left(&mut self) -> (res: Result<(), Fault>)
        ensures
            match old(self)@.interrupt_left() {
                Ok(machine) => res is Ok && final(self)@ == machine,
                Err(fault) => res == Err::<(), Fault>(fault) && final(self)@ == old(self)@,
            },
    {
        let link: u32 = match self.load(self.cell(Segment::SS, self.sp, 4)) {
            Ok(value) => value,
            Err(fault) => {
                return Err(fault);
            },
        };
        let word: u32 = match self.load(self.cell(Segment::SS, self.sp.wrapping_add(4), 2)) {
            Ok(value) => value,
            Err(fault) => {
                return Err(fault);
            },
        };
        let top: u16 = self.sp.wrapping_add(6);
        let mut flags = self.flags;
        flags.set(word as u16);
        self.set_register(RegisterId::IP, (link % 0x10000) as u16);
        self.set_register(RegisterId::CS, (link / 0x10000) as u16);
        self.set_register(RegisterId::SP, top);
        self.set_flags(flags);
        Ok(())
    }

    fn io_done(&mut self, inst: &InstructionFormat, dst: Operand, src: Operand, ports: &mut Vec<u8>) -> (res:
        Result<Option<(u16, bool)>, Fault>)
        requires
            dst.valid(),
            src.valid(),
        ensures
            match old(self)@.io_done(*inst, dst, src, old(ports)@) {
                Ok(effect) => res == Ok::<Option<(u16, bool)>, Fault>(effect.output) && final(self)@
                    == effect.machine && final(ports)@ == effect.ports,
                Err(fault) => res == Err::<Option<(u16, bool)>, Fault>(fault) && final(ports)@
                    == old(ports)@ && final(self)@ == old(self)@,
            },
    {
        let d: u32 = match dst.get(self) {
            Ok(value) => value,
            Err(fault) => {
                return Err(fault);
            },
        };
        let s: u32 = match src.get(self) {
            Ok(value) => value,
            Err(fault) => {
                return Err(fault);
            },
        };
        if inst.direction {
            match write_ports(ports, d, s, inst.word) {
                Ok(()) => Ok(Some(((d % 0x10000) as u16, inst.word))),
                Err(fault) => Err(fault),
            }
        } else {
            let value: u32 = match read_ports(ports, s, inst.word) {
                Ok(value) => value,
                Err(fault) => {
                    return Err(fault);
                },
            };
            match dst.set(self, value) {
                Ok(()) => Ok(None),
                Err(fault) => Err(fault),
            }
        }
    }

    fn stack_done(&mut self, inst: &InstructionFormat, dst: Operand, res: u32) -> (done: Result<
        (),
        Fault,
    >)
        requires
            dst.valid(),
            inst.instrution_type is Stack,
        ensures
            match old(self)@.category_done(*inst, dst, Operand::Absent, res, Seq::empty()) {
                Ok(effect) => done is Ok && final(self)@ == effect.machine,
                Err(fault) => done == Err::<(), Fault>(fault) && final(self)@ == old(self)@,
            },
    {
        proof {
            reveal(Machine::executed);
            reveal(Machine::category_done);
        }
        match dst.set(self, res) {
            Ok(()) => {
                let top: u16 = if inst.direction {
                    self.sp.wrapping_sub(2)
                } else {
                    self.sp.wrapping_add(2)
                };
                self.set_register(RegisterId::SP, top);
                Ok(())
            },
            Err(fault) => Err(fault),
        }
    }

    fn flow_done(&mut self, far: bool, dst: Operand, res: u32) -> (done: Result<(), Fault>)
        requires
            dst.valid(),
        ensures
            match (if far {
                Machine { cs: (res / 0x10000) as u16, ..old(self)@ }
            } else {
                old(self)@
            }).written(dst, res) {
                Ok(machine) => done is Ok && final(self)@ == machine,
                Err(fault) => done == Err::<(), Fault>(fault) && final(self)@ == old(self)@,
            },
    {
        match self.blocked(dst) {
            Some(fault) => {
                return Err(fault);
            },
            None => {},
        }
        if far {
            self.set_register(RegisterId::CS, (res / 0x10000) as u16);
        }
        dst.set(self, res)
    }

    fn interrupt_done(&mut self, inst: &InstructionFormat, src: Operand) -> (done: Result<(), Fault>)
        requires
            src.valid(),
        ensures
            match (if inst.direction {
                old(self)@.interrupt_left()
            } else {
                match old(self)@.value(src) {
                    Err(fault) => Err(fault),
                    Ok(number) => old(self)@.interrupt_entered(number),
                }
            }) {
                Ok(machine) => done is Ok && final(self)@ == machine,
                Err(fault) => done == Err::<(), Fault>(fault) && final(self)@ == old(self)@,
            },
    {
        if inst.direction {
            self.interrupt_left()
        } else {
            match src.get(self) {
                Ok(number) => self.interrupt_entered(number),
                Err(fault) => Err(fault),
            }
        }
    }

    /// Writes the result back as the category of the instruction asks.
    fn category_done(
        &mut self,
        inst: &InstructionFormat,
        dst: Operand,
        src: Operand,
        res: u32,
        ports: &mut Vec<u8>,
    ) -> (done: Result<Option<(u16, bool)>, Fault>)
        requires
            dst.valid(),
            src.valid(),
        ensures
            match old(self)@.category_done(*inst, dst, src, res, old(ports)@) {
                Ok(effect) => done == Ok::<Option<(u16, bool)>, Fault>(effect.output) && final(self)@ == effect.machine && final(ports)@ == effect.ports,
                Err(fault) => done == Err::<Option<(u16, bool)>, Fault>(fault) && final(ports)@
                    == old(ports)@ && final(self)@ == old(self)@,
            },
    {
        proof {
            reveal(Machine::executed);
            reveal(Machine::category_done);
        }
        let done = match inst.instrution_type {
            InstructionType::IO => {
                return self.io_done(inst, dst, src, ports);
            },
            InstructionType::Stack => self.stack_done(inst, dst, res),
            InstructionType::Procedure => self.procedure_done(inst, dst, res),
            InstructionType::Math => {
                self.math_done(inst, res);
                Ok(())
            },
            InstructionType::Interrupt => self.interrupt_done(inst, src),
            InstructionType::ProgramFlow(far) => self.flow_done(far, dst, res),
            _ => dst.set(self, res),
        };
        match done {
            Ok(()) => Ok(None),
            Err(fault) => Err(fault),
        }
    }

    /// Executes the instruction with the descriptor `inst` on the operands
    /// `dst` and `src`: applies its operation, writes the result back as
    /// its category asks, and commits the flags. Returns the port that an
    /// output instruction wrote, with its width. A fault leaves registers,
    /// memory and ports as they were.
    pub fn execute(
        &mut self,
        inst: &InstructionFormat,
        dst: Operand,
        src: Operand,
        ports: &mut Vec<u8>,
    ) -> (res: Result<Option<(u16, bool)>, Fault>)
        requires
            dst.valid(),
            src.valid(),
        ensures
            match old(self)@.executed(*inst, dst, src, old(ports)@) {
                Ok(effect) => res == Ok::<Option<(u16, bool)>, Fault>(effect.output) && final(self)@
                    == effect.machine && final(ports)@ == effect.ports,
                Err(fault) => res == Err::<Option<(u16, bool)>, Fault>(fault) && final(ports)@
                    == old(ports)@ && final(self)@.same_store(old(self)@),
            },
    {
        proof {
            reveal(Machine::executed);
            reveal(Machine::category_done);
        }
        let mut flags = self.flags;
        let result: u32 = match inst.execute {
            Some(operation) => {
                let d: u32 = match dst.get(self) {
                    Ok(value) => value,
                    Err(fault) => {
                        return Err(fault);
                    },
                };
                let s: u32 = match src.get(self) {
                    Ok(value) => value,
                    Err(fault) => {
                        return Err(fault);
                    },
                };
                match operation.apply(d, s, &mut flags) {
                    Ok(value) => value,
                    Err(fault) => {
                        return Err(fault);
                    },
                }
            },
            None => match src.get(self) {
                Ok(value) => value,
                Err(fault) => {
                    return Err(fault);
                },
            },
        };
        self.set_flags(flags);
        if inst.write {
            self.category_done(inst, dst, src, result, ports)
        } else {
            Ok(None)
        }
    }
}

} // verus!
