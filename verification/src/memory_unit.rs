//! The registers, the memory image and the instruction buffer, and the
//! resolution of operands on them.

use crate::bus::{bus_add, bus_bytes, bus_capacity, bus_new, bus_peek, bus_remove, bus_size};
use crate::descriptor::{InstructionFormat, InstructionType, ModrmRegField, OperandType};
use crate::fault::Fault;
use crate::flags::Flags;
use crate::machine::{
    displacement_length, register_operand, width, Machine, Operand, RegisterId, Resolved,
};
use crate::memory::{
    read_le, AddressPolicy, MemoryPointer, MemorySegments, Segment, MEMORY_SIZE,
};
use crate::registers;
use queues::Buffer;
use vstd::prelude::*;

verus! {

/// The number of bytes that the instruction buffer of a new unit holds.
pub const BUS_CAPACITY: usize = 6;

/// The registers, the memory image and the instruction buffer.
pub struct MemoryUnit {
    pub flags: Flags,
    /// The instruction pointer.
    pub ip: u16,
    /// The stack pointer.
    pub sp: u16,
    /// The base pointer.
    pub bp: u16,
    /// The source index.
    pub si: u16,
    /// The destination index.
    pub di: u16,
    pub ax: u16,
    pub bx: u16,
    pub cx: u16,
    pub dx: u16,
    pub memory: MemorySegments,
    /// The `reg` field of the last ModRM byte that named a destination.
    pub reference: u16,
    /// The bytes of the instruction that is being decoded.
    pub inst_bus: Buffer<u8>,
    /// The segment of the memory operands of the current instruction.
    pub segment: Segment,
}

impl View for MemoryUnit {
    type V = Machine;

    open spec fn view(&self) -> Machine {
        Machine {
            flags: self.flags,
            ip: self.ip,
            sp: self.sp,
            bp: self.bp,
            si: self.si,
            di: self.di,
            ax: self.ax,
            bx: self.bx,
            cx: self.cx,
            dx: self.dx,
            cs: self.memory.code_segment,
            ds: self.memory.data_segment,
            ss: self.memory.stack_segment,
            es: self.memory.extra_segment,
            policy: self.memory.policy,
            mem: self.memory.memory@,
            reference: self.reference,
            bus: bus_bytes(self.inst_bus),
            capacity: bus_capacity(self.inst_bus),
            segment: self.segment,
        }
    }
}

impl Operand {
    /// Writes `val` to the operand: a register takes its low 16 bits, a
    /// byte of a register its low 8 bits while the other byte stays, a cell
    /// of memory as many low bytes as it is wide. A write to an immediate
    /// or to no operand changes nothing.
    pub fn set(&self, unit: &mut MemoryUnit, val: u32) -> (res: Result<(), Fault>)
        requires
            self.valid(),
        ensures
            match old(unit)@.written(*self, val) {
                Ok(machine) => res is Ok && final(unit)@ == machine,
                Err(fault) => res == Err::<(), Fault>(fault) && final(unit)@ == old(unit)@,
            },
    {
        match self {
            Operand::Register(id) => {
                unit.set_register(*id, (val % 0x10000) as u16);
                Ok(())
            },
            Operand::SmallRegister(id, high) => {
                let current: u16 = unit.register(*id);
                let byte: u16 = (val % 0x100) as u16;
                if *high {
                    unit.set_register(*id, byte * 0x100 + current % 0x100);
                } else {
                    unit.set_register(*id, (current / 0x100) * 0x100 + byte);
                }
                Ok(())
            },
            Operand::Memory(pointer) => pointer.set(&mut unit.memory, val),
            Operand::Data(_) => Ok(()),
            Operand::Absent => Ok(()),
        }
    }

    /// Reads the operand, widened to 32 bits. An immediate reads as its
    /// value and no operand as zero.
    pub fn get(&self, unit: &MemoryUnit) -> (res: Result<u32, Fault>)
        requires
            self.valid(),
        ensures
            res == unit@.value(*self),
    {
        match self {
            Operand::Register(id) => Ok(unit.register(*id) as u32),
            Operand::SmallRegister(id, high) => {
                let current: u16 = unit.register(*id);
                if *high {
                    Ok((current / 0x100) as u32)
                } else {
                    Ok((current % 0x100) as u32)
                }
            },
            Operand::Memory(pointer) => pointer.get(&unit.memory),
            Operand::Data(data) => Ok(*data),
            Operand::Absent => Ok(0),
        }
    }
}

impl MemoryUnit {
    /// A unit with every register zero but the stack pointer, which is
    /// 0xFFFE; with zeroed memory and an empty instruction buffer.
    pub fn new() -> (unit: Self)
        ensures
            unit@ == MemoryUnit::initial(),
    {
        Self {
            flags: Flags::default(),
            ip: 0,
            sp: 0xFFFE,
            bp: 0,
            si: 0,
            di: 0,
            ax: 0,
            bx: 0,
            cx: 0,
            dx: 0,
            reference: 0,
            memory: MemorySegments::new(),
            inst_bus: bus_new(BUS_CAPACITY),
            segment: Segment::CS,
        }
    }

    /// The state of a new unit.
    pub open spec fn initial() -> Machine {
        Machine {
            flags: Flags::decoded(0),
            ip: 0,
            sp: 0xFFFE,
            bp: 0,
            si: 0,
            di: 0,
            ax: 0,
            bx: 0,
            cx: 0,
            dx: 0,
            cs: 0,
            ds: 0,
            ss: 0,
            es: 0,
            policy: AddressPolicy::TimesTen,
            mem: Seq::new(MEMORY_SIZE as nat, |i: int| 0u8),
            reference: 0,
            bus: Seq::empty(),
            capacity: BUS_CAPACITY as nat,
            segment: Segment::CS,
        }
    }

    /// Reads a register.
    pub fn register(&self, id: RegisterId) -> (value: u16)
        ensures
            value == self@.reg(id),
    {
        match id {
            RegisterId::AX => self.ax,
            RegisterId::CX => self.cx,
            RegisterId::DX => self.dx,
            RegisterId::BX => self.bx,
            RegisterId::SP => self.sp,
            RegisterId::BP => self.bp,
            RegisterId::SI => self.si,
            RegisterId::DI => self.di,
            RegisterId::ES => self.memory.extra_segment,
            RegisterId::CS => self.memory.code_segment,
            RegisterId::SS => self.memory.stack_segment,
            RegisterId::DS => self.memory.data_segment,
            RegisterId::IP => self.ip,
        }
    }

    fn set_general(&mut self, id: RegisterId, value: u16)
        requires
            id is AX || id is CX || id is DX || id is BX,
        ensures
            final(self)@ == old(self)@.with_reg(id, value),
    {
        match id {
            RegisterId::AX => self.ax = value,
            RegisterId::CX => self.cx = value,
            RegisterId::DX => self.dx = value,
            _ => self.bx = value,
        }
    }

    fn set_pointer(&mut self, id: RegisterId, value: u16)
        requires
            id is SP || id is BP || id is SI || id is DI || id is IP,
        ensures
            final(self)@ == old(self)@.with_reg(id, value),
    {
        match id {
            RegisterId::SP => self.sp = value,
            RegisterId::BP => self.bp = value,
            RegisterId::SI => self.si = value,
            RegisterId::DI => self.di = value,
            _ => self.ip = value,
        }
    }

    fn set_segment(&mut self, id: RegisterId, value: u16)
        requires
            id is ES || id is CS || id is SS || id is DS,
        ensures
            final(self)@ == old(self)@.with_reg(id, value),
    {
        match id {
            RegisterId::ES => self.memory.extra_segment = value,
            RegisterId::CS => self.memory.code_segment = value,
            RegisterId::SS => self.memory.stack_segment = value,
            _ => self.memory.data_segment = value,
        }
    }

    /// Writes a register.
    pub fn set_register(&mut self, id: RegisterId, value: u16)
        ensures
            final(self)@ == old(self)@.with_reg(id, value),
    {
        match id {
            RegisterId::AX | RegisterId::CX | RegisterId::DX | RegisterId::BX => self.set_general(
                id,
                value,
            ),
            RegisterId::ES | RegisterId::CS | RegisterId::SS | RegisterId::DS => self.set_segment(
                id,
                value,
            ),
            _ => self.set_pointer(id, value),
        }
    }

    /// Replaces the flags.
    pub fn set_flags(&mut self, flags: Flags)
        ensures
            final(self)@ == (Machine { flags, ..old(self)@ }),
    {
        self.flags = flags;
    }

    /// Writes the low bytes of `val` to a cell of memory.
    pub fn store(&mut self, cell: MemoryPointer, val: u32) -> (res: Result<(), Fault>)
        requires
            cell.valid(),
        ensures
            match old(self)@.stored(cell, val) {
                Ok(machine) => res is Ok && final(self)@ == machine,
                Err(fault) => res == Err::<(), Fault>(fault) && final(self)@ == old(self)@,
            },
    {
        cell.set(&mut self.memory, val)
    }

    /// Reads a cell of memory.
    pub fn load(&self, cell: MemoryPointer) -> (res: Result<u32, Fault>)
        requires
            cell.valid(),
        ensures
            res == self@.loaded(cell),
    {
        cell.get(&self.memory)
    }

    /// Names the segment of the memory operands of the current instruction.
    pub fn set_operand_segment(&mut self, segment: Segment)
        ensures
            final(self)@ == (Machine { segment, ..old(self)@ }),
    {
        self.segment = segment;
    }

    /// Empties the instruction buffer.
    pub fn clear_bus(&mut self)
        ensures
            final(self)@ == (Machine { bus: Seq::empty(), ..old(self)@ }),
    {
        while bus_size(&self.inst_bus) > 0
            invariant
                self@ == (Machine { bus: self@.bus, ..old(self)@ }),
            decreases self@.bus.len(),
        {
            let _ = bus_remove(&mut self.inst_bus);
        }
        assert(self@.bus =~= Seq::empty());
    }

    /// The oldest byte in the instruction buffer, which stays there.
    pub fn peek_bus(&self) -> (byte: Option<u8>)
        ensures
            byte == if self@.bus.len() > 0 {
                Some(self@.bus[0])
            } else {
                None
            },
    {
        bus_peek(&self.inst_bus)
    }

    /// Takes the oldest byte out of the instruction buffer.
    pub fn pop_bus(&mut self) -> (byte: Option<u8>)
        ensures
            byte == if old(self)@.bus.len() > 0 {
                Some(old(self)@.bus[0])
            } else {
                None
            },
            final(self)@ == (Machine {
                bus: if old(self)@.bus.len() > 0 {
                    old(self)@.bus.skip(1)
                } else {
                    old(self)@.bus
                },
                ..old(self)@
            }),
    {
        bus_remove(&mut self.inst_bus)
    }

    /// The fault that stands in the way of reading or writing an operand,
    /// if there is one.
    pub fn blocked(&self, operand: Operand) -> (fault: Option<Fault>)
        ensures
            fault == self@.blocked(operand),
    {
        match operand {
            Operand::Memory(pointer) => {
                let len: usize = pointer.len as usize;
                let size: usize = self.memory.memory.len();
                if len <= size && pointer.ptr as usize <= size - len {
                    None
                } else {
                    Some(Fault::AddressOutOfRange(pointer.ptr))
                }
            },
            _ => None,
        }
    }

    /// Records the `reg` field of a ModRM byte.
    pub fn set_reference(&mut self, reference: u16)
        ensures
            final(self)@ == (Machine { reference, ..old(self)@ }),
    {
        self.reference = reference;
    }

    /// The cell of `len` bytes at an offset in a segment.
    pub fn cell(&self, segment: Segment, offset: u16, len: u8) -> (pointer: MemoryPointer)
        ensures
            pointer == self@.cell(segment, offset, len),
    {
        MemoryPointer::new(len, self.memory.get_memory_pointer(&segment, offset))
    }

    /// The register operand that a register code names, if it names one.
    pub fn find_reg(reg_code: u8, regfd: ModrmRegField, word: bool) -> (operand: Option<Operand>)
        ensures
            operand == register_operand(reg_code, regfd, word),
            operand matches Some(o) ==> o.valid(),
    {
        let code: u8 = if word {
            reg_code
        } else {
            reg_code % 4
        };
        let id = match regfd {
            ModrmRegField::Reg => {
                if code == registers::AX {
                    RegisterId::AX
                } else if code == registers::CX {
                    RegisterId::CX
                } else if code == registers::DX {
                    RegisterId::DX
                } else if code == registers::BX {
                    RegisterId::BX
                } else if code == registers::SP {
                    RegisterId::SP
                } else if code == registers::BP {
                    RegisterId::BP
                } else if code == registers::SI {
                    RegisterId::SI
                } else if code == registers::DI {
                    RegisterId::DI
                } else if code == registers::RES {
                    RegisterId::ES
                } else if code == registers::RCS {
                    RegisterId::CS
                } else if code == registers::RSS {
                    RegisterId::SS
                } else if code == registers::RDS {
                    RegisterId::DS
                } else {
                    return None;
                }
            },
            ModrmRegField::Sreg => {
                if code == registers::ES {
                    RegisterId::ES
                } else if code == registers::CS {
                    RegisterId::CS
                } else if code == registers::SS {
                    RegisterId::SS
                } else if code == registers::DS {
                    RegisterId::DS
                } else {
                    return None;
                }
            },
            ModrmRegField::Group(_) => {
                return None;
            },
        };
        if word {
            Some(Operand::Register(id))
        } else {
            Some(Operand::SmallRegister(id, reg_code > 3))
        }
    }

    /// The register operand that a register code names.
    pub fn get_reg(&self, reg_code: u8, regfd: ModrmRegField, word: bool) -> (operand: Operand)
        requires
            register_operand(reg_code, regfd, word) is Some,
        ensures
            Some(operand) == register_operand(reg_code, regfd, word),
            operand.valid(),
    {
        match MemoryUnit::find_reg(reg_code, regfd, word) {
            Some(operand) => operand,
            None => Operand::Absent,
        }
    }

    /// Takes the immediate of `len` bytes from the head of the instruction
    /// buffer, lowest byte first. Where fewer bytes wait, none is taken.
    pub fn get_data(&mut self, len: u8) -> (res: Result<Operand, Fault>)
        requires
            len <= 4,
        ensures
            match old(self)@.taken(len) {
                Ok((value, machine)) => res == Ok::<Operand, Fault>(Operand::Data(value))
                    && final(self)@ == machine,
                Err(fault) => res == Err::<Operand, Fault>(fault) && final(self)@ == old(self)@,
            },
    {
        if bus_size(&self.inst_bus) < len as usize {
            return Err(Fault::IncompleteInstruction);
        }
        let ghost before = bus_bytes(self.inst_bus);
        let mut value: u32 = 0;
        let mut scale: u32 = 1;
        let mut i: u8 = 0;
        assert(before.skip(0) =~= before);
        while i < len
            invariant
                i <= len <= 4,
                len <= before.len(),
                value == read_le(before, 0, i as int),
                scale == (if i == 0 {
                    1int
                } else if i == 1 {
                    0x100int
                } else if i == 2 {
                    0x10000int
                } else {
                    0x1000000int
                }),
                self@ == (Machine { bus: before.skip(i as int), ..old(self)@ }),
            decreases len - i,
        {
            let byte: u32 = match bus_remove(&mut self.inst_bus) {
                Some(byte) => byte as u32,
                None => 0,
            };
            assert(before.skip(i as int).skip(1) =~= before.skip(i + 1));
            assert(byte == before[i as int]);
            value = value + byte * scale;
            if i < 3 {
                scale = scale * 0x100;
            }
            i = i + 1;
        }
        Ok(Operand::Data(value))
    }

    /// Resolves the operand that a ModRM byte with these `mod` and `r/m`
    /// fields addresses. With `mod` 3 it is the register that `r/m` names.
    /// Otherwise it is the memory cell, in the segment of the current
    /// instruction, whose offset is the sum modulo 2^16 of the displacement
    /// and of: BX+SI, BX+DI, BP+SI, BP+DI, SI, DI, BP, BX for `r/m` 0 to 7;
    /// but with `mod` 0 and `r/m` 6 the offset is the two-byte displacement
    /// alone. The displacement has no byte with `mod` 0, one with `mod` 1
    /// and two with `mod` 2, and is taken from the instruction buffer.
    pub fn get_addressing_operand(&mut self, modf: u8, rm: u8, word: bool) -> (res: Result<
        Operand,
        Fault,
    >)
        ensures
            match old(self)@.addressed(modf, rm, word) {
                Ok((operand, machine)) => res == Ok::<Operand, Fault>(operand) && final(self)@
                    == machine && operand.valid(),
                Err(fault) => res == Err::<Operand, Fault>(fault) && final(self)@ == old(self)@,
            },
            modf < 3 && rm < 8 && res is Ok ==> ({
                let displacement = read_le(
                    old(self)@.bus,
                    0,
                    displacement_length(modf, rm),
                ) as u32;
                res == Ok::<Operand, Fault>(
                    Operand::Memory(
                        old(self)@.cell(
                            old(self)@.segment,
                            old(self)@.effective_address(modf, rm, displacement),
                            width(word),
                        ),
                    ),
                )
            }),
    {
        if rm > 7 {
            return Err(Fault::IllegalRegister(rm));
        }
        if modf > 3 {
            return Err(Fault::MalformedDescriptor);
        }
        if modf == 3 {
            return Ok(self.get_reg(rm, ModrmRegField::Reg, word));
        }
        let length: u8 = if modf == 0 {
            if rm == registers::VARIABLE {
                2
            } else {
                0
            }
        } else {
            modf
        };
        let displacement: u32 = if length == 0 {
            0
        } else {
            match self.get_data(length) {
                Ok(Operand::Data(value)) => value,
                Ok(_) => 0,
                Err(fault) => {
                    return Err(fault);
                },
            }
        };
        let base: u32 = match rm {
            0 => self.bx as u32 + self.si as u32,
            1 => self.bx as u32 + self.di as u32,
            2 => self.bp as u32 + self.si as u32,
            3 => self.bp as u32 + self.di as u32,
            4 => self.si as u32,
            5 => self.di as u32,
            6 => if modf == 0 {
                0
            } else {
                self.bp as u32
            },
            _ => self.bx as u32,
        };
        let offset: u16 = ((base + displacement) % 0x10000) as u16;
        let len: u8 = if word {
            2
        } else {
            1
        };
        Ok(Operand::Memory(self.cell(self.segment, offset, len)))
    }

    /// The operand that the `reg` field of a ModRM byte names: a register,
    /// or for a group instruction the second operand of its selector.
    fn reg_operand(&self, regfd: ModrmRegField, regf: u8, word: bool) -> (other: Option<Operand>)
        ensures
            other == (match regfd {
                ModrmRegField::Group(selector) => Some(self@.group_source(selector)),
                _ => register_operand(regf, regfd, word),
            }),
            other matches Some(operand) ==> operand.valid(),
    {
        match regfd {
            ModrmRegField::Group(selector) => {
                if selector == 1 {
                    Some(Operand::Data(1))
                } else if selector == 2 {
                    Some(Operand::Data((self.cx % 0x100) as u32))
                } else {
                    Some(Operand::Absent)
                }
            },
            _ => MemoryUnit::find_reg(regf, regfd, word),
        }
    }

    /// Takes the ModRM byte from the instruction buffer and resolves the
    /// operand that its `mod` and `r/m` fields address and the operand that
    /// its `reg` field names.
    fn modrm_pair(&mut self, regfd: ModrmRegField, word: bool) -> (res: Result<
        (Operand, Operand, u8),
        Fault,
    >)
        ensures
            final(self)@.same_store(old(self)@),
            old(self)@.bus.len() == 0 ==> res == Err::<(Operand, Operand, u8), Fault>(
                Fault::IncompleteInstruction,
            ),
            old(self)@.bus.len() > 0 ==> ({
                let modrm = old(self)@.bus[0];
                let regf = ((modrm / 8) % 8) as u8;
                match (Machine { bus: old(self)@.bus.skip(1), ..old(self)@ }).addressed(
                    modrm / 64,
                    modrm % 8,
                    word,
                ) {
                    Err(fault) => res == Err::<(Operand, Operand, u8), Fault>(fault),
                    Ok((target, rest)) => match (match regfd {
                        ModrmRegField::Group(selector) => Some(old(self)@.group_source(selector)),
                        _ => register_operand(regf, regfd, word),
                    }) {
                        None => res == Err::<(Operand, Operand, u8), Fault>(
                            Fault::IllegalRegister(regf),
                        ),
                        Some(other) => res == Ok::<(Operand, Operand, u8), Fault>(
                            (target, other, regf),
                        ) && final(self)@ == rest && target.valid() && other.valid(),
                    },
                }
            }),
    {
        let modrm: u8 = match self.pop_bus() {
            Some(byte) => byte,
            None => {
                return Err(Fault::IncompleteInstruction);
            },
        };
        let regf: u8 = (modrm / 8) % 8;
        let target = match self.get_addressing_operand(modrm / 64, modrm % 8, word) {
            Ok(operand) => operand,
            Err(fault) => {
                return Err(fault);
            },
        };
        match self.reg_operand(regfd, regf, word) {
            Some(other) => Ok((target, other, regf)),
            None => Err(Fault::IllegalRegister(regf)),
        }
    }

    /// Puts the two operands of a ModRM byte in their places and lets the
    /// immediate, if there is one, take the place of the source.
    fn modrm_placed(
        &mut self,
        inst: &InstructionFormat,
        target: Operand,
        other: Operand,
        regf: u8,
        immediate: bool,
    ) -> (res: Result<(Operand, Operand), Fault>)
        requires
            target.valid(),
            other.valid(),
        ensures
            final(self)@.same_store(old(self)@),
            ({
                let turned = if inst.direction {
                    Resolved {
                        machine: Machine { reference: regf as u16, ..old(self)@ },
                        dst: other,
                        src: target,
                    }
                } else {
                    Resolved { machine: old(self)@, dst: target, src: other }
                };
                if immediate {
                    match turned.machine.taken(width(inst.word)) {
                        Err(fault) => res == Err::<(Operand, Operand), Fault>(fault),
                        Ok((value, last)) => res == Ok::<(Operand, Operand), Fault>(
                            (turned.dst, Operand::Data(value)),
                        ) && final(self)@ == last,
                    }
                } else {
                    res == Ok::<(Operand, Operand), Fault>((turned.dst, turned.src)) && final(self)@
                        == turned.machine
                }
            }),
            res matches Ok(operands) ==> operands.0.valid() && operands.1.valid(),
    {
        let (dst, src) = if inst.direction {
            self.set_reference(regf as u16);
            (other, target)
        } else {
            (target, other)
        };
        if immediate {
            match self.get_data(
                if inst.word {
                    2
                } else {
                    1
                },
            ) {
                Ok(data) => Ok((dst, data)),
                Err(fault) => Err(fault),
            }
        } else {
            Ok((dst, src))
        }
    }

    /// Resolves the operands of an instruction whose ModRM byte is the
    /// first byte in the instruction buffer.
    fn modrm_operands(&mut self, inst: &InstructionFormat, regfd: ModrmRegField, immediate: bool) -> (res:
        Result<(Operand, Operand), Fault>)
        ensures
            match old(self)@.modrm_operands(*inst, regfd, immediate) {
                Ok(operands) => res == Ok::<(Operand, Operand), Fault>((operands.dst, operands.src))
                    && final(self)@ == operands.machine && operands.dst.valid()
                    && operands.src.valid(),
                Err(fault) => res == Err::<(Operand, Operand), Fault>(fault),
            },
            final(self)@.same_store(old(self)@),
    {
        match self.modrm_pair(regfd, inst.word) {
            Ok((target, other, regf)) => self.modrm_placed(inst, target, other, regf, immediate),
            Err(fault) => Err(fault),
        }
    }

    /// Resolves the operands that the addressing mode of the descriptor
    /// gives.
    fn primary(&mut self, inst: &InstructionFormat) -> (res: Result<(Operand, Operand), Fault>)
        ensures
            match old(self)@.primary(*inst) {
                Ok(operands) => res == Ok::<(Operand, Operand), Fault>((operands.dst, operands.src))
                    && final(self)@ == operands.machine && operands.dst.valid()
                    && operands.src.valid(),
                Err(fault) => res == Err::<(Operand, Operand), Fault>(fault),
            },
            final(self)@.same_store(old(self)@),
    {
        match inst.operand_type {
            OperandType::Data(reg) => {
                let register = match MemoryUnit::find_reg(reg, ModrmRegField::Reg, inst.word) {
                    Some(operand) => operand,
                    None => {
                        return Err(Fault::IllegalRegister(reg));
                    },
                };
                let data = match self.get_data(
                    if inst.word {
                        2
                    } else {
                        1
                    },
                ) {
                    Ok(data) => data,
                    Err(fault) => {
                        return Err(fault);
                    },
                };
                let call_or_return = match inst.instrution_type {
                    InstructionType::Procedure => true,
                    _ => false,
                };
                if inst.direction && !call_or_return {
                    Ok((data, register))
                } else {
                    Ok((register, data))
                }
            },
            OperandType::Address(reg) => {
                let register = match MemoryUnit::find_reg(reg, ModrmRegField::Reg, inst.word) {
                    Some(operand) => operand,
                    None => {
                        return Err(Fault::IllegalRegister(reg));
                    },
                };
                let target = match self.get_addressing_operand(0, registers::VARIABLE, inst.word) {
                    Ok(operand) => operand,
                    Err(fault) => {
                        return Err(fault);
                    },
                };
                if inst.direction {
                    Ok((target, register))
                } else {
                    Ok((register, target))
                }
            },
            OperandType::ModRM(regfd, immediate) => self.modrm_operands(inst, regfd, immediate),
            OperandType::Registers(first, second) => {
                let register = match MemoryUnit::find_reg(first, ModrmRegField::Reg, inst.word) {
                    Some(operand) => operand,
                    None => {
                        return Err(Fault::IllegalRegister(first));
                    },
                };
                let other = match second {
                    Some(code) => match MemoryUnit::find_reg(code, ModrmRegField::Reg, inst.word) {
                        Some(operand) => operand,
                        None => {
                            return Err(Fault::IllegalRegister(code));
                        },
                    },
                    None => Operand::Absent,
                };
                if inst.direction {
                    Ok((other, register))
                } else {
                    Ok((register, other))
                }
            },
            OperandType::Absent => Ok((Operand::Absent, Operand::Absent)),
        }
    }

    /// The operands of a far jump: two more bytes of the instruction are
    /// the high word of the source.
    fn far_operands(&mut self, src: Operand) -> (res: Result<(Operand, Operand), Fault>)
        requires
            src.valid(),
        ensures
            match old(self)@.taken(2) {
                Err(fault) => res == Err::<(Operand, Operand), Fault>(fault) && final(self)@ == old(self)@,
                Ok((segment, rest)) => final(self)@ == rest && match rest.value(src) {
                    Err(fault) => res == Err::<(Operand, Operand), Fault>(fault),
                    Ok(offset) => res == Ok::<(Operand, Operand), Fault>(
                        (
                            Operand::Register(RegisterId::IP),
                            Operand::Data(((segment * 0x10000) as u32).wrapping_add(offset)),
                        ),
                    ),
                },
            },
    {
        let segment: u32 = match self.get_data(2) {
            Ok(Operand::Data(value)) => value,
            Ok(_) => 0,
            Err(fault) => {
                return Err(fault);
            },
        };
        match src.get(self) {
            Ok(offset) => Ok(
                (
                    Operand::Register(RegisterId::IP),
                    Operand::Data((segment * 0x10000).wrapping_add(offset)),
                ),
            ),
            Err(fault) => Err(fault),
        }
    }

    /// The operands of a return: the word at the stack pointer is the
    /// source, and the stack pointer moves up by twice the operand.
    fn return_operands(&mut self, src: Operand) -> (res: Result<(Operand, Operand), Fault>)
        requires
            src.valid(),
        ensures
            match old(self)@.value(src) {
                Err(fault) => res == Err::<(Operand, Operand), Fault>(fault) && final(self)@ == old(self)@,
                Ok(words) => res == Ok::<(Operand, Operand), Fault>(
                    (
                        Operand::Register(RegisterId::IP),
                        Operand::Memory(old(self)@.cell(Segment::SS, old(self)@.sp, 2)),
                    ),
                ) && final(self)@ == (Machine {
                    sp: old(self)@.sp.wrapping_add(((words * 2) % 0x10000) as u16),
                    ..old(self)@
                }),
            },
    {
        let words: u32 = match src.get(self) {
            Ok(value) => value,
            Err(fault) => {
                return Err(fault);
            },
        };
        let link = Operand::Memory(self.cell(Segment::SS, self.sp, 2));
        let bump: u16 = (((words % 0x10000) * 2) % 0x10000) as u16;
        assert(bump == (words * 2) % 0x10000);
        let top: u16 = self.sp.wrapping_add(bump);
        self.set_register(RegisterId::SP, top);
        Ok((Operand::Register(RegisterId::IP), link))
    }

    /// The destination value of a multiplication or division: the pair
    /// DX:AX. Its width is recorded in the flags.
    fn math_operand(&mut self, word: bool) -> (pair: u32)
        ensures
            pair == old(self)@.dx * 0x10000 + old(self)@.ax,
            final(self)@ == (Machine {
                flags: Flags { res1: word, ..old(self)@.flags },
                ..old(self)@
            }),
    {
        let pair: u32 = self.dx as u32 * 0x10000 + self.ax as u32;
        let flags = Flags { res1: word, ..self.flags };
        self.set_flags(flags);
        pair
    }

    /// Applies what the category of the instruction asks of its operands.
    fn specialized(&mut self, inst: &InstructionFormat, dst: Operand, src: Operand) -> (res: Result<
        (Operand, Operand),
        Fault,
    >)
        requires
            dst.valid(),
            src.valid(),
        ensures
            match old(self)@.specialized(*inst, dst, src) {
                Ok(operands) => res == Ok::<(Operand, Operand), Fault>((operands.dst, operands.src))
                    && final(self)@ == operands.machine && operands.dst.valid()
                    && operands.src.valid(),
                Err(fault) => res == Err::<(Operand, Operand), Fault>(fault),
            },
            final(self)@.same_store(old(self)@),
    {
        match inst.instrution_type {
            InstructionType::ProgramFlow(far) => {
                if far {
                    self.far_operands(src)
                } else {
                    Ok((Operand::Register(RegisterId::IP), src))
                }
            },
            InstructionType::Stack => {
                if inst.direction {
                    Ok((Operand::Memory(self.cell(Segment::SS, self.sp.wrapping_sub(2), 2)), src))
                } else {
                    Ok((dst, Operand::Memory(self.cell(Segment::SS, self.sp, 2))))
                }
            },
            InstructionType::Procedure => {
                if inst.direction {
                    Ok((Operand::Register(RegisterId::IP), src))
                } else {
                    self.return_operands(src)
                }
            },
            InstructionType::Math => Ok((Operand::Data(self.math_operand(inst.word)), src)),
            _ => Ok((dst, src)),
        }
    }

    /// Resolves the destination (first) and the source (second) of the
    /// instruction with the descriptor `inst`, whose bytes after the opcode
    /// wait in the instruction buffer.
    pub fn read(&mut self, inst: &InstructionFormat) -> (res: Result<(Operand, Operand), Fault>)
        ensures
            match old(self)@.resolved(*inst) {
                Ok(operands) => res == Ok::<(Operand, Operand), Fault>((operands.dst, operands.src))
                    && final(self)@ == operands.machine && operands.dst.valid()
                    && operands.src.valid(),
                Err(fault) => res == Err::<(Operand, Operand), Fault>(fault),
            },
            final(self)@.same_store(old(self)@),
    {
        proof {
            reveal(Machine::resolved);
        }
        match self.primary(inst) {
            Ok((dst, src)) => self.specialized(inst, dst, src),
            Err(fault) => Err(fault),
        }
    }

    /// Reads `count` bytes at the instruction pointer into the instruction
    /// buffer and moves the instruction pointer past them.
    pub fn read_code_segment(&mut self, count: u8) -> (res: Result<(), Fault>)
        ensures
            match old(self)@.fetched(count as nat) {
                Ok(machine) => res is Ok && final(self)@ == machine,
                Err(fault) => res == Err::<(), Fault>(fault),
            },
            final(self)@.same_store(old(self)@),
    {
        let mut i: u8 = 0;
        while i < count
            invariant
                i <= count,
                old(self)@.fetched(count as nat) == self@.fetched((count - i) as nat),
                self@.same_store(old(self)@),
            decreases count - i,
        {
            let code = match self.memory.index((self.memory.code_segment, self.ip)) {
                Ok(code) => code,
                Err(fault) => {
                    return Err(fault);
                },
            };
            if !bus_add(&mut self.inst_bus, code) {
                return Err(Fault::InstructionTooLong);
            }
            self.ip = self.ip.wrapping_add(1);
            i = i + 1;
        }
        Ok(())
    }

    /// The byte at the instruction pointer, which stays where it is.
    pub fn peek_code(&self) -> (res: Result<u8, Fault>)
        ensures
            res == self@.peeked(),
    {
        self.memory.index((self.memory.code_segment, self.ip))
    }
}

} // verus!
