//! The mathematical model of the processor: its state as a value, and what
//! fetching, resolving and executing an instruction make of it.

use crate::descriptor::{InstructionFormat, InstructionType, ModrmRegField, OperandType};
use crate::fault::Fault;
use crate::flags::Flags;
use crate::memory::{
    in_range, physical, read_le, write_le, AddressPolicy, MemoryPointer, Segment,
};
use crate::registers;
use vstd::prelude::*;

verus! {

/// Names a 16-bit register.
#[derive(Clone, Copy, Debug, PartialEq, Eq, Structural)]
pub enum RegisterId {
    AX,
    CX,
    DX,
    BX,
    SP,
    BP,
    SI,
    DI,
    ES,
    CS,
    SS,
    DS,
    IP,
}

/// A handle on an operand of the instruction that is being executed.
#[derive(Clone, Copy, Debug, PartialEq, Eq, Structural)]
pub enum Operand {
    /// A 16-bit register.
    Register(RegisterId),
    /// One byte of a 16-bit register: the high byte if the flag is set, the
    /// low byte if not.
    SmallRegister(RegisterId, bool),
    /// A cell of memory.
    Memory(MemoryPointer),
    /// An immediate value.
    Data(u32),
    /// No operand: reads as zero, and a write to it is lost.
    Absent,
}

impl Operand {
    /// Whether a memory operand has a width for which access is defined.
    pub open spec fn valid(self) -> bool {
        match self {
            Operand::Memory(pointer) => pointer.valid(),
            _ => true,
        }
    }
}

/// The state of the processor.
pub struct Machine {
    pub flags: Flags,
    pub ip: u16,
    pub sp: u16,
    pub bp: u16,
    pub si: u16,
    pub di: u16,
    pub ax: u16,
    pub bx: u16,
    pub cx: u16,
    pub dx: u16,
    pub cs: u16,
    pub ds: u16,
    pub ss: u16,
    pub es: u16,
    /// How a segment value enters the physical address.
    pub policy: AddressPolicy,
    /// The bytes of the memory image.
    pub mem: Seq<u8>,
    /// The `reg` field of the last ModRM byte that named a destination.
    pub reference: u16,
    /// The bytes that wait in the instruction buffer, oldest first.
    pub bus: Seq<u8>,
    /// The number of bytes that the instruction buffer holds.
    pub capacity: nat,
    /// The segment of the memory operands of the current instruction.
    pub segment: Segment,
}

/// The general register, or the segment register in its place among the
/// general ones, that a register code names.
pub open spec fn general_register(code: u8) -> Option<RegisterId> {
    if code == registers::AX {
        Some(RegisterId::AX)
    } else if code == registers::CX {
        Some(RegisterId::CX)
    } else if code == registers::DX {
        Some(RegisterId::DX)
    } else if code == registers::BX {
        Some(RegisterId::BX)
    } else if code == registers::SP {
        Some(RegisterId::SP)
    } else if code == registers::BP {
        Some(RegisterId::BP)
    } else if code == registers::SI {
        Some(RegisterId::SI)
    } else if code == registers::DI {
        Some(RegisterId::DI)
    } else if code == registers::RES {
        Some(RegisterId::ES)
    } else if code == registers::RCS {
        Some(RegisterId::CS)
    } else if code == registers::RSS {
        Some(RegisterId::SS)
    } else if code == registers::RDS {
        Some(RegisterId::DS)
    } else {
        None
    }
}

/// The segment register that a segment-register code names.
pub open spec fn segment_register(code: u8) -> Option<RegisterId> {
    if code == registers::ES {
        Some(RegisterId::ES)
    } else if code == registers::CS {
        Some(RegisterId::CS)
    } else if code == registers::SS {
        Some(RegisterId::SS)
    } else if code == registers::DS {
        Some(RegisterId::DS)
    } else {
        None
    }
}

/// The register operand that a register code names. For a byte operand only
/// the low two bits of the code select the register, and a code above 3
/// selects its high byte.
pub open spec fn register_operand(reg_code: u8, regfd: ModrmRegField, word: bool) -> Option<
    Operand,
> {
    let code = if word {
        reg_code
    } else {
        reg_code % 4
    };
    let id = match regfd {
        ModrmRegField::Reg => general_register(code),
        ModrmRegField::Sreg => segment_register(code),
        ModrmRegField::Group(_) => None,
    };
    match id {
        Some(id) => Some(
            if word {
                Operand::Register(id)
            } else {
                Operand::SmallRegister(id, reg_code > 3)
            },
        ),
        None => None,
    }
}

/// The number of displacement bytes that follow a ModRM byte with these
/// `mod` and `r/m` fields.
pub open spec fn displacement_length(modf: u8, rm: u8) -> int {
    if modf == 0 {
        if rm == 6 {
            2
        } else {
            0
        }
    } else if modf == 1 {
        1
    } else if modf == 2 {
        2
    } else {
        0
    }
}

/// The width in bytes of an operand.
pub open spec fn width(word: bool) -> u8 {
    if word {
        2
    } else {
        1
    }
}

/// The segment that the memory operands of an instruction use where no
/// prefix overrides it: the code segment for jumps and calls, the stack
/// segment for stack instructions, the data segment for all others.
pub open spec fn default_segment(category: InstructionType) -> Segment {
    match category {
        InstructionType::ProgramFlow(_) => Segment::CS,
        InstructionType::Procedure => Segment::CS,
        InstructionType::Stack => Segment::SS,
        _ => Segment::DS,
    }
}

/// The number of bytes that follow the opcode of an instruction with the
/// descriptor `inst`, where `modrm` is the byte after the opcode.
pub open spec fn tail_length(inst: InstructionFormat, modrm: u8) -> int {
    (match inst.operand_type {
        OperandType::Address(_) => 2,
        OperandType::Data(_) => width(inst.word) as int,
        OperandType::ModRM(_, immediate) => 1 + displacement_length(modrm / 64, modrm % 8) + if immediate {
            width(inst.word) as int
        } else {
            0
        },
        OperandType::Registers(_, _) => 0,
        OperandType::Absent => 0,
    }) + if inst.instrution_type == InstructionType::ProgramFlow(true) {
        2int
    } else {
        0int
    }
}

/// The offset of a memory operand, row by row: BX+SI, BX+DI, BP+SI, BP+DI,
/// SI, DI, BP and BX for the `r/m` codes 0 to 7, plus the displacement,
/// modulo 2^16; but for `r/m` 6 with `mod` 0 the displacement alone, which
/// is then a direct address.
pub proof fn lemma_effective_address(machine: Machine, modf: u8, rm: u8, displacement: u32)
    requires
        rm < 8,
    ensures
        rm == 0 ==> machine.effective_address(modf, rm, displacement) == (machine.bx + machine.si
            + displacement) % 0x10000,
        rm == 1 ==> machine.effective_address(modf, rm, displacement) == (machine.bx + machine.di
            + displacement) % 0x10000,
        rm == 2 ==> machine.effective_address(modf, rm, displacement) == (machine.bp + machine.si
            + displacement) % 0x10000,
        rm == 3 ==> machine.effective_address(modf, rm, displacement) == (machine.bp + machine.di
            + displacement) % 0x10000,
        rm == 4 ==> machine.effective_address(modf, rm, displacement) == (machine.si + displacement)
            % 0x10000,
        rm == 5 ==> machine.effective_address(modf, rm, displacement) == (machine.di + displacement)
            % 0x10000,
        rm == 6 && modf == 0 ==> machine.effective_address(modf, rm, displacement) == displacement
            % 0x10000,
        rm == 6 && modf != 0 ==> machine.effective_address(modf, rm, displacement) == (machine.bp
            + displacement) % 0x10000,
        rm == 7 ==> machine.effective_address(modf, rm, displacement) == (machine.bx + displacement)
            % 0x10000,
{
}

/// A register that was written holds what was written, and the others hold
/// what they held.
pub proof fn lemma_with_reg(machine: Machine, id: RegisterId, value: u16, other: RegisterId)
    ensures
        machine.with_reg(id, value).reg(id) == value,
        other != id ==> machine.with_reg(id, value).reg(other) == machine.reg(other),
        machine.with_reg(id, value).mem == machine.mem,
        machine.with_reg(id, value).flags == machine.flags,
        machine.with_reg(id, value).policy == machine.policy,
{
}

/// Fetching adds as many bytes to the instruction buffer as were asked for,
/// behind those that wait there, and changes nothing but the buffer and the
/// instruction pointer. The first byte that it adds is the byte at the
/// instruction pointer. It fails for want of room only where the buffer
/// cannot hold the bytes.
pub proof fn lemma_fetched(machine: Machine, count: nat)
    ensures
        match machine.fetched(count) {
            Ok(after) => {
                &&& after.bus.len() == machine.bus.len() + count
                &&& after.bus.take(machine.bus.len() as int) == machine.bus
                &&& after == (Machine { bus: after.bus, ip: after.ip, ..machine })
                &&& count > 0 ==> machine.peeked() == Ok::<u8, Fault>(
                    after.bus[machine.bus.len() as int],
                )
            },
            Err(fault) => fault == Fault::InstructionTooLong ==> machine.bus.len() + count
                > machine.capacity,
        },
    decreases count,
{
    if count == 0 {
        assert(machine.bus.take(machine.bus.len() as int) =~= machine.bus);
    } else if machine.address(Segment::CS, machine.ip) >= machine.mem.len() {
    } else if machine.bus.len() >= machine.capacity {
    } else {
        let next = Machine {
            bus: machine.bus.push(machine.mem[machine.address(Segment::CS, machine.ip) as int]),
            ip: machine.ip.wrapping_add(1),
            ..machine
        };
        lemma_fetched(next, (count - 1) as nat);
        match next.fetched((count - 1) as nat) {
            Ok(after) => {
                assert(after.bus.take(machine.bus.len() as int) =~= after.bus.take(
                    next.bus.len() as int,
                ).take(machine.bus.len() as int));
                assert(next.bus.take(machine.bus.len() as int) =~= machine.bus);
                assert(after.bus[machine.bus.len() as int] == after.bus.take(
                    next.bus.len() as int,
                )[machine.bus.len() as int]);
            },
            Err(_) => {},
        }
    }
}

/// One byte is fetched where the byte at the instruction pointer lies
/// inside the memory image and the instruction buffer has room: the byte
/// joins the buffer and the instruction pointer moves by one.
pub proof fn lemma_fetched_one(machine: Machine, byte: u8)
    requires
        machine.peeked() == Ok::<u8, Fault>(byte),
        machine.bus.len() < machine.capacity,
    ensures
        machine.fetched(1) == Ok::<Machine, Fault>(
            Machine { bus: machine.bus.push(byte), ip: machine.ip.wrapping_add(1), ..machine },
        ),
{
    reveal_with_fuel(Machine::fetched, 2);
}

/// Operands, and the state in which they were resolved.
pub struct Resolved {
    pub machine: Machine,
    pub dst: Operand,
    pub src: Operand,
}

/// What the write-back of an instruction leaves: the state, the port array,
/// and the port that an output instruction wrote, with its width.
pub struct Effect {
    pub machine: Machine,
    pub ports: Seq<u8>,
    pub output: Option<(u16, bool)>,
}

impl Machine {
    /// The value of a register.
    pub open spec fn reg(self, id: RegisterId) -> u16 {
        match id {
            RegisterId::AX => self.ax,
            RegisterId::CX => self.cx,
            RegisterId::DX => self.dx,
            RegisterId::BX => self.bx,
            RegisterId::SP => self.sp,
            RegisterId::BP => self.bp,
            RegisterId::SI => self.si,
            RegisterId::DI => self.di,
            RegisterId::ES => self.es,
            RegisterId::CS => self.cs,
            RegisterId::SS => self.ss,
            RegisterId::DS => self.ds,
            RegisterId::IP => self.ip,
        }
    }

    /// The state with a register replaced.
    pub open spec fn with_reg(self, id: RegisterId, value: u16) -> Machine {
        Machine {
            ax: if id is AX {
                value
            } else {
                self.ax
            },
            cx: if id is CX {
                value
            } else {
                self.cx
            },
            dx: if id is DX {
                value
            } else {
                self.dx
            },
            bx: if id is BX {
                value
            } else {
                self.bx
            },
            sp: if id is SP {
                value
            } else {
                self.sp
            },
            bp: if id is BP {
                value
            } else {
                self.bp
            },
            si: if id is SI {
                value
            } else {
                self.si
            },
            di: if id is DI {
                value
            } else {
                self.di
            },
            es: if id is ES {
                value
            } else {
                self.es
            },
            cs: if id is CS {
                value
            } else {
                self.cs
            },
            ss: if id is SS {
                value
            } else {
                self.ss
            },
            ds: if id is DS {
                value
            } else {
                self.ds
            },
            ip: if id is IP {
                value
            } else {
                self.ip
            },
            ..self
        }
    }

    /// Whether both states have the same general registers, segment
    /// registers and memory: whether they differ at most in the stack
    /// pointer, the instruction pointer, the flags and the state of the
    /// decoder.
    pub open spec fn same_store(self, other: Machine) -> bool {
        &&& self.ax == other.ax
        &&& self.bx == other.bx
        &&& self.cx == other.cx
        &&& self.dx == other.dx
        &&& self.bp == other.bp
        &&& self.si == other.si
        &&& self.di == other.di
        &&& self.cs == other.cs
        &&& self.ds == other.ds
        &&& self.ss == other.ss
        &&& self.es == other.es
        &&& self.mem == other.mem
        &&& self.policy == other.policy
        &&& self.capacity == other.capacity
    }

    /// The fault that stands in the way of reading or writing an operand: a
    /// cell of memory that does not lie inside the memory image.
    pub open spec fn blocked(self, operand: Operand) -> Option<Fault> {
        match operand {
            Operand::Memory(pointer) => if in_range(
                self.mem,
                pointer.ptr as int,
                pointer.len as int,
            ) {
                None
            } else {
                Some(Fault::AddressOutOfRange(pointer.ptr))
            },
            _ => None,
        }
    }

    /// The value of a segment.
    pub open spec fn segment_value(self, segment: Segment) -> u16 {
        match segment {
            Segment::CS => self.cs,
            Segment::SS => self.ss,
            Segment::ES => self.es,
            Segment::DS => self.ds,
            Segment::IVT => 0,
        }
    }

    /// The physical address of an offset in a segment.
    pub open spec fn address(self, segment: Segment, offset: u16) -> u32 {
        physical(self.policy, self.segment_value(segment), offset) as u32
    }

    /// The cell of `len` bytes at an offset in a segment.
    pub open spec fn cell(self, segment: Segment, offset: u16, len: u8) -> MemoryPointer {
        MemoryPointer { len, ptr: self.address(segment, offset) }
    }

    /// The little-endian number in a cell of memory, or the fault where the
    /// cell does not lie inside the memory image.
    pub open spec fn loaded(self, pointer: MemoryPointer) -> Result<u32, Fault> {
        if in_range(self.mem, pointer.ptr as int, pointer.len as int) {
            Ok(read_le(self.mem, pointer.ptr as int, pointer.len as int) as u32)
        } else {
            Err(Fault::AddressOutOfRange(pointer.ptr))
        }
    }

    /// The state after the low bytes of `val` were written to a cell of
    /// memory, or the fault where the cell does not lie inside the memory
    /// image.
    pub open spec fn stored(self, pointer: MemoryPointer, val: u32) -> Result<Machine, Fault> {
        if in_range(self.mem, pointer.ptr as int, pointer.len as int) {
            Ok(
                Machine {
                    mem: write_le(self.mem, pointer.ptr as int, pointer.len as int, val as int),
                    ..self
                },
            )
        } else {
            Err(Fault::AddressOutOfRange(pointer.ptr))
        }
    }

    /// The value of an operand, widened to 32 bits.
    pub open spec fn value(self, operand: Operand) -> Result<u32, Fault> {
        match operand {
            Operand::Register(id) => Ok(self.reg(id) as u32),
            Operand::SmallRegister(id, high) => Ok(
                if high {
                    (self.reg(id) / 0x100) as u32
                } else {
                    (self.reg(id) % 0x100) as u32
                },
            ),
            Operand::Memory(pointer) => self.loaded(pointer),
            Operand::Data(data) => Ok(data),
            Operand::Absent => Ok(0),
        }
    }

    /// The state after `val` was written to an operand: a register takes
    /// its low 16 bits, a byte of a register its low 8 bits while the other
    /// byte stays, a cell of memory as many low bytes as it is wide. A
    /// write to an immediate or to no operand changes nothing.
    pub open spec fn written(self, operand: Operand, val: u32) -> Result<Machine, Fault> {
        match operand {
            Operand::Register(id) => Ok(self.with_reg(id, (val % 0x10000) as u16)),
            Operand::SmallRegister(id, high) => Ok(
                self.with_reg(
                    id,
                    if high {
                        ((val % 0x100) * 0x100 + self.reg(id) % 0x100) as u16
                    } else {
                        ((self.reg(id) / 0x100) * 0x100 + val % 0x100) as u16
                    },
                ),
            ),
            Operand::Memory(pointer) => self.stored(pointer, val),
            Operand::Data(_) => Ok(self),
            Operand::Absent => Ok(self),
        }
    }

    /// The state after `count` bytes at the instruction pointer went into
    /// the instruction buffer. A byte outside the memory image gives
    /// `AddressOutOfRange`, a byte for which the buffer has no room gives
    /// `InstructionTooLong`.
    pub open spec fn fetched(self, count: nat) -> Result<Machine, Fault>
        decreases count,
    {
        if count == 0 {
            Ok(self)
        } else if self.address(Segment::CS, self.ip) >= self.mem.len() {
            Err(Fault::AddressOutOfRange(self.address(Segment::CS, self.ip)))
        } else if self.bus.len() >= self.capacity {
            Err(Fault::InstructionTooLong)
        } else {
            (Machine {
                bus: self.bus.push(self.mem[self.address(Segment::CS, self.ip) as int]),
                ip: self.ip.wrapping_add(1),
                ..self
            }).fetched((count - 1) as nat)
        }
    }

    /// The byte at the instruction pointer, which stays where it is.
    pub open spec fn peeked(self) -> Result<u8, Fault> {
        if self.address(Segment::CS, self.ip) >= self.mem.len() {
            Err(Fault::AddressOutOfRange(self.address(Segment::CS, self.ip)))
        } else {
            Ok(self.mem[self.address(Segment::CS, self.ip) as int])
        }
    }

    /// The immediate in the first `len` bytes of the instruction buffer,
    /// and the state without them.
    pub open spec fn taken(self, len: u8) -> Result<(u32, Machine), Fault> {
        if self.bus.len() < len {
            Err(Fault::IncompleteInstruction)
        } else {
            Ok((read_le(self.bus, 0, len as int) as u32, Machine { bus: self.bus.skip(len as int), ..self }))
        }
    }

    /// The register or sum of registers to which the displacement of a
    /// memory operand is added; nothing for a direct address.
    pub open spec fn effective_base(self, modf: u8, rm: u8) -> int {
        if rm == 0 {
            self.bx + self.si
        } else if rm == 1 {
            self.bx + self.di
        } else if rm == 2 {
            self.bp + self.si
        } else if rm == 3 {
            self.bp + self.di
        } else if rm == 4 {
            self.si as int
        } else if rm == 5 {
            self.di as int
        } else if rm == 6 {
            if modf == 0 {
                0
            } else {
                self.bp as int
            }
        } else {
            self.bx as int
        }
    }

    /// The offset of the memory operand of a ModRM byte with these `mod`
    /// and `r/m` fields and this displacement: their sum modulo 2^16.
    pub open spec fn effective_address(self, modf: u8, rm: u8, displacement: u32) -> u16 {
        ((self.effective_base(modf, rm) + displacement) % 0x10000) as u16
    }

    /// The operand that a ModRM byte with these `mod` and `r/m` fields
    /// addresses, and the state without its displacement bytes.
    pub open spec fn addressed(self, modf: u8, rm: u8, word: bool) -> Result<
        (Operand, Machine),
        Fault,
    > {
        if rm > 7 {
            Err(Fault::IllegalRegister(rm))
        } else if modf > 3 {
            Err(Fault::MalformedDescriptor)
        } else if modf == 3 {
            Ok((register_operand(rm, ModrmRegField::Reg, word).unwrap(), self))
        } else if displacement_length(modf, rm) == 0 {
            Ok(
                (
                    Operand::Memory(
                        self.cell(self.segment, self.effective_address(modf, rm, 0), width(word)),
                    ),
                    self,
                ),
            )
        } else {
            match self.taken(displacement_length(modf, rm) as u8) {
                Err(fault) => Err(fault),
                Ok((displacement, rest)) => Ok(
                    (
                        Operand::Memory(
                            self.cell(
                                self.segment,
                                self.effective_address(modf, rm, displacement),
                                width(word),
                            ),
                        ),
                        rest,
                    ),
                ),
            }
        }
    }
}

} // verus!
