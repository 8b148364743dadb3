//! What single instructions do as whole steps of the processor: from the
//! bytes in memory at the instruction pointer to the state after the step.

use crate::cpu::descriptor_map;
use crate::decode::{looked_up, Opened};
use crate::descriptor::{InstructionFormat, InstructionType, OperandType};
use crate::fault::Fault;
use crate::flags::Flags;
use crate::instructions::descriptor;
use crate::machine::{
    default_segment, general_register, lemma_fetched_one, lemma_with_reg, tail_length, Effect,
    Machine, Operand, RegisterId, Resolved,
};
use crate::memory::{in_range, read_le, write_le, Segment};
use crate::symmetry::{
    lemma_enter_then_leave, lemma_entered, lemma_entered_frames, lemma_entered_vector,
    lemma_interrupt_effect, lemma_interrupt_return_effect, lemma_left_frame, lemma_moved,
    lemma_pop_effect, lemma_push_effect,
};
use vstd::prelude::*;

verus! {

/// Whether a descriptor is that of an instruction by itself: no prefix and
/// no group placeholder.
pub open spec fn plain(inst: InstructionFormat) -> bool {
    &&& !(inst.instrution_type is Group)
    &&& !(inst.instrution_type is Prefix)
    &&& !(inst.instrution_type is SegmentOverride)
    &&& inst.instrution_type != InstructionType::ProgramFlow(true)
}

/// The state in which an instruction of `length` bytes has been loaded and
/// its opcode has left the instruction buffer: the bytes `tail` after the
/// opcode wait in the buffer, the instruction pointer is past the
/// instruction, and the memory operands use the segment of the category.
pub open spec fn loaded(machine: Machine, inst: InstructionFormat, tail: Seq<u8>) -> Machine {
    Machine {
        ip: ((machine.ip + 1 + tail.len()) % 0x10000) as u16,
        bus: tail,
        segment: default_segment(inst.instrution_type),
        ..machine
    }
}

/// The step of an instruction of one byte: where its opcode lies at the
/// instruction pointer, the step performs it in the loaded state.
pub proof fn lemma_step_of_one_byte(machine: Machine, opcode: u8, ports: Seq<u8>)
    requires
        machine.peeked() == Ok::<u8, Fault>(opcode),
        machine.capacity >= 1,
        descriptor(opcode) is Some,
        plain(descriptor(opcode).unwrap()),
        descriptor(opcode).unwrap().operand_type is Registers || descriptor(
            opcode,
        ).unwrap().operand_type is Absent,
    ensures
        machine.stepped(descriptor_map(), ports) == (match loaded(
            machine,
            descriptor(opcode).unwrap(),
            Seq::empty(),
        ).performed(descriptor(opcode).unwrap(), ports) {
            Ok(effect) => Ok((effect, opcode)),
            Err(fault) => Err(fault),
        }),
{
    let inst = descriptor(opcode).unwrap();
    let table = descriptor_map();
    let start = Machine { bus: Seq::empty(), ..machine };
    lemma_fetched_one(start, opcode);
    let first = Machine { bus: seq![opcode], ip: machine.ip.wrapping_add(1), ..machine };
    assert(start.bus.push(opcode) =~= seq![opcode]);
    assert(start.fetched(1) == Ok::<Machine, Fault>(first));
    assert(looked_up(table, opcode) == Ok::<InstructionFormat, Fault>(inst));
    assert(first.concrete(inst) == Ok::<InstructionFormat, Fault>(inst));
    let opened = Machine { segment: default_segment(inst.instrution_type), ..first };
    assert(machine.opened(table) == Ok::<Opened, Fault>(Opened { machine: opened, opcode, inst }));
    assert(tail_length(inst, 0) == 0);
    assert(opened.fetched(0) == Ok::<Machine, Fault>(opened));
    assert(machine.instruction(table) == Ok::<Opened, Fault>(
        Opened { machine: opened, opcode, inst },
    ));
    assert(opened.bus.skip(1) =~= Seq::<u8>::empty());
    assert((Machine { bus: opened.bus.skip(1), ..opened }) == loaded(machine, inst, Seq::empty()));
}

/// The step of an instruction of two bytes, an opcode and an immediate
/// byte: where they lie at the instruction pointer, the step performs the
/// instruction in the loaded state.
pub proof fn lemma_step_of_two_bytes(machine: Machine, opcode: u8, second: u8, ports: Seq<u8>)
    requires
        machine.peeked() == Ok::<u8, Fault>(opcode),
        (Machine { ip: machine.ip.wrapping_add(1), ..machine }).peeked() == Ok::<u8, Fault>(second),
        machine.capacity >= 2,
        descriptor(opcode) is Some,
        plain(descriptor(opcode).unwrap()),
        descriptor(opcode).unwrap().operand_type is Data,
        !descriptor(opcode).unwrap().word,
    ensures
        machine.stepped(descriptor_map(), ports) == (match loaded(
            machine,
            descriptor(opcode).unwrap(),
            seq![second],
        ).performed(descriptor(opcode).unwrap(), ports) {
            Ok(effect) => Ok((effect, opcode)),
            Err(fault) => Err(fault),
        }),
{
    let inst = descriptor(opcode).unwrap();
    let table = descriptor_map();
    let start = Machine { bus: Seq::empty(), ..machine };
    lemma_fetched_one(start, opcode);
    let first = Machine { bus: seq![opcode], ip: machine.ip.wrapping_add(1), ..machine };
    assert(start.bus.push(opcode) =~= seq![opcode]);
    assert(start.fetched(1) == Ok::<Machine, Fault>(first));
    assert(looked_up(table, opcode) == Ok::<InstructionFormat, Fault>(inst));
    assert(first.concrete(inst) == Ok::<InstructionFormat, Fault>(inst));
    let opened = Machine { segment: default_segment(inst.instrution_type), ..first };
    assert(machine.opened(table) == Ok::<Opened, Fault>(Opened { machine: opened, opcode, inst }));
    assert(tail_length(inst, 0) == 1);
    assert(opened.peeked() == Ok::<u8, Fault>(second));
    lemma_fetched_one(opened, second);
    let last = Machine {
        bus: seq![opcode, second],
        ip: opened.ip.wrapping_add(1),
        ..opened
    };
    assert(opened.bus.push(second) =~= seq![opcode, second]);
    assert(opened.fetched(1) == Ok::<Machine, Fault>(last));
    assert(machine.instruction(table) == Ok::<Opened, Fault>(
        Opened { machine: last, opcode, inst },
    ));
    assert(last.bus.skip(1) =~= seq![second]);
    assert((Machine { bus: last.bus.skip(1), ..last }) == loaded(machine, inst, seq![second]));
}

/// A push as a whole step. Where the opcode of the push of a word register
/// lies at the instruction pointer and the word below the stack pointer
/// lies inside the memory image, the step moves the stack pointer down by
/// exactly two and writes the value of the register there, low byte first.
/// The registers but the stack pointer and the instruction pointer, and
/// all memory outside that word, stay as they are.
pub proof fn lemma_push_step(machine: Machine, code: u8, ports: Seq<u8>)
    requires
        code < 8,
        machine.peeked() == Ok::<u8, Fault>((0x50 + code) as u8),
        machine.capacity >= 1,
        in_range(
            machine.mem,
            machine.cell(Segment::SS, machine.sp.wrapping_sub(2), 2).ptr as int,
            2,
        ),
    ensures
        machine.stepped(descriptor_map(), ports) == Ok::<(Effect, u8), Fault>(
            (
                Effect {
                    machine: Machine {
                        ip: machine.ip.wrapping_add(1),
                        sp: machine.sp.wrapping_sub(2),
                        mem: write_le(
                            machine.mem,
                            machine.cell(Segment::SS, machine.sp.wrapping_sub(2), 2).ptr as int,
                            2,
                            machine.reg(general_register(code).unwrap()) as int,
                        ),
                        bus: Seq::empty(),
                        segment: Segment::SS,
                        ..machine
                    },
                    ports,
                    output: None,
                },
                (0x50 + code) as u8,
            ),
        ),
{
    let opcode = (0x50 + code) as u8;
    let inst = descriptor(opcode).unwrap();
    lemma_step_of_one_byte(machine, opcode, ports);
    let ready = loaded(machine, inst, Seq::empty());
    lemma_push_effect(ready, code, ports);
    let id = general_register(code).unwrap();
    assert(ready.reg(id) == machine.reg(id));
    assert(ready.cell(Segment::SS, ready.sp.wrapping_sub(2), 2) == machine.cell(
        Segment::SS,
        machine.sp.wrapping_sub(2),
        2,
    ));
}

/// A pop as a whole step. Where the opcode of the pop into a word register
/// other than the stack pointer lies at the instruction pointer and the
/// word at the stack pointer lies inside the memory image, the step reads
/// that word into the register and moves the stack pointer up by exactly
/// two. Memory stays as it is.
pub proof fn lemma_pop_step(machine: Machine, code: u8, ports: Seq<u8>)
    requires
        code < 8,
        code != crate::registers::SP,
        machine.peeked() == Ok::<u8, Fault>((0x58 + code) as u8),
        machine.capacity >= 1,
        in_range(machine.mem, machine.cell(Segment::SS, machine.sp, 2).ptr as int, 2),
    ensures
        machine.stepped(descriptor_map(), ports) matches Ok((effect, opcode)) && opcode == 0x58
            + code && effect.ports == ports && effect.output is None && effect.machine.sp
            == machine.sp.wrapping_add(2) && effect.machine.ip == machine.ip.wrapping_add(1)
            && effect.machine.mem == machine.mem && effect.machine.reg(
            general_register(code).unwrap(),
        ) == read_le(machine.mem, machine.cell(Segment::SS, machine.sp, 2).ptr as int, 2)
            && forall|other: RegisterId|
            other != general_register(code).unwrap() && other != RegisterId::SP && other
                != RegisterId::IP ==> effect.machine.reg(other) == machine.reg(other),
{
    let opcode = (0x58 + code) as u8;
    let inst = descriptor(opcode).unwrap();
    lemma_step_of_one_byte(machine, opcode, ports);
    let ready = loaded(machine, inst, Seq::empty());
    lemma_pop_effect(ready, code, ports);
    let id = general_register(code).unwrap();
    let cell = machine.cell(Segment::SS, machine.sp, 2);
    assert(ready.cell(Segment::SS, ready.sp, 2) == cell);
    let word = read_le(machine.mem, cell.ptr as int, 2) as u32;
    assert(ready.loaded(cell) == Ok::<u32, Fault>(word));
    let written = ready.with_reg(id, (word % 0x10000) as u16);
    assert(id != RegisterId::SP && id != RegisterId::IP);
    lemma_with_reg(ready, id, (word % 0x10000) as u16, RegisterId::SP);
    let after = Machine { sp: written.sp.wrapping_add(2), ..written };
    assert(after.reg(id) == written.reg(id));
    assert forall|other: RegisterId|
        other != id && other != RegisterId::SP && other != RegisterId::IP implies after.reg(other)
            == machine.reg(other) by {
        lemma_with_reg(ready, id, (word % 0x10000) as u16, other);
    }
}

/// The state in which a software interrupt with the number `number` has
/// been loaded and its number has been taken from the instruction buffer.
pub open spec fn interrupting(machine: Machine, number: u8) -> Machine {
    Machine { bus: Seq::empty(), ..loaded(machine, descriptor(0xCD).unwrap(), seq![number]) }
}

/// The step of a software interrupt enters the interrupt in the loaded
/// state.
pub proof fn lemma_interrupt_entry(machine: Machine, number: u8, ports: Seq<u8>)
    requires
        machine.peeked() == Ok::<u8, Fault>(0xCD),
        (Machine { ip: machine.ip.wrapping_add(1), ..machine }).peeked() == Ok::<u8, Fault>(number),
        machine.capacity >= 2,
    ensures
        machine.stepped(descriptor_map(), ports) == (match interrupting(
            machine,
            number,
        ).interrupt_entered(number as u32) {
            Ok(entered) => Ok((Effect { machine: entered, ports, output: None }, 0xCDu8)),
            Err(fault) => Err(fault),
        }),
{
    let inst = descriptor(0xCD).unwrap();
    lemma_step_of_two_bytes(machine, 0xCD, number, ports);
    lemma_interrupt_effect(loaded(machine, inst, seq![number]), number, ports);
}

/// A software interrupt as a whole step. Where the opcode and the number
/// lie at the instruction pointer and the entry succeeds, the step leaves
/// the flags on the stack just below the old stack pointer and the code
/// segment and the address of the next instruction below them, clears the
/// interrupt-enable and trap flags and no other, moves the stack pointer
/// down by six, and takes the code segment and the instruction pointer
/// from the entry of the vector table at four times the number.
pub proof fn lemma_interrupt_step(machine: Machine, number: u8, ports: Seq<u8>)
    requires
        machine.peeked() == Ok::<u8, Fault>(0xCD),
        (Machine { ip: machine.ip.wrapping_add(1), ..machine }).peeked() == Ok::<u8, Fault>(number),
        machine.capacity >= 2,
        interrupting(machine, number).interrupt_entered(number as u32) is Ok,
    ensures
        ({
            let entered = interrupting(machine, number).interrupt_entered(number as u32).unwrap();
            let flags_cell = machine.cell(Segment::SS, machine.sp.wrapping_sub(2), 2);
            let link_cell = machine.cell(Segment::SS, machine.sp.wrapping_sub(6), 4);
            let entry = machine.cell(Segment::IVT, (number * 4) as u16, 4);
            let vector = read_le(entered.mem, entry.ptr as int, 4);
            &&& machine.stepped(descriptor_map(), ports) == Ok::<(Effect, u8), Fault>(
                (Effect { machine: entered, ports, output: None }, 0xCDu8),
            )
            &&& entered.flags == (Flags { interrupt: false, trap: false, ..machine.flags })
            &&& entered.sp == machine.sp.wrapping_sub(6)
            &&& read_le(entered.mem, flags_cell.ptr as int, 2) == machine.flags.encoding()
            &&& read_le(entered.mem, link_cell.ptr as int, 4) == machine.cs * 0x10000
                + machine.ip.wrapping_add(2)
            &&& entered.cs == vector % 0x10000
            &&& entered.ip == vector / 0x10000
            &&& entered.same_store(Machine { cs: entered.cs, mem: entered.mem, ..machine })
        }),
{
    let ready = interrupting(machine, number);
    lemma_interrupt_entry(machine, number, ports);
    lemma_interrupt_shape(ready, number);
    assert(ready.ip == machine.ip.wrapping_add(2));
}

/// The state after the entry into the interrupt with the number `number`.
pub proof fn lemma_interrupt_shape(machine: Machine, number: u8)
    requires
        machine.interrupt_entered(number as u32) is Ok,
    ensures
        ({
            let entered = machine.interrupt_entered(number as u32).unwrap();
            let flags_cell = machine.cell(Segment::SS, machine.sp.wrapping_sub(2), 2);
            let link_cell = machine.cell(Segment::SS, machine.sp.wrapping_sub(6), 4);
            let entry = machine.cell(Segment::IVT, (number * 4) as u16, 4);
            let vector = read_le(entered.mem, entry.ptr as int, 4);
            &&& entered.flags == (Flags { interrupt: false, trap: false, ..machine.flags })
            &&& entered.sp == machine.sp.wrapping_sub(6)
            &&& read_le(entered.mem, flags_cell.ptr as int, 2) == machine.flags.encoding()
            &&& read_le(entered.mem, link_cell.ptr as int, 4) == machine.cs * 0x10000 + machine.ip
            &&& entered.cs == vector % 0x10000
            &&& entered.ip == vector / 0x10000
            &&& entered.same_store(Machine { cs: entered.cs, mem: entered.mem, ..machine })
        }),
{
    lemma_entered(machine, number as u32);
    lemma_entered_frames(machine, number as u32);
    lemma_entered_vector(machine, number as u32);
    let entered = machine.interrupt_entered(number as u32).unwrap();
    assert(entered.cell(Segment::SS, entered.sp, 4) == machine.cell(
        Segment::SS,
        machine.sp.wrapping_sub(6),
        4,
    ));
    assert(entered.cell(Segment::SS, entered.sp.wrapping_add(4), 2) == machine.cell(
        Segment::SS,
        machine.sp.wrapping_sub(2),
        2,
    ));
    assert((((number as u32) % 0x10000) * 4) % 0x10000 == number * 4);
}

/// A software interrupt and the return from it as two whole steps. Where
/// the interrupt is entered as in `lemma_interrupt_step` and the opcode of
/// the return lies where the vector leads, the second step succeeds and
/// brings back the code segment, the flags and the stack pointer of before
/// the interrupt, and the instruction pointer of the instruction after it.
pub proof fn lemma_interrupt_return_step(machine: Machine, number: u8, ports: Seq<u8>)
    requires
        machine.peeked() == Ok::<u8, Fault>(0xCD),
        (Machine { ip: machine.ip.wrapping_add(1), ..machine }).peeked() == Ok::<u8, Fault>(number),
        machine.capacity >= 2,
        interrupting(machine, number).interrupt_entered(number as u32) is Ok,
        interrupting(machine, number).interrupt_entered(number as u32).unwrap().peeked() == Ok::<
            u8,
            Fault,
        >(0xCF),
    ensures
        ({
            let entered = interrupting(machine, number).interrupt_entered(number as u32).unwrap();
            let back = entered.stepped(descriptor_map(), ports);
            &&& machine.stepped(descriptor_map(), ports) == Ok::<(Effect, u8), Fault>(
                (Effect { machine: entered, ports, output: None }, 0xCDu8),
            )
            &&& back matches Ok((effect, opcode)) && opcode == 0xCF && effect.ports == ports
                && effect.output is None && effect.machine.ip == machine.ip.wrapping_add(2)
                && effect.machine.cs == machine.cs && effect.machine.flags == machine.flags
                && effect.machine.sp == machine.sp
        }),
{
    let ready = interrupting(machine, number);
    lemma_interrupt_entry(machine, number, ports);
    let entered = ready.interrupt_entered(number as u32).unwrap();
    lemma_entered(ready, number as u32);
    lemma_enter_then_leave(ready, number as u32);
    lemma_step_of_one_byte(entered, 0xCF, ports);
    let again = loaded(entered, descriptor(0xCF).unwrap(), Seq::empty());
    lemma_interrupt_return_effect(again, ports);
    lemma_left_frame(entered, again);
    assert(ready.ip == machine.ip.wrapping_add(2));
}

/// The write-back of a port instruction is that of its category alone.
pub proof fn lemma_io_done(
    machine: Machine,
    inst: InstructionFormat,
    dst: Operand,
    src: Operand,
    res: u32,
    ports: Seq<u8>,
)
    requires
        inst.instrution_type is IO,
    ensures
        machine.category_done(inst, dst, src, res, ports) == machine.io_done(inst, dst, src, ports),
{
    reveal(Machine::category_done);
}

/// What the output of AL to the port in the instruction buffer does
/// (opcode 0xE6): the low byte of AX goes to the port, and the port is
/// reported.
pub proof fn lemma_output_effect(machine: Machine, port: u8, ports: Seq<u8>)
    requires
        machine.bus == seq![port],
    ensures
        machine.performed(descriptor(0xE6).unwrap(), ports) == (match Machine::ports_written(
            ports,
            port as u32,
            (machine.ax % 0x100) as u32,
            false,
        ) {
            Ok(after) => Ok(
                Effect {
                    machine: Machine { bus: Seq::empty(), ..machine },
                    ports: after,
                    output: Some((port as u16, false)),
                },
            ),
            Err(fault) => Err(fault),
        }),
{
    reveal(Machine::performed);
    reveal(Machine::resolved);
    let inst = descriptor(0xE6).unwrap();
    let rest = Machine { bus: Seq::empty(), ..machine };
    let dst = Operand::Data(port as u32);
    let src = Operand::SmallRegister(RegisterId::AX, false);
    assert(inst == (InstructionFormat {
        operand_type: OperandType::Data(0),
        instrution_type: InstructionType::IO,
        word: false,
        direction: true,
        write: true,
        execute: None,
    }));
    assert(machine.bus.skip(1) =~= Seq::<u8>::empty());
    assert(machine.taken(1) == Ok::<(u32, Machine), Fault>((port as u32, rest)));
    assert(machine.primary(inst) == Ok::<Resolved, Fault>(Resolved { machine: rest, dst, src }));
    assert(machine.resolved(inst) == Ok::<Resolved, Fault>(Resolved { machine: rest, dst, src }));
    lemma_moved(rest, inst, dst, src, ports);
    lemma_io_done(rest, inst, dst, src, (machine.ax % 0x100) as u32, ports);
    assert(rest.value(src) == Ok::<u32, Fault>((machine.ax % 0x100) as u32));
    assert(rest.value(dst) == Ok::<u32, Fault>(port as u32));
}

/// An output as a whole step. Where the opcode 0xE6 and a port number lie
/// at the instruction pointer and the port array holds the port, the step
/// writes the low byte of AX to the port, changes no other port, and
/// reports the port, so that the devices can be told before the next step.
pub proof fn lemma_output_step(machine: Machine, port: u8, ports: Seq<u8>)
    requires
        machine.peeked() == Ok::<u8, Fault>(0xE6),
        (Machine { ip: machine.ip.wrapping_add(1), ..machine }).peeked() == Ok::<u8, Fault>(port),
        machine.capacity >= 2,
        port < ports.len(),
    ensures
        machine.stepped(descriptor_map(), ports) == Ok::<(Effect, u8), Fault>(
            (
                Effect {
                    machine: Machine {
                        ip: machine.ip.wrapping_add(2),
                        bus: Seq::empty(),
                        segment: Segment::DS,
                        ..machine
                    },
                    ports: ports.update(port as int, (machine.ax % 0x100) as u8),
                    output: Some((port as u16, false)),
                },
                0xE6u8,
            ),
        ),
{
    let inst = descriptor(0xE6).unwrap();
    lemma_step_of_two_bytes(machine, 0xE6, port, ports);
    let ready = loaded(machine, inst, seq![port]);
    lemma_output_effect(ready, port, ports);
    assert(ready.ip == machine.ip.wrapping_add(2));
}

} // verus!
