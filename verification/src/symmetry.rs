//! What holds of pairs of instructions that undo each other: push and pop,
//! call and return, interrupt entry and interrupt return.

use crate::fault::Fault;
use crate::flags::{lemma_decode_encode, Flags};
use crate::instructions::descriptor;
use crate::descriptor::{InstructionFormat, InstructionType, OperandType};
use crate::machine::{
    general_register, lemma_with_reg, Effect, Machine, Operand, RegisterId, Resolved,
};
use crate::memory::{
    in_range, lemma_read_after_write, lemma_read_other, read_le, write_le, Segment,
};
use vstd::prelude::*;

verus! {

/// An instruction without an operation that writes back hands the value
/// of its source to the write-back and leaves the flags as they are.
pub proof fn lemma_moved(
    machine: Machine,
    inst: InstructionFormat,
    dst: Operand,
    src: Operand,
    ports: Seq<u8>,
)
    requires
        inst.execute is None,
        inst.write,
    ensures
        machine.executed(inst, dst, src, ports) == (match machine.value(src) {
            Err(fault) => Err(fault),
            Ok(value) => machine.category_done(inst, dst, src, value, ports),
        }),
{
    reveal(Machine::executed);
    assert((Machine { flags: machine.flags, ..machine }) == machine);
}

/// The write-back of a stack instruction: the result goes to the
/// destination, and then the stack pointer moves down by two for a push
/// and up by two for a pop.
pub proof fn lemma_stack_done(
    machine: Machine,
    inst: InstructionFormat,
    dst: Operand,
    src: Operand,
    res: u32,
    ports: Seq<u8>,
)
    requires
        inst.instrution_type is Stack,
    ensures
        machine.category_done(inst, dst, src, res, ports) == (match machine.written(dst, res) {
            Err(fault) => Err(fault),
            Ok(written) => Ok(
                Effect {
                    machine: Machine {
                        sp: if inst.direction {
                            written.sp.wrapping_sub(2)
                        } else {
                            written.sp.wrapping_add(2)
                        },
                        ..written
                    },
                    ports,
                    output: None,
                },
            ),
        }),
{
    reveal(Machine::category_done);
}

/// What a push of a word register does: the value of the register goes on
/// the stack.
pub proof fn lemma_push_effect(machine: Machine, code: u8, ports: Seq<u8>)
    requires
        code < 8,
    ensures
        machine.performed(descriptor((0x50 + code) as u8).unwrap(), ports) == (match machine.pushed(
            machine.reg(general_register(code).unwrap()) as u32,
        ) {
            Ok(after) => Ok(Effect { machine: after, ports, output: None }),
            Err(fault) => Err(fault),
        }),
{
    reveal(Machine::performed);
    reveal(Machine::resolved);
    let inst = descriptor((0x50 + code) as u8).unwrap();
    let id = general_register(code).unwrap();
    let cell = machine.cell(Segment::SS, machine.sp.wrapping_sub(2), 2);
    let dst = Operand::Memory(cell);
    let src = Operand::Register(id);
    let word = machine.reg(id) as u32;
    assert(inst == (InstructionFormat {
        operand_type: OperandType::Registers(code, None),
        instrution_type: InstructionType::Stack,
        word: true,
        direction: true,
        write: true,
        execute: None,
    }));
    assert(machine.primary(inst) == Ok::<Resolved, Fault>(
        Resolved { machine, dst: Operand::Absent, src },
    ));
    assert(machine.resolved(inst) == Ok::<Resolved, Fault>(Resolved { machine, dst, src }));
    lemma_moved(machine, inst, dst, src, ports);
    lemma_stack_done(machine, inst, dst, src, word, ports);
    assert(machine.value(src) == Ok::<u32, Fault>(word));
    assert(machine.written(dst, word) == machine.stored(cell, word));
}

/// What a pop into a word register does: the word at the stack pointer goes
/// into the register, and then the stack pointer moves up by two.
pub proof fn lemma_pop_effect(machine: Machine, code: u8, ports: Seq<u8>)
    requires
        code < 8,
    ensures
        machine.performed(descriptor((0x58 + code) as u8).unwrap(), ports) == (match machine.loaded(
            machine.cell(Segment::SS, machine.sp, 2),
        ) {
            Ok(word) => {
                let written = machine.with_reg(
                    general_register(code).unwrap(),
                    (word % 0x10000) as u16,
                );
                Ok(
                    Effect {
                        machine: Machine { sp: written.sp.wrapping_add(2), ..written },
                        ports,
                        output: None,
                    },
                )
            },
            Err(fault) => Err(fault),
        }),
{
    reveal(Machine::performed);
    reveal(Machine::resolved);
    let inst = descriptor((0x58 + code) as u8).unwrap();
    let id = general_register(code).unwrap();
    let cell = machine.cell(Segment::SS, machine.sp, 2);
    let dst = Operand::Register(id);
    let src = Operand::Memory(cell);
    assert(inst == (InstructionFormat {
        operand_type: OperandType::Registers(code, None),
        instrution_type: InstructionType::Stack,
        word: true,
        direction: false,
        write: true,
        execute: None,
    }));
    assert(machine.primary(inst) == Ok::<Resolved, Fault>(
        Resolved { machine, dst, src: Operand::Absent },
    ));
    assert(machine.resolved(inst) == Ok::<Resolved, Fault>(Resolved { machine, dst, src }));
    lemma_moved(machine, inst, dst, src, ports);
    assert(machine.value(src) == machine.loaded(cell));
    match machine.loaded(cell) {
        Ok(word) => {
            lemma_stack_done(machine, inst, dst, src, word, ports);
            assert(machine.written(dst, word) == Ok::<Machine, Fault>(
                machine.with_reg(id, (word % 0x10000) as u16),
            ));
        },
        Err(_) => {},
    }
}

/// A push moves the stack pointer down by exactly two, whatever register is
/// pushed, and changes no other register.
pub proof fn lemma_push_moves_stack_pointer(machine: Machine, code: u8, ports: Seq<u8>)
    requires
        code < 8,
        machine.performed(descriptor((0x50 + code) as u8).unwrap(), ports) is Ok,
    ensures
        ({
            let after = machine.performed(descriptor((0x50 + code) as u8).unwrap(), ports).unwrap();
            &&& after.machine.sp == machine.sp.wrapping_sub(2)
            &&& after.machine == (Machine {
                sp: after.machine.sp,
                mem: after.machine.mem,
                ..machine
            })
            &&& after.ports == ports
        }),
{
    lemma_push_effect(machine, code, ports);
}

/// A pop into a register other than the stack pointer moves the stack
/// pointer up by exactly two.
pub proof fn lemma_pop_moves_stack_pointer(machine: Machine, code: u8, ports: Seq<u8>)
    requires
        code < 8,
        code != crate::registers::SP,
        machine.performed(descriptor((0x58 + code) as u8).unwrap(), ports) is Ok,
    ensures
        machine.performed(descriptor((0x58 + code) as u8).unwrap(), ports).unwrap().machine.sp
            == machine.sp.wrapping_add(2),
{
    lemma_pop_effect(machine, code, ports);
}

/// The word that was pushed lies at the stack pointer, and the stack
/// pointer two higher is where it was.
pub proof fn lemma_pushed_word(machine: Machine, word: u32)
    requires
        machine.pushed(word) is Ok,
    ensures
        ({
            let after = machine.pushed(word).unwrap();
            &&& after.loaded(after.cell(Segment::SS, after.sp, 2)) == Ok::<u32, Fault>(
                word % 0x10000,
            )
            &&& after.sp.wrapping_add(2) == machine.sp
            &&& after == (Machine { sp: after.sp, mem: after.mem, ..machine })
        }),
{
    let cell = machine.cell(Segment::SS, machine.sp.wrapping_sub(2), 2);
    lemma_read_after_write(machine.mem, cell.ptr as int, 2, word);
}

/// Push and then pop of the same register, other than the stack pointer,
/// leave the stack pointer and the register as they were: where the push
/// succeeds, the pop succeeds too.
pub proof fn lemma_push_then_pop(machine: Machine, code: u8, ports: Seq<u8>)
    requires
        code < 8,
        code != crate::registers::SP,
        machine.performed(descriptor((0x50 + code) as u8).unwrap(), ports) is Ok,
    ensures
        ({
            let pushed = machine.performed(
                descriptor((0x50 + code) as u8).unwrap(),
                ports,
            ).unwrap().machine;
            let popped = pushed.performed(descriptor((0x58 + code) as u8).unwrap(), ports);
            let id = general_register(code).unwrap();
            &&& popped is Ok
            &&& popped.unwrap().machine.sp == machine.sp
            &&& popped.unwrap().machine.reg(id) == machine.reg(id)
        }),
{
    let id = general_register(code).unwrap();
    let word = machine.reg(id) as u32;
    let pushed = machine.pushed(word).unwrap();
    lemma_push_effect(machine, code, ports);
    lemma_pushed_word(machine, word);
    lemma_pop_effect(pushed, code, ports);
    assert(id != RegisterId::SP);
    let written = pushed.with_reg(id, (word % 0x10000) as u16);
    lemma_with_reg(pushed, id, (word % 0x10000) as u16, RegisterId::SP);
    assert(written.sp == pushed.sp);
    assert(written.reg(id) == machine.reg(id));
    let popped = Machine { sp: written.sp.wrapping_add(2), ..written };
    assert(popped.reg(id) == written.reg(id));
    assert(pushed.performed(descriptor((0x58 + code) as u8).unwrap(), ports) == Ok::<
        Effect,
        Fault,
    >(Effect { machine: popped, ports, output: None }));
}

/// What a near call with the displacement in the instruction buffer does:
/// the instruction pointer goes on the stack and then moves by the
/// displacement.
pub proof fn lemma_call_effect(machine: Machine, low: u8, high: u8, ports: Seq<u8>)
    requires
        machine.bus == seq![low, high],
    ensures
        machine.performed(descriptor(0xE8).unwrap(), ports) == (match (Machine {
            bus: Seq::empty(),
            ..machine
        }).pushed(machine.ip as u32) {
            Ok(after) => Ok(
                Effect {
                    machine: Machine {
                        ip: ((machine.ip + low + high * 0x100) % 0x10000) as u16,
                        ..after
                    },
                    ports,
                    output: None,
                },
            ),
            Err(fault) => Err(fault),
        }),
{
    reveal(Machine::resolved);
    reveal(Machine::executed);
    reveal(Machine::category_done);
    reveal(Machine::performed);
    let inst = descriptor(0xE8).unwrap();
    let rest = Machine { bus: Seq::empty(), ..machine };
    let displacement = (low + high * 0x100) as u32;
    assert(machine.bus.skip(2) =~= Seq::empty());
    assert(machine.taken(2) == Ok::<(u32, Machine), Fault>((displacement, rest)));
    assert(machine.primary(inst) == Ok::<Resolved, Fault>(
        Resolved {
            machine: rest,
            dst: Operand::Register(RegisterId::AX),
            src: Operand::Data(displacement),
        },
    ));
    assert(machine.resolved(inst) == Ok::<Resolved, Fault>(
        Resolved {
            machine: rest,
            dst: Operand::Register(RegisterId::IP),
            src: Operand::Data(displacement),
        },
    ));
}

/// What a near return does: the word at the stack pointer goes into the
/// instruction pointer and the stack pointer moves up by two.
pub proof fn lemma_return_effect(machine: Machine, ports: Seq<u8>)
    ensures
        machine.performed(descriptor(0xC3).unwrap(), ports) == (match machine.loaded(
            machine.cell(Segment::SS, machine.sp, 2),
        ) {
            Ok(word) => Ok(
                Effect {
                    machine: Machine {
                        ip: (word % 0x10000) as u16,
                        sp: machine.sp.wrapping_add(2),
                        ..machine
                    },
                    ports,
                    output: None,
                },
            ),
            Err(fault) => Err(fault),
        }),
{
    reveal(Machine::resolved);
    reveal(Machine::executed);
    reveal(Machine::category_done);
    reveal(Machine::performed);
    let inst = descriptor(0xC3).unwrap();
    let cell = machine.cell(Segment::SS, machine.sp, 2);
    assert(machine.primary(inst) == Ok::<Resolved, Fault>(
        Resolved { machine, dst: Operand::Absent, src: Operand::Absent },
    ));
    assert(machine.sp.wrapping_add(0) == machine.sp);
    assert(machine.resolved(inst) == Ok::<Resolved, Fault>(
        Resolved {
            machine,
            dst: Operand::Register(RegisterId::IP),
            src: Operand::Memory(cell),
        },
    ));
}

/// A near call and then a near return lead back to the instruction after
/// the call, with the stack pointer where it was before the call: where
/// the call succeeds, the return succeeds too.
pub proof fn lemma_call_then_return(machine: Machine, low: u8, high: u8, ports: Seq<u8>)
    requires
        machine.bus == seq![low, high],
        machine.performed(descriptor(0xE8).unwrap(), ports) is Ok,
    ensures
        ({
            let called = machine.performed(descriptor(0xE8).unwrap(), ports).unwrap().machine;
            let returned = called.performed(descriptor(0xC3).unwrap(), ports);
            &&& called.sp == machine.sp.wrapping_sub(2)
            &&& returned is Ok
            &&& returned.unwrap().machine.ip == machine.ip
            &&& returned.unwrap().machine.sp == machine.sp
        }),
{
    let rest = Machine { bus: Seq::empty(), ..machine };
    lemma_call_effect(machine, low, high, ports);
    lemma_pushed_word(rest, machine.ip as u32);
    let called = machine.performed(descriptor(0xE8).unwrap(), ports).unwrap().machine;
    lemma_return_effect(called, ports);
}

/// What entry into an interrupt with the number in the instruction buffer
/// does.
pub proof fn lemma_interrupt_effect(machine: Machine, number: u8, ports: Seq<u8>)
    requires
        machine.bus == seq![number],
    ensures
        machine.performed(descriptor(0xCD).unwrap(), ports) == (match (Machine {
            bus: Seq::empty(),
            ..machine
        }).interrupt_entered(number as u32) {
            Ok(after) => Ok(Effect { machine: after, ports, output: None }),
            Err(fault) => Err(fault),
        }),
{
    reveal(Machine::resolved);
    reveal(Machine::executed);
    reveal(Machine::category_done);
    reveal(Machine::performed);
    let inst = descriptor(0xCD).unwrap();
    let rest = Machine { bus: Seq::empty(), ..machine };
    assert(machine.bus.skip(1) =~= Seq::empty());
    assert(machine.taken(1) == Ok::<(u32, Machine), Fault>((number as u32, rest)));
    assert(machine.primary(inst) == Ok::<Resolved, Fault>(
        Resolved {
            machine: rest,
            dst: Operand::SmallRegister(RegisterId::AX, false),
            src: Operand::Data(number as u32),
        },
    ));
    assert(machine.resolved(inst) == machine.primary(inst));
}

/// What the return from an interrupt does.
pub proof fn lemma_interrupt_return_effect(machine: Machine, ports: Seq<u8>)
    ensures
        machine.performed(descriptor(0xCF).unwrap(), ports) == (match machine.interrupt_left() {
            Ok(after) => Ok(Effect { machine: after, ports, output: None }),
            Err(fault) => Err(fault),
        }),
{
    reveal(Machine::resolved);
    reveal(Machine::executed);
    reveal(Machine::category_done);
    reveal(Machine::performed);
    let inst = descriptor(0xCF).unwrap();
    assert(machine.primary(inst) == Ok::<Resolved, Fault>(
        Resolved { machine, dst: Operand::Absent, src: Operand::Absent },
    ));
    assert(machine.resolved(inst) == machine.primary(inst));
}

/// The two frames that the entry into an interrupt writes below the stack
/// pointer `sp` do not overlap, wherever the stack pointer wraps around.
pub proof fn lemma_frames_apart(sp: u16)
    ensures
        ({
            let flags_at = sp.wrapping_sub(2);
            let link_at = flags_at.wrapping_sub(4);
            &&& flags_at + 2 <= link_at || link_at + 4 <= flags_at
            &&& link_at.wrapping_add(4) == flags_at
            &&& link_at.wrapping_add(6) == sp
            &&& link_at == sp.wrapping_sub(6)
        }),
{
}

/// A word and then a double word written to two cells that do not overlap
/// are both read back.
pub proof fn lemma_two_frames(mem: Seq<u8>, first: int, word: u16, second: int, link: u32)
    requires
        in_range(mem, first, 2),
        in_range(mem, second, 4),
        first + 2 <= second || second + 4 <= first,
    ensures
        ({
            let after = write_le(write_le(mem, first, 2, word as int), second, 4, link as int);
            &&& after.len() == mem.len()
            &&& read_le(after, second, 4) == link
            &&& read_le(after, first, 2) == word
        }),
{
    let middle = write_le(mem, first, 2, word as int);
    lemma_read_after_write(mem, first, 2, word as u32);
    lemma_read_after_write(middle, second, 4, link);
    lemma_read_other(middle, second, 4, link as int, first, 2);
}

/// The state after the entry into an interrupt: the flags and the return
/// address lie in two frames below the old stack pointer.
pub proof fn lemma_entered(machine: Machine, number: u32)
    requires
        machine.interrupt_entered(number) is Ok,
    ensures
        ({
            let entered = machine.interrupt_entered(number).unwrap();
            let flags_cell = machine.cell(Segment::SS, machine.sp.wrapping_sub(2), 2);
            let link_cell = machine.cell(Segment::SS, machine.sp.wrapping_sub(6), 4);
            &&& in_range(machine.mem, flags_cell.ptr as int, 2)
            &&& in_range(machine.mem, link_cell.ptr as int, 4)
            &&& entered == (Machine {
                cs: entered.cs,
                ip: entered.ip,
                flags: Flags { interrupt: false, trap: false, ..machine.flags },
                sp: machine.sp.wrapping_sub(6),
                mem: write_le(
                    write_le(
                        machine.mem,
                        flags_cell.ptr as int,
                        2,
                        machine.flags.encoding() as int,
                    ),
                    link_cell.ptr as int,
                    4,
                    machine.cs * 0x10000 + machine.ip,
                ),
                ..machine
            })
        }),
{
    reveal(Machine::interrupt_entered);
    lemma_frames_apart(machine.sp);
    let word = machine.flags.encoding() as u32;
    let first = machine.pushed(word).unwrap();
    let link_cell = machine.cell(Segment::SS, machine.sp.wrapping_sub(6), 4);
    assert(first.cell(Segment::SS, first.sp.wrapping_sub(4), 4) == link_cell);
}

/// The entry into an interrupt takes the code segment from the first word
/// and the instruction pointer from the second word of the entry of the
/// vector table at four times the number, as memory holds it after the
/// stack was written.
pub proof fn lemma_entered_vector(machine: Machine, number: u32)
    requires
        machine.interrupt_entered(number) is Ok,
    ensures
        ({
            let entered = machine.interrupt_entered(number).unwrap();
            let entry = machine.cell(
                Segment::IVT,
                (((number % 0x10000) * 4) % 0x10000) as u16,
                4,
            );
            let vector = read_le(entered.mem, entry.ptr as int, 4);
            &&& in_range(entered.mem, entry.ptr as int, 4)
            &&& entered.cs == vector % 0x10000
            &&& entered.ip == vector / 0x10000
        }),
{
    reveal(Machine::interrupt_entered);
}

/// Whether the return from an interrupt succeeds, and what it brings back,
/// depends on nothing but the stack.
pub proof fn lemma_left_frame(machine: Machine, other: Machine)
    requires
        machine.sp == other.sp,
        machine.ss == other.ss,
        machine.mem == other.mem,
        machine.policy == other.policy,
    ensures
        machine.interrupt_left() is Ok == other.interrupt_left() is Ok,
        machine.interrupt_left() matches Ok(left) ==> ({
            let back = other.interrupt_left().unwrap();
            &&& left.ip == back.ip
            &&& left.cs == back.cs
            &&& left.flags == back.flags
            &&& left.sp == back.sp
        }),
{
}

/// After the entry into an interrupt the return address and the flags are
/// read back from the stack.
pub proof fn lemma_entered_frames(machine: Machine, number: u32)
    requires
        machine.interrupt_entered(number) is Ok,
    ensures
        ({
            let entered = machine.interrupt_entered(number).unwrap();
            &&& entered.sp == machine.sp.wrapping_sub(6)
            &&& entered.ss == machine.ss
            &&& entered.policy == machine.policy
            &&& !entered.flags.interrupt
            &&& !entered.flags.trap
            &&& entered.loaded(entered.cell(Segment::SS, entered.sp, 4)) == Ok::<u32, Fault>(
                (machine.cs * 0x10000 + machine.ip) as u32,
            )
            &&& entered.loaded(entered.cell(Segment::SS, entered.sp.wrapping_add(4), 2)) == Ok::<
                u32,
                Fault,
            >(machine.flags.encoding() as u32)
        }),
{
    let word = machine.flags.encoding();
    let link = (machine.cs * 0x10000 + machine.ip) as u32;
    let flags_cell = machine.cell(Segment::SS, machine.sp.wrapping_sub(2), 2);
    let link_cell = machine.cell(Segment::SS, machine.sp.wrapping_sub(6), 4);
    lemma_entered(machine, number);
    lemma_frames_apart(machine.sp);
    lemma_two_frames(machine.mem, flags_cell.ptr as int, word, link_cell.ptr as int, link);
    let entered = machine.interrupt_entered(number).unwrap();
    assert(entered.cell(Segment::SS, entered.sp, 4) == link_cell);
    assert(entered.cell(Segment::SS, entered.sp.wrapping_add(4), 2) == flags_cell);
}

/// Entry into an interrupt clears the interrupt-enable and trap flags, and
/// the return from it brings back the instruction pointer, the code
/// segment, the flags and the stack pointer.
pub proof fn lemma_enter_then_leave(machine: Machine, number: u32)
    requires
        machine.interrupt_entered(number) is Ok,
    ensures
        ({
            let entered = machine.interrupt_entered(number).unwrap();
            let left = entered.interrupt_left();
            &&& !entered.flags.interrupt
            &&& !entered.flags.trap
            &&& entered.sp == machine.sp.wrapping_sub(6)
            &&& left is Ok
            &&& left.unwrap().ip == machine.ip
            &&& left.unwrap().cs == machine.cs
            &&& left.unwrap().flags == machine.flags
            &&& left.unwrap().sp == machine.sp
        }),
{
    lemma_entered_frames(machine, number);
    lemma_frames_apart(machine.sp);
    lemma_decode_encode(machine.flags);
}

/// A software interrupt and then the return from it: the interrupt-enable
/// and trap flags are clear after the entry, and the return brings back the
/// instruction pointer, the code segment, the flags and the stack pointer
/// of before the interrupt. Where the entry succeeds, the return succeeds
/// too.
pub proof fn lemma_interrupt_then_return(machine: Machine, number: u8, ports: Seq<u8>)
    requires
        machine.bus == seq![number],
        machine.performed(descriptor(0xCD).unwrap(), ports) is Ok,
    ensures
        ({
            let entered = machine.performed(descriptor(0xCD).unwrap(), ports).unwrap().machine;
            let left = entered.performed(descriptor(0xCF).unwrap(), ports);
            &&& !entered.flags.interrupt
            &&& !entered.flags.trap
            &&& left is Ok
            &&& left.unwrap().machine.ip == machine.ip
            &&& left.unwrap().machine.cs == machine.cs
            &&& left.unwrap().machine.flags == machine.flags
            &&& left.unwrap().machine.sp == machine.sp
        }),
{
    let rest = Machine { bus: Seq::empty(), ..machine };
    lemma_interrupt_effect(machine, number, ports);
    lemma_enter_then_leave(rest, number as u32);
    lemma_interrupt_return_effect(rest.interrupt_entered(number as u32).unwrap(), ports);
}

} // verus!
