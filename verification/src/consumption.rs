//! What connects the decoder with the resolution of operands: the bytes
//! that the one loads are the bytes that the other takes.

use crate::cpu::{descriptor_map, lemma_opened};
use crate::decode::{looked_up, sub_code, Opened, Table};
use crate::descriptor::{InstructionFormat, InstructionType, OperandType};
use crate::fault::Fault;
use crate::instructions::{descriptor, resolution};
use crate::machine::{
    displacement_length, lemma_fetched, tail_length, width, Effect, Machine, Operand, Resolved,
};
use crate::memory::Segment;
use vstd::prelude::*;

verus! {

/// The number of bytes that the addressing mode of a descriptor takes from
/// the instruction buffer, where `modrm` is the first of them.
pub open spec fn operand_bytes(inst: InstructionFormat, modrm: u8) -> int {
    match inst.operand_type {
        OperandType::Address(_) => 2,
        OperandType::Data(_) => width(inst.word) as int,
        OperandType::ModRM(_, immediate) => 1 + displacement_length(modrm / 64, modrm % 8) + if immediate {
            width(inst.word) as int
        } else {
            0
        },
        OperandType::Registers(_, _) => 0,
        OperandType::Absent => 0,
    }
}

/// The first byte in the instruction buffer, or zero for an empty buffer.
pub open spec fn head(bus: Seq<u8>) -> u8 {
    if bus.len() > 0 {
        bus[0]
    } else {
        0
    }
}

/// An immediate takes as many bytes as it is long, and no more.
pub proof fn lemma_taken(machine: Machine, len: u8)
    ensures
        match machine.taken(len) {
            Ok((_, rest)) => rest.bus.len() == machine.bus.len() - len && rest == (Machine {
                bus: rest.bus,
                ..machine
            }),
            Err(fault) => fault == Fault::IncompleteInstruction && machine.bus.len() < len,
        },
{
}

/// A memory operand takes its displacement from the instruction buffer,
/// and a register operand takes nothing.
pub proof fn lemma_addressed(machine: Machine, modf: u8, rm: u8, word: bool)
    requires
        modf < 4,
        rm < 8,
    ensures
        match machine.addressed(modf, rm, word) {
            Ok((_, rest)) => rest.bus.len() == machine.bus.len() - displacement_length(modf, rm)
                && rest == (Machine { bus: rest.bus, ..machine }),
            Err(fault) => fault == Fault::IncompleteInstruction && machine.bus.len()
                < displacement_length(modf, rm),
        },
{
    if modf < 3 && displacement_length(modf, rm) != 0 {
        lemma_taken(machine, displacement_length(modf, rm) as u8);
    }
}

/// The resolution of the operands of the addressing mode takes the bytes
/// of the addressing mode. It fails for want of bytes only where fewer
/// wait, and never for want of room in the instruction buffer.
pub proof fn lemma_primary(machine: Machine, inst: InstructionFormat)
    ensures
        match machine.primary(inst) {
            Ok(operands) => operands.machine.bus.len() == machine.bus.len() - operand_bytes(
                inst,
                head(machine.bus),
            ),
            Err(fault) => fault != Fault::InstructionTooLong && (fault
                == Fault::IncompleteInstruction ==> machine.bus.len() < operand_bytes(
                inst,
                head(machine.bus),
            )),
        },
{
    match inst.operand_type {
        OperandType::Data(_) => {
            lemma_taken(machine, width(inst.word));
        },
        OperandType::Address(_) => {
            lemma_addressed(machine, 0, 6, inst.word);
        },
        OperandType::ModRM(regfd, immediate) => {
            if machine.bus.len() > 0 {
                let modrm = machine.bus[0];
                let rest = Machine { bus: machine.bus.skip(1), ..machine };
                lemma_addressed(rest, modrm / 64, modrm % 8, inst.word);
                match rest.addressed(modrm / 64, modrm % 8, inst.word) {
                    Ok((_, after)) => {
                        lemma_taken(after, width(inst.word));
                        lemma_taken(
                            Machine { reference: ((modrm / 8) % 8) as u16, ..after },
                            width(inst.word),
                        );
                    },
                    Err(_) => {},
                }
            }
        },
        _ => {},
    }
}

/// The resolution of operands takes exactly the bytes that follow the
/// opcode: where the instruction buffer holds them, it is empty afterwards,
/// and the resolution does not fail for want of bytes.
pub proof fn lemma_resolution_takes_all(machine: Machine, inst: InstructionFormat)
    requires
        machine.bus.len() == tail_length(inst, head(machine.bus)),
    ensures
        match machine.resolved(inst) {
            Ok(operands) => operands.machine.bus.len() == 0,
            Err(fault) => fault != Fault::IncompleteInstruction,
        },
{
    reveal(Machine::resolved);
    reveal(Machine::executed);
    reveal(Machine::category_done);
    lemma_primary(machine, inst);
    match machine.primary(inst) {
        Ok(operands) => {
            lemma_taken(operands.machine, 2);
        },
        Err(_) => {},
    }
}

/// Reading and writing an operand fail only for an address outside the
/// memory image.
pub proof fn lemma_operand_faults(machine: Machine, operand: Operand, val: u32)
    ensures
        machine.value(operand) matches Err(fault) ==> fault is AddressOutOfRange,
        machine.written(operand, val) matches Err(fault) ==> fault is AddressOutOfRange,
{
}

/// The operation of an instruction fails only for an address outside the
/// memory image and for a division.
pub proof fn lemma_computed_faults(
    machine: Machine,
    inst: InstructionFormat,
    dst: Operand,
    src: Operand,
)
    ensures
        machine.computed(inst, dst, src) matches Err(fault) ==> !fault.is_decode_error(),
{
    lemma_operand_faults(machine, dst, 0);
    lemma_operand_faults(machine, src, 0);
}

/// The write-back of calls, returns and interrupts fails only for an
/// address outside the memory image.
pub proof fn lemma_transfer_faults(
    machine: Machine,
    inst: InstructionFormat,
    dst: Operand,
    res: u32,
    number: u32,
)
    ensures
        machine.pushed(res) matches Err(fault) ==> fault is AddressOutOfRange,
        machine.procedure_done(inst, dst, res) matches Err(fault) ==> fault is AddressOutOfRange,
        machine.interrupt_entered(number) matches Err(fault) ==> fault is AddressOutOfRange,
        machine.interrupt_left() matches Err(fault) ==> fault is AddressOutOfRange,
{
    reveal(Machine::interrupt_entered);
    lemma_operand_faults(machine, dst, res);
    match machine.value(dst) {
        Ok(link) => {
            match machine.pushed(link) {
                Ok(after) => {
                    lemma_operand_faults(after, dst, res);
                },
                Err(_) => {},
            }
        },
        Err(_) => {},
    }
    lemma_operand_faults(Machine { sp: machine.sp.wrapping_add(2), ..machine }, dst, res);
}

/// The write-back of a port instruction fails only for an address outside
/// the memory image or a port outside the port array.
pub proof fn lemma_io_faults(
    machine: Machine,
    inst: InstructionFormat,
    dst: Operand,
    src: Operand,
    ports: Seq<u8>,
)
    ensures
        machine.io_done(inst, dst, src, ports) matches Err(fault) ==> !fault.is_decode_error(),
{
    lemma_operand_faults(machine, dst, 0);
    lemma_operand_faults(machine, src, 0);
    match (machine.value(dst), machine.value(src)) {
        (Ok(d), Ok(s)) => {
            match Machine::ports_read(ports, s, inst.word) {
                Ok(value) => {
                    lemma_operand_faults(machine, dst, value);
                },
                Err(_) => {},
            }
        },
        _ => {},
    }
}

/// The write-back of an instruction never fails for a reason of decoding.
pub proof fn lemma_write_back_faults(
    machine: Machine,
    inst: InstructionFormat,
    dst: Operand,
    src: Operand,
    res: u32,
    ports: Seq<u8>,
)
    ensures
        machine.category_done(inst, dst, src, res, ports) matches Err(fault)
            ==> !fault.is_decode_error(),
{
    reveal(Machine::resolved);
    reveal(Machine::executed);
    reveal(Machine::category_done);
    lemma_io_faults(machine, inst, dst, src, ports);
    lemma_operand_faults(machine, dst, res);
    lemma_operand_faults(machine, src, res);
    lemma_operand_faults(Machine { cs: (res / 0x10000) as u16, ..machine }, dst, res);
    match machine.value(src) {
        Ok(number) => {
            lemma_transfer_faults(machine, inst, dst, res, number);
        },
        Err(_) => {
            lemma_transfer_faults(machine, inst, dst, res, 0);
        },
    }
}

/// The faults of execution are those of memory, of the ports and of
/// division: execution never fails for a reason of decoding.
pub proof fn lemma_execution_faults(
    machine: Machine,
    inst: InstructionFormat,
    dst: Operand,
    src: Operand,
    ports: Seq<u8>,
)
    ensures
        machine.executed(inst, dst, src, ports) matches Err(fault) ==> !fault.is_decode_error(),
{
    reveal(Machine::resolved);
    reveal(Machine::executed);
    reveal(Machine::category_done);
    lemma_computed_faults(machine, inst, dst, src);
    match machine.computed(inst, dst, src) {
        Ok((res, flags)) => {
            lemma_write_back_faults(Machine { flags, ..machine }, inst, dst, src, res, ports);
        },
        Err(_) => {},
    }
}

/// A loaded instruction has, behind its opcode, exactly the bytes that
/// follow the opcode.
pub proof fn lemma_loaded_tail(machine: Machine, table: Table)
    ensures
        machine.instruction(table) matches Ok(opened) ==> opened.machine.bus.len() == 1
            + tail_length(opened.inst, head(opened.machine.bus.skip(1))),
{
    lemma_opened(machine, table);
    match machine.opened(table) {
        Ok(opened) => {
            let modrm: u8 = if opened.inst.operand_type is ModRM {
                match opened.machine.peeked() {
                    Ok(byte) => byte,
                    Err(_) => 0u8,
                }
            } else {
                0u8
            };
            lemma_fetched(opened.machine, tail_length(opened.inst, modrm) as nat);
            match opened.machine.fetched(tail_length(opened.inst, modrm) as nat) {
                Ok(last) => {
                    if opened.inst.operand_type is ModRM {
                        assert(last.bus.skip(1)[0] == last.bus[1]);
                    }
                },
                Err(_) => {},
            }
        },
        Err(_) => {},
    }
}

/// A step never fails for want of instruction bytes: the decoder loads
/// what the resolution of operands takes.
pub proof fn lemma_step_has_its_bytes(machine: Machine, table: Table, ports: Seq<u8>)
    ensures
        machine.stepped(table, ports) != Err::<(Effect, u8), Fault>(Fault::IncompleteInstruction),
{
    reveal(Machine::performed);
    lemma_loaded_tail(machine, table);
    lemma_opened(machine, table);
    lemma_fetched(Machine { bus: Seq::empty(), ..machine }, 1);
    match machine.instruction(table) {
        Ok(opened) => {
            let rest = Machine { bus: opened.machine.bus.skip(1), ..opened.machine };
            lemma_resolution_takes_all(rest, opened.inst);
            match rest.resolved(opened.inst) {
                Ok(operands) => {
                    lemma_execution_faults(
                        operands.machine,
                        opened.inst,
                        operands.dst,
                        operands.src,
                        ports,
                    );
                },
                Err(_) => {},
            }
        },
        Err(fault) => {
            lemma_load_faults(machine, table);
        },
    }
}

/// Loading an instruction never fails for want of instruction bytes.
pub proof fn lemma_load_faults(machine: Machine, table: Table)
    ensures
        machine.instruction(table) != Err::<Opened, Fault>(Fault::IncompleteInstruction),
{
    let start = Machine { bus: Seq::empty(), ..machine };
    lemma_fetch_faults(start, 1);
    match start.fetched(1) {
        Ok(first) => {
            match looked_up(table, first.bus[0]) {
                Ok(found) => {
                    match found.operand_type {
                        OperandType::Registers(code, _) => {
                            match Segment::coded(code) {
                                Some(segment) => {
                                    lemma_fetch_faults(
                                        Machine { bus: Seq::empty(), segment, ..first },
                                        1,
                                    );
                                },
                                None => {},
                            }
                        },
                        _ => {},
                    }
                },
                Err(_) => {},
            }
        },
        Err(_) => {},
    }
    match machine.opened(table) {
        Ok(opened) => {
            let modrm: u8 = if opened.inst.operand_type is ModRM {
                match opened.machine.peeked() {
                    Ok(byte) => byte,
                    Err(_) => 0u8,
                }
            } else {
                0u8
            };
            lemma_fetch_faults(opened.machine, tail_length(opened.inst, modrm) as nat);
        },
        Err(_) => {},
    }
}

/// Fetching fails only for an address outside the memory image or for
/// want of room in the instruction buffer.
pub proof fn lemma_fetch_faults(machine: Machine, count: nat)
    ensures
        machine.fetched(count) matches Err(fault) ==> fault is AddressOutOfRange
            || fault == Fault::InstructionTooLong,
    decreases count,
{
    if count > 0 && machine.address(Segment::CS, machine.ip) < machine.mem.len()
        && machine.bus.len() < machine.capacity {
        lemma_fetch_faults(
            Machine {
                bus: machine.bus.push(machine.mem[machine.address(Segment::CS, machine.ip) as int]),
                ip: machine.ip.wrapping_add(1),
                ..machine
            },
            (count - 1) as nat,
        );
    }
}

/// The resolution of operands never fails for want of room in the
/// instruction buffer.
pub proof fn lemma_resolution_faults(machine: Machine, inst: InstructionFormat)
    ensures
        machine.resolved(inst) != Err::<Resolved, Fault>(Fault::InstructionTooLong),
{
    reveal(Machine::resolved);
    reveal(Machine::executed);
    reveal(Machine::category_done);
    lemma_primary(machine, inst);
    match machine.primary(inst) {
        Ok(operands) => {
            lemma_taken(operands.machine, 2);
            lemma_operand_faults(operands.machine, operands.src, 0);
            match operands.machine.taken(2) {
                Ok((_, rest)) => {
                    lemma_operand_faults(rest, operands.src, 0);
                },
                Err(_) => {},
            }
        },
        Err(_) => {},
    }
}

/// Whether the concrete descriptor of the opcode `op`, followed by the
/// byte `modrm`, has at most five bytes behind the opcode.
pub open spec fn short_tail(op: u8, modrm: u8) -> bool {
    match descriptor(op) {
        Some(found) => match found.instrution_type {
            InstructionType::Group(number) => match resolution(number, sub_code(modrm), found) {
                Ok(inst) => tail_length(inst, modrm) <= 5,
                Err(_) => true,
            },
            _ => tail_length(found, modrm) <= 5,
        },
        None => true,
    }
}

/// The concrete descriptor of every opcode of the descriptor table has at
/// most five bytes behind the opcode.
pub proof fn lemma_table_tails(op: u8, modrm: u8)
    ensures
        short_tail(op, modrm),
{
}

/// The concrete descriptor of an opened instruction of the descriptor table
/// has at most five bytes behind the opcode.
pub proof fn lemma_opened_tail(machine: Machine)
    ensures
        machine.opened(descriptor_map()) matches Ok(opened) ==> tail_length(
            opened.inst,
            match opened.machine.peeked() {
                Ok(modrm) => modrm,
                Err(_) => 0u8,
            },
        ) <= 5,
{
    let table = descriptor_map();
    let start = Machine { bus: Seq::empty(), ..machine };
    match start.fetched(1) {
        Ok(first) => {
            match looked_up(table, first.bus[0]) {
                Ok(found) => {
                    match found.instrution_type {
                        InstructionType::Prefix => {},
                        InstructionType::SegmentOverride => {
                            match found.operand_type {
                                OperandType::Registers(code, _) => {
                                    match Segment::coded(code) {
                                        Some(segment) => {
                                            let again = Machine {
                                                bus: Seq::empty(),
                                                segment,
                                                ..first
                                            };
                                            match again.fetched(1) {
                                                Ok(second) => {
                                                    lemma_table_tails(second.bus[0], 0);
                                                    match second.peeked() {
                                                        Ok(modrm) => {
                                                            lemma_table_tails(second.bus[0], modrm);
                                                        },
                                                        Err(_) => {},
                                                    }
                                                },
                                                Err(_) => {},
                                            }
                                        },
                                        None => {},
                                    }
                                },
                                _ => {},
                            }
                        },
                        _ => {
                            lemma_table_tails(first.bus[0], 0);
                            match first.peeked() {
                                Ok(modrm) => {
                                    lemma_table_tails(first.bus[0], modrm);
                                },
                                Err(_) => {},
                            }
                        },
                    }
                },
                Err(_) => {},
            }
        },
        Err(_) => {},
    }
}

/// Loading an instruction of the descriptor table never fails for want of
/// room in an instruction buffer of six bytes or more.
pub proof fn lemma_load_fits(machine: Machine)
    requires
        machine.capacity >= 6,
    ensures
        machine.instruction(descriptor_map()) != Err::<Opened, Fault>(Fault::InstructionTooLong),
{
    let table = descriptor_map();
    let start = Machine { bus: Seq::empty(), ..machine };
    lemma_fetched(start, 1);
    lemma_opened(machine, table);
    lemma_opened_tail(machine);
    match start.fetched(1) {
        Ok(first) => {
            match looked_up(table, first.bus[0]) {
                Ok(found) => {
                    match found.operand_type {
                        OperandType::Registers(code, _) => {
                            match Segment::coded(code) {
                                Some(segment) => {
                                    lemma_fetched(
                                        Machine { bus: Seq::empty(), segment, ..first },
                                        1,
                                    );
                                },
                                None => {},
                            }
                        },
                        _ => {},
                    }
                },
                Err(_) => {},
            }
        },
        Err(_) => {},
    }
    match machine.opened(table) {
        Ok(opened) => {
            let modrm: u8 = if opened.inst.operand_type is ModRM {
                match opened.machine.peeked() {
                    Ok(byte) => byte,
                    Err(_) => 0u8,
                }
            } else {
                0u8
            };
            lemma_fetched(opened.machine, tail_length(opened.inst, modrm) as nat);
        },
        Err(_) => {},
    }
}

/// A step with the descriptor table never fails for want of room in an
/// instruction buffer of six bytes or more, nor for want of instruction
/// bytes.
pub proof fn lemma_step_fits(machine: Machine, ports: Seq<u8>)
    requires
        machine.capacity >= 6,
    ensures
        machine.stepped(descriptor_map(), ports) != Err::<(Effect, u8), Fault>(
            Fault::InstructionTooLong,
        ),
        machine.stepped(descriptor_map(), ports) != Err::<(Effect, u8), Fault>(
            Fault::IncompleteInstruction,
        ),
{
    let table = descriptor_map();
    reveal(Machine::performed);
    lemma_step_has_its_bytes(machine, table, ports);
    lemma_load_fits(machine);
    match machine.instruction(table) {
        Ok(opened) => {
            let rest = Machine { bus: opened.machine.bus.skip(1), ..opened.machine };
            lemma_resolution_faults(rest, opened.inst);
            match rest.resolved(opened.inst) {
                Ok(operands) => {
                    lemma_execution_faults(
                        operands.machine,
                        opened.inst,
                        operands.dst,
                        operands.src,
                        ports,
                    );
                },
                Err(_) => {},
            }
        },
        Err(_) => {},
    }
}

} // verus!
