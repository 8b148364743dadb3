//! The processor: the descriptor table, the memory unit, and the cycle of
//! fetch, decode, operand resolution, execution and write-back.

use crate::decode::{looked_up, Opened, Table};
use crate::descriptor::{InstructionFormat, InstructionType, OperandType};
use crate::fault::Fault;
use crate::consumption::lemma_step_fits;
use crate::flags::Flags;
use crate::instructions::{
    descriptor, group_decode, has_row, instructions_decode, is_descriptor_table,
};
use crate::machine::{
    default_segment, lemma_fetched, tail_length, Effect, Machine, RegisterId,
};
use crate::memory::{physical, write_block, Segment};
use crate::memory_unit::MemoryUnit;
use std::collections::HashMap;
use vstd::prelude::*;

verus! {

broadcast use vstd::std_specs::hash::group_hash_axioms;

/// The opcode that halts the processor.
pub const HALT: u8 = 0xF4;

/// The segment value (first) and the offset (second) at which the processor
/// starts.
pub const RESET_VECTOR: (u16, u16) = (0xF000, 0xFFF0);

/// The segment value (first) and the offset (second) at which a program is
/// loaded.
pub const LOAD_ADDRESS: (u16, u16) = (0xDEEF, 0x0100);

/// What a step of the processor did.
#[derive(Clone, Copy, Debug, PartialEq, Eq, Structural)]
pub enum Outcome {
    /// The instruction with this opcode was executed.
    Executed(u8),
    /// The output instruction with this opcode (first) wrote this port
    /// (second) of the port array, as a word if the flag (third) is set.
    /// The devices have to be told before the next step.
    Output(u8, u16, bool),
    /// The halt instruction was executed.
    Halted,
}

/// Why a run of the processor stopped.
#[derive(Clone, Copy, Debug, PartialEq, Eq, Structural)]
pub enum Stop {
    /// The halt instruction was executed.
    Halted,
    /// An output instruction wrote this port of the port array, as a word if
    /// the flag is set. The devices have to be told before the run goes on.
    Output(u16, bool),
    /// The allowed number of steps was made.
    Limit,
}

/// What a step reports for the opcode that it executed and the port that
/// it wrote.
pub open spec fn outcome(opcode: u8, output: Option<(u16, bool)>) -> Outcome {
    if opcode == HALT {
        Outcome::Halted
    } else {
        match output {
            Some((port, word)) => Outcome::Output(opcode, port, word),
            None => Outcome::Executed(opcode),
        }
    }
}

impl Machine {
    /// One step: the instruction at the instruction pointer is fetched and
    /// decoded, its operands are resolved, and it is executed. Gives the
    /// state and the port array after the step, and the opcode.
    pub open spec fn stepped(self, table: Table, ports: Seq<u8>) -> Result<(Effect, u8), Fault> {
        match self.instruction(table) {
            Err(fault) => Err(fault),
            Ok(opened) => match (Machine {
                bus: opened.machine.bus.skip(1),
                ..opened.machine
            }).performed(opened.inst, ports) {
                Err(fault) => Err(fault),
                Ok(effect) => Ok((effect, opened.opcode)),
            },
        }
    }
}

/// The descriptor table as a map.
pub open spec fn descriptor_map() -> Table {
    Map::new(
        |op: u8| descriptor(op) is Some,
        |op: u8| descriptor(op).unwrap(),
    )
}

/// The segment that the memory operands of an instruction use where no
/// prefix overrides it.
pub fn default_segment_of(category: InstructionType) -> (segment: Segment)
    ensures
        segment == default_segment(category),
{
    match category {
        InstructionType::ProgramFlow(_) => Segment::CS,
        InstructionType::Procedure => Segment::CS,
        InstructionType::Stack => Segment::SS,
        _ => Segment::DS,
    }
}

/// The number of bytes that follow the opcode of an instruction with the
/// descriptor `inst`, where `modrm` is the byte after the opcode: the
/// operands of the addressing mode, and two more for a far jump. With a
/// ModRM byte they are that byte, its displacement (none with `mod` 0 but
/// for `r/m` 6, which has two; one with `mod` 1; two with `mod` 2; none
/// with `mod` 3) and the immediate if there is one.
pub fn instruction_tail(inst: &InstructionFormat, modrm: u8) -> (count: u8)
    ensures
        count == tail_length(*inst, modrm),
        count <= 7,
{
    let immediate: u8 = if inst.word {
        2
    } else {
        1
    };
    let operands: u8 = match inst.operand_type {
        OperandType::Address(_) => 2,
        OperandType::Data(_) => immediate,
        OperandType::ModRM(_, has_immediate) => {
            let modf: u8 = modrm / 64;
            let rm: u8 = modrm % 8;
            let displacement: u8 = if modf == 0 {
                if rm == 6 {
                    2
                } else {
                    0
                }
            } else if modf == 3 {
                0
            } else {
                modf
            };
            1 + displacement + if has_immediate {
                immediate
            } else {
                0
            }
        },
        OperandType::Registers(_, _) => 0,
        OperandType::Absent => 0,
    };
    match inst.instrution_type {
        InstructionType::ProgramFlow(true) => operands + 2,
        _ => operands,
    }
}

fn concrete(unit: &MemoryUnit, inst: InstructionFormat) -> (res: Result<InstructionFormat, Fault>)
    ensures
        res == unit@.concrete(inst),
{
    match inst.instrution_type {
        InstructionType::Group(number) => {
            let modrm: u8 = match unit.peek_code() {
                Ok(byte) => byte,
                Err(fault) => {
                    return Err(fault);
                },
            };
            let mut resolved = inst;
            match group_decode(number, (modrm / 8) % 8, &mut resolved) {
                Ok(()) => Ok(resolved),
                Err(fault) => Err(fault),
            }
        },
        _ => Ok(inst),
    }
}

fn fetch_opcode(unit: &mut MemoryUnit, table: &HashMap<u8, InstructionFormat>) -> (res: Result<
    (u8, InstructionFormat),
    Fault,
>)
    ensures
        match (Machine { bus: Seq::empty(), ..old(unit)@ }).fetched(1) {
            Err(fault) => res == Err::<(u8, InstructionFormat), Fault>(fault),
            Ok(machine) => match looked_up(table@, machine.bus[0]) {
                Err(fault) => res == Err::<(u8, InstructionFormat), Fault>(fault),
                Ok(inst) => res == Ok::<(u8, InstructionFormat), Fault>((machine.bus[0], inst))
                    && final(unit)@ == machine,
            },
        },
        final(unit)@.same_store(old(unit)@),
{
    unit.clear_bus();
    proof {
        lemma_fetched(unit@, 1);
    }
    match unit.read_code_segment(1) {
        Ok(()) => {},
        Err(fault) => {
            return Err(fault);
        },
    }
    let opcode: u8 = match unit.peek_bus() {
        Some(byte) => byte,
        None => 0,
    };
    match table.get(&opcode) {
        Some(inst) => Ok((opcode, *inst)),
        None => Err(Fault::UnknownOpcode(opcode)),
    }
}

fn overridden(
    unit: &mut MemoryUnit,
    table: &HashMap<u8, InstructionFormat>,
    prefix: InstructionFormat,
) -> (res: Result<(u8, InstructionFormat), Fault>)
    ensures
        match old(unit)@.overridden(table@, prefix) {
            Ok(opened) => res == Ok::<(u8, InstructionFormat), Fault>((opened.opcode, opened.inst))
                && final(unit)@ == opened.machine,
            Err(fault) => res == Err::<(u8, InstructionFormat), Fault>(fault),
        },
        final(unit)@.same_store(old(unit)@),
{
    let code: u8 = match prefix.operand_type {
        OperandType::Registers(code, _) => code,
        _ => {
            return Err(Fault::MalformedDescriptor);
        },
    };
    let segment = match Segment::from_code(code) {
        Ok(segment) => segment,
        Err(_) => {
            return Err(Fault::IllegalRegister(code));
        },
    };
    unit.set_operand_segment(segment);
    let (opcode, inst) = match fetch_opcode(unit, table) {
        Ok(found) => found,
        Err(fault) => {
            return Err(fault);
        },
    };
    match inst.instrution_type {
        InstructionType::Prefix => Err(Fault::UnsupportedPrefix(opcode)),
        InstructionType::SegmentOverride => Err(Fault::UnsupportedPrefix(opcode)),
        _ => match concrete(unit, inst) {
            Ok(inst) => Ok((opcode, inst)),
            Err(fault) => Err(fault),
        },
    }
}

fn opened(unit: &mut MemoryUnit, table: &HashMap<u8, InstructionFormat>) -> (res: Result<
    (u8, InstructionFormat),
    Fault,
>)
    ensures
        match old(unit)@.opened(table@) {
            Ok(opened) => res == Ok::<(u8, InstructionFormat), Fault>((opened.opcode, opened.inst))
                && final(unit)@ == opened.machine,
            Err(fault) => res == Err::<(u8, InstructionFormat), Fault>(fault),
        },
        final(unit)@.same_store(old(unit)@),
{
    let (opcode, first) = match fetch_opcode(unit, table) {
        Ok(found) => found,
        Err(fault) => {
            return Err(fault);
        },
    };
    match first.instrution_type {
        InstructionType::Prefix => Err(Fault::UnsupportedPrefix(opcode)),
        InstructionType::SegmentOverride => overridden(unit, table, first),
        _ => match concrete(unit, first) {
            Ok(inst) => {
                unit.set_operand_segment(default_segment_of(inst.instrution_type));
                Ok((opcode, inst))
            },
            Err(fault) => Err(fault),
        },
    }
}

/// Loads the instruction at the instruction pointer into the instruction
/// buffer of `unit` and gives its opcode and its concrete descriptor.
pub fn load(unit: &mut MemoryUnit, table: &HashMap<u8, InstructionFormat>) -> (res: Result<
    (u8, InstructionFormat),
    Fault,
>)
    ensures
        match old(unit)@.instruction(table@) {
            Ok(opened) => res == Ok::<(u8, InstructionFormat), Fault>((opened.opcode, opened.inst))
                && final(unit)@ == opened.machine,
            Err(fault) => res == Err::<(u8, InstructionFormat), Fault>(fault),
        },
        final(unit)@.same_store(old(unit)@),
{
    let (opcode, inst) = match opened(unit, table) {
        Ok(found) => found,
        Err(fault) => {
            return Err(fault);
        },
    };
    let modrm: u8 = match inst.operand_type {
        OperandType::ModRM(_, _) => match unit.peek_code() {
            Ok(byte) => byte,
            Err(fault) => {
                return Err(fault);
            },
        },
        _ => 0,
    };
    match unit.read_code_segment(instruction_tail(&inst, modrm)) {
        Ok(()) => Ok((opcode, inst)),
        Err(fault) => Err(fault),
    }
}

/// Performs the instruction with the descriptor `inst` whose bytes, the
/// opcode first, wait in the instruction buffer.
fn perform(unit: &mut MemoryUnit, inst: &InstructionFormat, ports: &mut Vec<u8>) -> (res: Result<
    Option<(u16, bool)>,
    Fault,
>)
    requires
        old(unit)@.bus.len() >= 1,
    ensures
        match (Machine { bus: old(unit)@.bus.skip(1), ..old(unit)@ }).performed(
            *inst,
            old(ports)@,
        ) {
            Ok(effect) => res == Ok::<Option<(u16, bool)>, Fault>(effect.output) && final(unit)@
                == effect.machine && final(ports)@ == effect.ports,
            Err(fault) => res == Err::<Option<(u16, bool)>, Fault>(fault) && final(ports)@ == old(ports)@ && final(unit)@.same_store(old(unit)@),
        },
{
    proof {
        reveal(Machine::performed);
    }
    let _ = unit.pop_bus();
    let (dst, src) = match unit.read(inst) {
        Ok(operands) => operands,
        Err(fault) => {
            return Err(fault);
        },
    };
    unit.execute(inst, dst, src, ports)
}

fn attempt(unit: &mut MemoryUnit, table: &HashMap<u8, InstructionFormat>, ports: &mut Vec<u8>) -> (res:
    Result<Outcome, Fault>)
    ensures
        match old(unit)@.stepped(table@, old(ports)@) {
            Ok((effect, opcode)) => res == Ok::<Outcome, Fault>(outcome(opcode, effect.output))
                && final(unit)@ == effect.machine && final(ports)@ == effect.ports,
            Err(fault) => res == Err::<Outcome, Fault>(fault) && final(ports)@ == old(ports)@
                && final(unit)@.same_store(old(unit)@),
        },
{
    let (opcode, inst) = match load(unit, table) {
        Ok(found) => found,
        Err(fault) => {
            return Err(fault);
        },
    };
    proof {
        lemma_loaded(old(unit)@, table@);
    }
    match perform(unit, &inst, ports) {
        Ok(output) => {
            if opcode == HALT {
                Ok(Outcome::Halted)
            } else {
                match output {
                    Some((port, word)) => Ok(Outcome::Output(opcode, port, word)),
                    None => Ok(Outcome::Executed(opcode)),
                }
            }
        },
        Err(fault) => Err(fault),
    }
}

/// Puts back what a step that was given up has changed outside the store,
/// and empties the instruction buffer.
fn restore(
    unit: &mut MemoryUnit,
    ip: u16,
    sp: u16,
    flags: Flags,
    reference: u16,
    segment: Segment,
)
    ensures
        final(unit)@ == (Machine {
            ip,
            sp,
            flags,
            reference,
            segment,
            bus: Seq::empty(),
            ..old(unit)@
        }),
{
    unit.set_register(RegisterId::IP, ip);
    unit.set_register(RegisterId::SP, sp);
    unit.set_flags(flags);
    unit.set_reference(reference);
    unit.set_operand_segment(segment);
    unit.clear_bus();
}

/// Makes one step of `unit` with the descriptor table `table` and the port
/// array `ports`. A step that ends in a fault leaves the unit and the ports
/// as they were, but for the instruction buffer, which it leaves empty.
pub fn step(unit: &mut MemoryUnit, table: &HashMap<u8, InstructionFormat>, ports: &mut Vec<u8>) -> (res:
    Result<Outcome, Fault>)
    ensures
        match old(unit)@.stepped(table@, old(ports)@) {
            Ok((effect, opcode)) => res == Ok::<Outcome, Fault>(outcome(opcode, effect.output))
                && final(unit)@ == effect.machine && final(ports)@ == effect.ports,
            Err(fault) => res == Err::<Outcome, Fault>(fault) && final(ports)@ == old(ports)@
                && final(unit)@ == (Machine { bus: Seq::empty(), ..old(unit)@ }),
        },
{
    let ip: u16 = unit.ip;
    let sp: u16 = unit.sp;
    let flags = unit.flags;
    let reference: u16 = unit.reference;
    let segment = unit.segment;
    match attempt(unit, table, ports) {
        Ok(outcome) => Ok(outcome),
        Err(fault) => {
            restore(unit, ip, sp, flags, reference, segment);
            Err(fault)
        },
    }
}

/// Loads the instruction at the instruction pointer as `load` does, but
/// where that ends in a fault leaves the unit as it was, with an empty
/// instruction buffer.
pub fn load_or_restore(unit: &mut MemoryUnit, table: &HashMap<u8, InstructionFormat>) -> (res:
    Result<(u8, InstructionFormat), Fault>)
    ensures
        match old(unit)@.instruction(table@) {
            Ok(opened) => res == Ok::<(u8, InstructionFormat), Fault>((opened.opcode, opened.inst))
                && final(unit)@ == opened.machine,
            Err(fault) => res == Err::<(u8, InstructionFormat), Fault>(fault) && final(unit)@ == (
            Machine { bus: Seq::empty(), ..old(unit)@ }),
        },
{
    let ip: u16 = unit.ip;
    let sp: u16 = unit.sp;
    let flags = unit.flags;
    let reference: u16 = unit.reference;
    let segment = unit.segment;
    match load(unit, table) {
        Ok(found) => Ok(found),
        Err(fault) => {
            restore(unit, ip, sp, flags, reference, segment);
            Err(fault)
        },
    }
}

/// After a segment override prefix the opcode is the one byte in the
/// instruction buffer, and nothing changed but the instruction buffer, the
/// instruction pointer and the segment of the memory operands.
pub proof fn lemma_overridden(machine: Machine, table: Table, prefix: InstructionFormat)
    ensures
        machine.overridden(table, prefix) matches Ok(opened) ==> opened.machine.bus.len() == 1
            && opened.machine.bus[0] == opened.opcode && opened.machine == (Machine {
            bus: opened.machine.bus,
            ip: opened.machine.ip,
            segment: opened.machine.segment,
            ..machine
        }),
{
    match prefix.operand_type {
        OperandType::Registers(code, _) => {
            match Segment::coded(code) {
                Some(segment) => {
                    lemma_fetched(Machine { bus: Seq::empty(), segment, ..machine }, 1);
                },
                None => {},
            }
        },
        _ => {},
    }
}

/// Once the opcode has been read it is the one byte in the instruction
/// buffer, and nothing changed but the instruction buffer, the instruction
/// pointer and the segment of the memory operands.
pub proof fn lemma_opened(machine: Machine, table: Table)
    ensures
        machine.opened(table) matches Ok(opened) ==> opened.machine.bus.len() == 1
            && opened.machine.bus[0] == opened.opcode && opened.machine == (Machine {
            bus: opened.machine.bus,
            ip: opened.machine.ip,
            segment: opened.machine.segment,
            ..machine
        }),
{
    let start = Machine { bus: Seq::empty(), ..machine };
    lemma_fetched(start, 1);
    match start.fetched(1) {
        Ok(first) => {
            match looked_up(table, first.bus[0]) {
                Ok(found) => {
                    match found.instrution_type {
                        InstructionType::Prefix => {},
                        InstructionType::SegmentOverride => {
                            lemma_overridden(first, table, found);
                        },
                        _ => {
                            match first.concrete(found) {
                                Ok(inst) => {
                                    assert(machine.opened(table) == Ok::<Opened, Fault>(
                                        Opened {
                                            machine: Machine {
                                                segment: default_segment(inst.instrution_type),
                                                ..first
                                            },
                                            opcode: first.bus[0],
                                            inst,
                                        },
                                    ));
                                },
                                Err(_) => {},
                            }
                        },
                    }
                },
                Err(_) => {},
            }
        },
        Err(_) => {},
    }
}

/// A loaded instruction has its opcode at the head of the instruction
/// buffer, and loading it changed nothing but the instruction buffer, the
/// instruction pointer and the segment of the memory operands.
pub proof fn lemma_loaded(machine: Machine, table: Table)
    ensures
        machine.instruction(table) matches Ok(opened) ==> opened.machine.bus.len() >= 1
            && opened.machine.bus[0] == opened.opcode && opened.machine == (Machine {
            bus: opened.machine.bus,
            ip: opened.machine.ip,
            segment: opened.machine.segment,
            ..machine
        }),
{
    lemma_opened(machine, table);
    match machine.opened(table) {
        Ok(opened) => {
            let modrm: u8 = if opened.inst.operand_type is ModRM {
                match opened.machine.peeked() {
                    Ok(byte) => byte,
                    Err(_) => 0u8,
                }
            } else {
                0u8
            };
            let tail = tail_length(opened.inst, modrm) as nat;
            lemma_fetched(opened.machine, tail);
            match opened.machine.fetched(tail) {
                Ok(last) => {
                    assert(machine.instruction(table) == Ok::<Opened, Fault>(
                        Opened { machine: last, opcode: opened.opcode, inst: opened.inst },
                    ));
                    assert(last.bus.len() == 1 + tail);
                    assert(last.bus.take(1) == opened.machine.bus);
                    assert(last.bus.take(1)[0] == last.bus[0]);
                },
                Err(_) => {},
            }
        },
        Err(_) => {},
    }
}

/// Whether the `count` bytes from the offset `offset` on in the segment
/// with the value `segment` lie inside the memory image; the offset wraps
/// around at 2^16.
pub open spec fn readable(machine: Machine, segment: u16, offset: u16, count: int) -> bool {
    forall|i: int|
        0 <= i < count ==> physical(
            machine.policy,
            segment,
            (#[trigger] ((offset + i) % 0x10000)) as u16,
        ) < machine.mem.len()
}

/// The processor.
pub struct CPU {
    pub memory_unit: MemoryUnit,
    /// The descriptor table. A step reads it and never changes it.
    pub opcodes: HashMap<u8, InstructionFormat>,
}

/// Builds the descriptor table as a map from opcodes to descriptors.
pub fn build_table() -> (table: HashMap<u8, InstructionFormat>)
    ensures
        table@ == descriptor_map(),
{
    let rows = instructions_decode();
    let mut table: HashMap<u8, InstructionFormat> = HashMap::new();
    let mut i: usize = 0;
    while i < rows.len()
        invariant
            i <= rows.len(),
            is_descriptor_table(rows@),
            forall|k: u8|
                table@.contains_key(k) <==> exists|j: int| 0 <= j < i && (#[trigger] rows@[j]).0 == k,
            forall|k: u8| table@.contains_key(k) ==> table@[k] == descriptor(k).unwrap(),
        decreases rows.len() - i,
    {
        let (opcode, inst) = rows[i];
        let ghost before = table@;
        table.insert(opcode, inst);
        proof {
            assert(rows@[i as int].0 == opcode);
            assert forall|k: u8| table@.contains_key(k) implies exists|j: int|
                0 <= j < i + 1 && (#[trigger] rows@[j]).0 == k by {
                if k != opcode {
                    let j = choose|j: int| 0 <= j < i && (#[trigger] rows@[j]).0 == k;
                    assert(rows@[j].0 == k);
                }
            }
        }
        i = i + 1;
    }
    proof {
        assert forall|k: u8| table@.contains_key(k) <==> descriptor(
            k,
        ) is Some by {
            if table@.contains_key(k) {
                let j = choose|j: int| 0 <= j < rows.len() && (#[trigger] rows@[j]).0 == k;
                assert(has_row(rows@, k));
            }
            if descriptor(k) is Some {
                assert(has_row(rows@, k));
            }
        }
        assert(table@ =~= descriptor_map());
    }
    table
}

/// The bytes at the reset vector where no other are given: a far jump to
/// the four address bytes in `location`, or to the load address.
pub open spec fn jump_stub(location: Option<Seq<u8>>) -> Seq<u8> {
    match location {
        Some(address) => seq![0xEAu8] + address,
        None => seq![0xEAu8, 0x00u8, 0x01u8, 0xEFu8, 0xDEu8],
    }
}

/// The state of a processor that was just made.
pub open spec fn reset_state() -> Machine {
    Machine {
        flags: Flags::decoded(2),
        ip: RESET_VECTOR.1,
        cs: RESET_VECTOR.0,
        ..MemoryUnit::initial()
    }
}

/// The memory of a processor that was initialised with a program: the
/// bytes `first` at the reset vector, then the program at the load address.
/// There is none where either does not fit into the memory image.
pub open spec fn loaded_memory(program: Seq<u8>, first: Seq<u8>) -> Result<Seq<u8>, Fault> {
    let blank = reset_state();
    let reset = physical(blank.policy, RESET_VECTOR.0, RESET_VECTOR.1);
    let load = physical(blank.policy, LOAD_ADDRESS.0, LOAD_ADDRESS.1);
    if reset + first.len() > blank.mem.len() {
        Err(Fault::AddressOutOfRange(reset as u32))
    } else if load + program.len() > blank.mem.len() {
        Err(Fault::AddressOutOfRange(load as u32))
    } else {
        Ok(write_block(write_block(blank.mem, reset, first), load, program))
    }
}

/// The run of a processor for at most `limit` steps: the state and the
/// port array where it stopped, and why. It stops after the halt
/// instruction, after an output instruction, and at the limit. A fault ends
/// it in the state before the step that met the fault, with the
/// instruction buffer empty.
pub open spec fn ran(machine: Machine, table: Table, ports: Seq<u8>, limit: nat) -> (
    Machine,
    Seq<u8>,
    Result<Stop, Fault>,
)
    decreases limit,
{
    if limit == 0 {
        (machine, ports, Ok(Stop::Limit))
    } else {
        match machine.stepped(table, ports) {
            Err(fault) => (Machine { bus: Seq::empty(), ..machine }, ports, Err(fault)),
            Ok((effect, opcode)) => match outcome(opcode, effect.output) {
                Outcome::Halted => (effect.machine, effect.ports, Ok(Stop::Halted)),
                Outcome::Output(_, port, word) => (
                    effect.machine,
                    effect.ports,
                    Ok(Stop::Output(port, word)),
                ),
                Outcome::Executed(_) => ran(effect.machine, table, effect.ports, (limit - 1) as nat),
            },
        }
    }
}

/// A run ends with the step that writes a port: the state and the port
/// array are those right after the output instruction, so that no further
/// instruction runs before the devices can be told.
pub proof fn lemma_output_ends_run(machine: Machine, table: Table, ports: Seq<u8>, limit: nat)
    requires
        limit > 0,
        machine.stepped(table, ports) matches Ok((effect, _)) && effect.output is Some,
    ensures
        ({
            let (effect, opcode) = machine.stepped(table, ports).unwrap();
            opcode != HALT ==> ran(machine, table, ports, limit) == (
                effect.machine,
                effect.ports,
                Ok::<Stop, Fault>(Stop::Output(effect.output.unwrap().0, effect.output.unwrap().1)),
            )
        }),
{
}

impl CPU {
    /// A processor at the reset vector, with zeroed memory and an empty
    /// descriptor table.
    pub fn new() -> (cpu: Self)
        ensures
            cpu.memory_unit@ == reset_state(),
            cpu.opcodes@ == Map::<u8, InstructionFormat>::empty(),
    {
        let mut memory_unit = MemoryUnit::new();
        let mut flags = memory_unit.flags;
        flags.set(2);
        memory_unit.set_flags(flags);
        memory_unit.set_register(RegisterId::IP, RESET_VECTOR.1);
        memory_unit.set_register(RegisterId::CS, RESET_VECTOR.0);
        Self { memory_unit, opcodes: HashMap::new() }
    }

    /// A processor at the reset vector with the descriptor table, and with
    /// `program` at the load address. At the reset vector lies
    /// `init_program` if it is given; otherwise a far jump to the four
    /// address bytes in `location` if they are given, and to the load
    /// address if not.
    pub fn init(
        program: &Vec<u8>,
        init_program: Option<&Vec<u8>>,
        location: Option<&Vec<u8>>,
    ) -> (res: Result<Self, Fault>)
        ensures
            ({
                let first = match init_program {
                    Some(bytes) => bytes@,
                    None => jump_stub(
                        match location {
                            Some(address) => Some(address@),
                            None => None,
                        },
                    ),
                };
                match loaded_memory(program@, first) {
                    Ok(mem) => res matches Ok(cpu) && cpu.memory_unit@ == (Machine {
                        mem,
                        ..reset_state()
                    }) && cpu.opcodes@ == descriptor_map(),
                    Err(fault) => res matches Err(f) && f == fault,
                }
            }),
    {
        let mut cpu = Self::new();
        cpu.opcodes = build_table();
        let mut ini: Vec<u8> = Vec::new();
        ini.push(0xEA);
        match location {
            Some(address) => {
                let mut i: usize = 0;
                while i < address.len()
                    invariant
                        i <= address.len(),
                        ini@ == seq![0xEAu8] + address@.take(i as int),
                    decreases address.len() - i,
                {
                    ini.push(address[i]);
                    assert(address@.take(i + 1) =~= address@.take(i as int).push(address@[i as int]));
                    i = i + 1;
                }
                assert(address@.take(address.len() as int) =~= address@);
            },
            None => {
                ini.push(0x00);
                ini.push(0x01);
                ini.push(0xEF);
                ini.push(0xDE);
                assert(ini@ =~= seq![0xEAu8, 0x00u8, 0x01u8, 0xEFu8, 0xDEu8]);
            },
        }
        let first: &Vec<u8> = match init_program {
            Some(bytes) => bytes,
            None => &ini,
        };
        match cpu.memory_unit.memory.write(first, RESET_VECTOR) {
            Ok(()) => {},
            Err(fault) => {
                return Err(fault);
            },
        }
        match cpu.memory_unit.memory.write(program, LOAD_ADDRESS) {
            Ok(()) => {},
            Err(fault) => {
                return Err(fault);
            },
        }
        Ok(cpu)
    }

    /// Runs the processor until it halts, writes a port or has made `limit`
    /// steps; a fault ends the run.
    pub fn run_program(&mut self, ports: &mut Vec<u8>, limit: u64) -> (res: Result<Stop, Fault>)
        ensures
            final(self).opcodes@ == old(self).opcodes@,
            (final(self).memory_unit@, final(ports)@, res) == ran(
                old(self).memory_unit@,
                old(self).opcodes@,
                old(ports)@,
                limit as nat,
            ),
    {
        let mut left: u64 = limit;
        while left > 0
            invariant
                self.opcodes@ == old(self).opcodes@,
                ran(old(self).memory_unit@, old(self).opcodes@, old(ports)@, limit as nat) == ran(
                    self.memory_unit@,
                    self.opcodes@,
                    ports@,
                    left as nat,
                ),
            decreases left,
        {
            match step(&mut self.memory_unit, &self.opcodes, ports) {
                Ok(Outcome::Halted) => {
                    return Ok(Stop::Halted);
                },
                Ok(Outcome::Output(_, port, word)) => {
                    return Ok(Stop::Output(port, word));
                },
                Ok(Outcome::Executed(_)) => {},
                Err(fault) => {
                    return Err(fault);
                },
            }
            left = left - 1;
        }
        Ok(Stop::Limit)
    }

    /// Runs the next instruction: fetches and decodes it, resolves its
    /// operands, executes it and writes the result back. An instruction
    /// that ends in a fault leaves the processor and the ports as they
    /// were, but for the instruction buffer, which it leaves empty.
    pub fn run_next_instruction(&mut self, ports: &mut Vec<u8>) -> (res: Result<Outcome, Fault>)
        ensures
            final(self).opcodes@ == old(self).opcodes@,
            match old(self).memory_unit@.stepped(old(self).opcodes@, old(ports)@) {
                Ok((effect, opcode)) => res == Ok::<Outcome, Fault>(outcome(opcode, effect.output))
                    && final(self).memory_unit@ == effect.machine && final(ports)@ == effect.ports,
                Err(fault) => res == Err::<Outcome, Fault>(fault) && final(ports)@ == old(ports)@
                    && final(self).memory_unit@ == (Machine {
                    bus: Seq::empty(),
                    ..old(self).memory_unit@
                }),
            },
            old(self).opcodes@ == descriptor_map() && old(self).memory_unit@.capacity >= 6 ==> res
                != Err::<Outcome, Fault>(Fault::InstructionTooLong) && res != Err::<Outcome, Fault>(
                Fault::IncompleteInstruction,
            ),
    {
        proof {
            if self.opcodes@ == descriptor_map() && self.memory_unit@.capacity >= 6 {
                lemma_step_fits(self.memory_unit@, ports@);
            }
        }
        step(&mut self.memory_unit, &self.opcodes, ports)
    }

    /// Loads the instruction at the instruction pointer into the
    /// instruction buffer, moves the instruction pointer past it, and gives
    /// its concrete descriptor. Where the instruction cannot be loaded the
    /// processor stays as it was, with an empty instruction buffer.
    pub fn load_instruction(&mut self) -> (res: Result<InstructionFormat, Fault>)
        ensures
            final(self).opcodes@ == old(self).opcodes@,
            match old(self).memory_unit@.instruction(old(self).opcodes@) {
                Ok(opened) => res == Ok::<InstructionFormat, Fault>(opened.inst) && final(self).memory_unit@ == opened.machine,
                Err(fault) => res == Err::<InstructionFormat, Fault>(fault) && final(self).memory_unit@ == (Machine { bus: Seq::empty(), ..old(self).memory_unit@ }),
            },
    {
        match load_or_restore(&mut self.memory_unit, &self.opcodes) {
            Ok((_, inst)) => Ok(inst),
            Err(fault) => Err(fault),
        }
    }

    /// Decodes the instruction at the instruction pointer without executing
    /// it and gives its length in bytes, a prefix included. The processor
    /// stays as it was, with an empty instruction buffer.
    pub fn instruction_length(&mut self) -> (res: Result<u16, Fault>)
        ensures
            final(self).opcodes@ == old(self).opcodes@,
            final(self).memory_unit@ == (Machine {
                bus: Seq::empty(),
                ..old(self).memory_unit@
            }),
            match old(self).memory_unit@.instruction(old(self).opcodes@) {
                Ok(opened) => res == Ok::<u16, Fault>(
                    opened.machine.ip.wrapping_sub(old(self).memory_unit@.ip),
                ),
                Err(fault) => res == Err::<u16, Fault>(fault),
            },
    {
        let ip: u16 = self.memory_unit.ip;
        let sp: u16 = self.memory_unit.sp;
        let flags = self.memory_unit.flags;
        let reference: u16 = self.memory_unit.reference;
        let segment = self.memory_unit.segment;
        proof {
            lemma_loaded(self.memory_unit@, self.opcodes@);
        }
        let loaded = load(&mut self.memory_unit, &self.opcodes);
        let end: u16 = self.memory_unit.ip;
        restore(&mut self.memory_unit, ip, sp, flags, reference, segment);
        match loaded {
            Ok(_) => Ok(end.wrapping_sub(ip)),
            Err(fault) => Err(fault),
        }
    }

    /// Reads `count` bytes of memory from the offset `offset` on in the
    /// segment with the value `segment`; the offset wraps around at 2^16.
    pub fn read_memory(&self, segment: u16, offset: u16, count: u16) -> (res: Result<Vec<u8>, Fault>)
        ensures
            res matches Ok(bytes) ==> bytes@.len() == count && forall|i: int|
                0 <= i < count ==> #[trigger] bytes@[i] == self.memory_unit@.mem[physical(
                    self.memory_unit@.policy,
                    segment,
                    ((offset + i) % 0x10000) as u16,
                )],
            res is Ok <==> readable(self.memory_unit@, segment, offset, count as int),
    {
        let mut bytes: Vec<u8> = Vec::new();
        let mut i: u16 = 0;
        while i < count
            invariant
                i <= count,
                bytes@.len() == i,
                forall|k: int|
                    0 <= k < i ==> #[trigger] bytes@[k] == self.memory_unit@.mem[physical(
                        self.memory_unit@.policy,
                        segment,
                        ((offset + k) % 0x10000) as u16,
                    )],
                forall|k: int|
                    0 <= k < i ==> physical(
                        self.memory_unit@.policy,
                        segment,
                        (#[trigger] ((offset + k) % 0x10000)) as u16,
                    ) < self.memory_unit@.mem.len(),
            decreases count - i,
        {
            let at: u16 = ((offset as u32 + i as u32) % 0x10000) as u16;
            match self.memory_unit.memory.index((segment, at)) {
                Ok(byte) => bytes.push(byte),
                Err(fault) => {
                    assert(at == (offset + i) % 0x10000);
                    return Err(fault);
                },
            }
            i = i + 1;
        }
        Ok(bytes)
    }

    /// Looks an opcode up in the descriptor table.
    pub fn descriptor(&self, opcode: u8) -> (res: Result<InstructionFormat, Fault>)
        ensures
            res == looked_up(self.opcodes@, opcode),
    {
        match self.opcodes.get(&opcode) {
            Some(inst) => Ok(*inst),
            None => Err(Fault::UnknownOpcode(opcode)),
        }
    }
}

} // verus!
