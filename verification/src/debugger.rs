//! The commands of the debugger: what they ask of the processor and what
//! they answer, without the terminal.

use crate::cpu::{readable, CPU};
use crate::fault::Fault;
use crate::machine::Machine;
use crate::memory::{in_range, lowercase, physical, read_le, to_lowercase, Segment};
use crate::number::{number_of, parse_radix, parsed, string_to_number};
use vstd::prelude::*;
use vstd::string::*;

verus! {

/// The most bytes of memory that one command shows.
pub const LONGEST_DUMP: u32 = 0x100;

/// The offset of the first word of the stack.
pub const STACK_BASE: u16 = 0xFFFE;

/// The state of the debugger.
pub struct Debugger {
    /// Whether the bytes of each instruction are shown before it runs.
    pub print_instruction: bool,
    /// Whether the program has halted.
    pub code_finished: bool,
}

/// What the command that shows a value found.
#[derive(Debug, PartialEq, Eq)]
pub enum Echo {
    /// The value of a register, or the flags as a word.
    Value(u16),
    /// The words of the stack with their offsets, from `STACK_BASE` down to
    /// the stack pointer.
    Stack(Vec<(u16, u16)>),
    /// The bytes of memory that were asked for.
    Memory(Vec<u8>),
}

/// Why the command that shows a value found none.
#[derive(Clone, Copy, Debug, PartialEq, Eq, Structural)]
pub enum EchoError {
    /// The command names nothing to show.
    BadArguments,
    /// The name is no register and no place in memory.
    BadArgument,
    /// The text before the colon names no segment.
    BadSegment,
    /// The text after the colon is no number and not `ip`.
    BadAddress,
    /// The text after `-l` is no number below 65536.
    BadLength,
    /// More than `LONGEST_DUMP` bytes were asked for.
    LengthTooLong,
    /// The memory that was asked for lies outside the memory image.
    Memory(Fault),
}

/// The register that a lower-case name stands for in the command that
/// shows a value.
pub open spec fn named_value(name: Seq<char>, machine: Machine) -> Option<u16> {
    if name == "ax"@ {
        Some(machine.ax)
    } else if name == "bx"@ {
        Some(machine.bx)
    } else if name == "cx"@ {
        Some(machine.cx)
    } else if name == "dx"@ {
        Some(machine.dx)
    } else if name == "ip"@ {
        Some(machine.ip)
    } else if name == "sp"@ {
        Some(machine.sp)
    } else if name == "flags"@ || name == "freg"@ {
        Some(machine.flags.encoding())
    } else if name == "es"@ {
        Some(machine.es)
    } else if name == "cs"@ {
        Some(machine.cs)
    } else {
        None
    }
}

/// The number of words on the stack: those at the even offsets from
/// `STACK_BASE` down to the stack pointer.
pub open spec fn stack_depth(sp: u16) -> int {
    if sp > STACK_BASE {
        0
    } else {
        (STACK_BASE - sp) / 2 + 1
    }
}

/// Whether every word of the stack lies inside the memory image.
pub open spec fn stack_readable(machine: Machine) -> bool {
    forall|k: int|
        0 <= k < stack_depth(machine.sp) ==> in_range(
            machine.mem,
            physical(machine.policy, machine.ss, #[trigger] ((STACK_BASE - 2 * k) as u16)),
            2,
        )
}

/// The two parts of a text around its one colon, if it has exactly one.
pub open spec fn around_colon(text: Seq<char>) -> Option<(Seq<char>, Seq<char>)> {
    if exists|i: int| 0 <= i < text.len() && text[i] == ':' {
        let i = choose|i: int| 0 <= i < text.len() && text[i] == ':';
        if forall|j: int| 0 <= j < text.len() && text[j] == ':' ==> j == i {
            Some((text.take(i), text.skip(i + 1)))
        } else {
            None
        }
    } else {
        None
    }
}

/// The offset that the text after the colon stands for: a number, cut to
/// 16 bits, or the instruction pointer for `ip`.
pub open spec fn offset_of(text: Seq<char>, machine: Machine) -> Option<u16> {
    match number_of(text) {
        Ok(number) => Some((number % 0x10000) as u16),
        Err(_) => if text == "ip"@ {
            Some(machine.ip)
        } else {
            None
        },
    }
}

/// The number of bytes that the number after `-l` asks for, if it is a
/// number below 65536 and not above `LONGEST_DUMP`.
pub open spec fn length_of(number: Option<u32>) -> Result<u32, EchoError> {
    match number {
        Some(length) => if length > 0xFFFF {
            Err(EchoError::BadLength)
        } else if length > LONGEST_DUMP {
            Err(EchoError::LengthTooLong)
        } else {
            Ok(length)
        },
        None => Err(EchoError::BadLength),
    }
}

/// The number of bytes that a command asks for: one, or the number after
/// `-l` where the command has exactly that option.
pub open spec fn asked_length(parameters: Seq<Seq<char>>) -> Result<u32, EchoError> {
    if parameters.len() == 4 && parameters[2] == "-l"@ {
        length_of(parsed(parameters[3], 10))
    } else {
        Ok(1)
    }
}

/// What the command that sets the showing of instruction bytes makes of
/// its parameters: the new setting, or the message that says what is wrong
/// with them. Without a value the setting is turned over.
pub open spec fn shown(current: bool, parameters: Seq<Seq<char>>) -> Result<bool, Seq<char>> {
    if parameters.len() > 2 {
        Err("bad arguments"@)
    } else if parameters.len() <= 1 {
        Ok(!current)
    } else if parameters[1] == "true"@ {
        Ok(true)
    } else if parameters[1] == "false"@ {
        Ok(false)
    } else {
        Err("[val] should be true or false"@)
    }
}

/// Whether two texts are the same.
fn same_text(left: &str, right: &str) -> (same: bool)
    ensures
        same == (left@ == right@),
{
    String::from_str(left) == String::from_str(right)
}

/// The place of the first colon in a text, counted in characters.
fn find_colon(text: &str, from: usize) -> (place: Option<usize>)
    requires
        from <= text@.len(),
    ensures
        match place {
            Some(i) => from <= i < text@.len() && text@[i as int] == ':' && forall|j: int|
                from <= j < i ==> text@[j] != ':',
            None => forall|j: int| from <= j < text@.len() ==> text@[j] != ':',
        },
{
    let len = text.unicode_len();
    let mut i: usize = from;
    while i < len
        invariant
            from <= i <= len,
            len == text@.len(),
            forall|j: int| from <= j < i ==> text@[j] != ':',
        decreases len - i,
    {
        if text.get_char(i) == ':' {
            return Some(i);
        }
        i = i + 1;
    }
    None
}

/// Splits a text at its one colon.
fn split_at_colon(text: &str) -> (parts: Option<(&str, &str)>)
    ensures
        match around_colon(text@) {
            Some((before, after)) => parts matches Some((left, right)) && left@ == before
                && right@ == after,
            None => parts is None,
        },
{
    let len = text.unicode_len();
    match find_colon(text, 0) {
        None => None,
        Some(i) => match find_colon(text, i + 1) {
            Some(second) => {
                assert(text@[i as int] == ':' && text@[second as int] == ':');
                None
            },
            None => {
                let left = text.substring_char(0, i);
                let right = text.substring_char(i + 1, len);
                proof {
                    let chosen = choose|k: int| 0 <= k < text@.len() && text@[k] == ':';
                    assert(chosen == i);
                    assert(left@ =~= text@.take(i as int));
                    assert(right@ =~= text@.skip(i + 1));
                }
                Some((left, right))
            },
        },
    }
}

impl Debugger {
    /// A debugger that shows no instruction bytes, for a program that runs.
    pub fn new() -> (debugger: Self)
        ensures
            !debugger.print_instruction,
            !debugger.code_finished,
    {
        Self { print_instruction: false, code_finished: false }
    }

    /// The command `sop [true|false]`: sets whether the bytes of each
    /// instruction are shown, or turns the setting over where no value is
    /// given.
    pub fn showop(&mut self, parameters: Vec<&str>) -> (res: Result<String, String>)
        ensures
            final(self).code_finished == old(self).code_finished,
            match shown(old(self).print_instruction, parameters@.map_values(|p: &str| p@)) {
                Ok(value) => final(self).print_instruction == value && (res matches Ok(message)
                    && message@ == if value {
                    "print_opcode changed to true"@
                } else {
                    "print_opcode changed to false"@
                }),
                Err(text) => final(self).print_instruction == old(self).print_instruction && (
                res matches Err(message) && message@ == text),
            },
    {
        let ghost texts = parameters@.map_values(|p: &str| p@);
        if parameters.len() > 2 {
            return Err(String::from_str("bad arguments"));
        }
        let val = if parameters.len() <= 1 {
            !self.print_instruction
        } else {
            assert(texts[1] == parameters[1]@);
            if same_text(parameters[1], "true") {
                true
            } else if same_text(parameters[1], "false") {
                false
            } else {
                return Err(String::from_str("[val] should be true or false"));
            }
        };
        *self = Debugger { print_instruction: val, code_finished: self.code_finished };
        if val {
            Ok(String::from_str("print_opcode changed to true"))
        } else {
            Ok(String::from_str("print_opcode changed to false"))
        }
    }

    /// Marks the program as halted.
    pub fn finish(&mut self)
        ensures
            final(self).code_finished,
            final(self).print_instruction == old(self).print_instruction,
    {
        *self = Debugger { print_instruction: self.print_instruction, code_finished: true };
    }

    /// The value of the register that a lower-case name stands for, if it
    /// stands for one: `ax`, `bx`, `cx`, `dx`, `ip`, `sp`, `es`, `cs`, and
    /// `flags` or `freg` for the flags as a word.
    pub fn value_named(cpu: &CPU, name: &str) -> (value: Option<u16>)
        ensures
            value == named_value(name@, cpu.memory_unit@),
    {
        let unit = &cpu.memory_unit;
        if same_text(name, "ax") {
            Some(unit.ax)
        } else if same_text(name, "bx") {
            Some(unit.bx)
        } else if same_text(name, "cx") {
            Some(unit.cx)
        } else if same_text(name, "dx") {
            Some(unit.dx)
        } else if same_text(name, "ip") {
            Some(unit.ip)
        } else if same_text(name, "sp") {
            Some(unit.sp)
        } else if same_text(name, "flags") || same_text(name, "freg") {
            Some(unit.flags.as_word())
        } else if same_text(name, "es") {
            Some(unit.memory.extra_segment)
        } else if same_text(name, "cs") {
            Some(unit.memory.code_segment)
        } else {
            None
        }
    }

    /// The number of bytes that the number after `-l` asks for.
    pub fn length_from(number: Option<u32>) -> (res: Result<u32, EchoError>)
        ensures
            res == length_of(number),
    {
        match number {
            Some(length) => {
                if length > 0xFFFF {
                    Err(EchoError::BadLength)
                } else if length > LONGEST_DUMP {
                    Err(EchoError::LengthTooLong)
                } else {
                    Ok(length)
                }
            },
            None => Err(EchoError::BadLength),
        }
    }

    /// The words of the stack with their offsets, from `STACK_BASE` down to
    /// the stack pointer.
    pub fn stack(cpu: &CPU) -> (res: Result<Vec<(u16, u16)>, Fault>)
        ensures
            res matches Ok(words) ==> words@.len() == stack_depth(cpu.memory_unit@.sp) && forall|
                k: int,
            |
                0 <= k < words@.len() ==> (#[trigger] words@[k]).0 == STACK_BASE - 2 * k
                    && words@[k].1 == read_le(
                    cpu.memory_unit@.mem,
                    physical(
                        cpu.memory_unit@.policy,
                        cpu.memory_unit@.ss,
                        (STACK_BASE - 2 * k) as u16,
                    ),
                    2,
                ),
            res is Ok <==> stack_readable(cpu.memory_unit@),
    {
        let sp: u16 = cpu.memory_unit.sp;
        let mut words: Vec<(u16, u16)> = Vec::new();
        if sp > STACK_BASE {
            return Ok(words);
        }
        let count: u16 = (STACK_BASE - sp) / 2 + 1;
        let mut k: u16 = 0;
        while k < count
            invariant
                k <= count,
                count == stack_depth(cpu.memory_unit@.sp),
                count <= 0x8000,
                words@.len() == k,
                forall|j: int|
                    0 <= j < k ==> (#[trigger] words@[j]).0 == STACK_BASE - 2 * j && words@[j].1
                        == read_le(
                        cpu.memory_unit@.mem,
                        physical(
                            cpu.memory_unit@.policy,
                            cpu.memory_unit@.ss,
                            (STACK_BASE - 2 * j) as u16,
                        ),
                        2,
                    ),
                forall|j: int|
                    0 <= j < k ==> in_range(
                        cpu.memory_unit@.mem,
                        physical(
                            cpu.memory_unit@.policy,
                            cpu.memory_unit@.ss,
                            #[trigger] ((STACK_BASE - 2 * j) as u16),
                        ),
                        2,
                    ),
            decreases count - k,
        {
            let offset: u16 = STACK_BASE - 2 * k;
            let cell = cpu.memory_unit.cell(Segment::SS, offset, 2);
            match cpu.memory_unit.load(cell) {
                Ok(word) => {
                    words.push((offset, word as u16));
                },
                Err(fault) => {
                    assert(offset == (STACK_BASE - 2 * k) as u16);
                    return Err(fault);
                },
            }
            k = k + 1;
        }
        Ok(words)
    }

    /// The command `echo`: finds the value of the register that the first
    /// argument names, the words of the stack for `stack`, or the bytes of
    /// memory at `segment:offset`, one byte or as many as `-l` asks for.
    pub fn echo(&mut self, cpu: &CPU, parameters: Vec<&str>) -> (res: Result<Echo, EchoError>)
        ensures
            *final(self) == *old(self),
            parameters.len() < 2 ==> res == Err::<Echo, EchoError>(EchoError::BadArguments),
            parameters.len() >= 2 ==> ({
                let name = lowercase(parameters[1]@);
                match named_value(name, cpu.memory_unit@) {
                    Some(value) => res == Ok::<Echo, EchoError>(Echo::Value(value)),
                    None => if name == "stack"@ {
                        match res {
                            Ok(Echo::Stack(words)) => words@.len() == stack_depth(
                                cpu.memory_unit@.sp,
                            ) && forall|k: int|
                                0 <= k < words@.len() ==> (#[trigger] words@[k]).0 == STACK_BASE - 2
                                    * k && words@[k].1 == read_le(
                                    cpu.memory_unit@.mem,
                                    physical(
                                        cpu.memory_unit@.policy,
                                        cpu.memory_unit@.ss,
                                        (STACK_BASE - 2 * k) as u16,
                                    ),
                                    2,
                                ),
                            Err(EchoError::Memory(_)) => !stack_readable(cpu.memory_unit@),
                            _ => false,
                        }
                    } else {
                        match around_colon(parameters[1]@) {
                            None => res == Err::<Echo, EchoError>(EchoError::BadArgument),
                            Some((before, after)) => match Segment::named(lowercase(before)) {
                                None => res == Err::<Echo, EchoError>(EchoError::BadSegment),
                                Some(segment) => match offset_of(after, cpu.memory_unit@) {
                                    None => res == Err::<Echo, EchoError>(EchoError::BadAddress),
                                    Some(offset) => match asked_length(
                                        parameters@.map_values(|p: &str| p@),
                                    ) {
                                        Err(error) => res == Err::<Echo, EchoError>(error),
                                        Ok(length) => match res {
                                            Ok(Echo::Memory(bytes)) => bytes@.len() == length
                                                && forall|i: int|
                                                0 <= i < length ==> #[trigger] bytes@[i]
                                                    == cpu.memory_unit@.mem[physical(
                                                    cpu.memory_unit@.policy,
                                                    cpu.memory_unit@.segment_value(segment),
                                                    ((offset + i) % 0x10000) as u16,
                                                )],
                                            Err(EchoError::Memory(_)) => !readable(
                                                cpu.memory_unit@,
                                                cpu.memory_unit@.segment_value(segment),
                                                offset,
                                                length as int,
                                            ),
                                            _ => false,
                                        },
                                    },
                                },
                            },
                        }
                    },
                }
            }),
    {
        if parameters.len() < 2 {
            return Err(EchoError::BadArguments);
        }
        let lower = to_lowercase(parameters[1]);
        let name = lower.as_str();
        let unit = &cpu.memory_unit;
        match Debugger::value_named(cpu, name) {
            Some(value) => {
                return Ok(Echo::Value(value));
            },
            None => {},
        }
        if same_text(name, "stack") {
            return match Debugger::stack(cpu) {
                Ok(words) => Ok(Echo::Stack(words)),
                Err(fault) => Err(EchoError::Memory(fault)),
            };
        }
        let (before, after) = match split_at_colon(parameters[1]) {
            Some(parts) => parts,
            None => {
                return Err(EchoError::BadArgument);
            },
        };
        let segment = match Segment::from(before) {
            Ok(segment) => segment,
            Err(_) => {
                return Err(EchoError::BadSegment);
            },
        };
        let offset: u16 = match string_to_number(after) {
            Ok(number) => (number % 0x10000) as u16,
            Err(_) => {
                if same_text(after, "ip") {
                    unit.ip
                } else {
                    return Err(EchoError::BadAddress);
                }
            },
        };
        let mut length: u32 = 1;
        if parameters.len() == 4 && same_text(parameters[2], "-l") {
            assert(parameters@.map_values(|p: &str| p@)[2] == parameters[2]@);
            assert(parameters@.map_values(|p: &str| p@)[3] == parameters[3]@);
            length = match Debugger::length_from(parse_radix(parameters[3], 10)) {
                Ok(length) => length,
                Err(error) => {
                    return Err(error);
                },
            };
        } else {
            assert(parameters.len() == 4 ==> parameters@.map_values(|p: &str| p@)[2]
                == parameters[2]@);
        }
        match cpu.read_memory(segment.get_segment(&unit.memory), offset, length as u16) {
            Ok(bytes) => Ok(Echo::Memory(bytes)),
            Err(fault) => Err(EchoError::Memory(fault)),
        }
    }
}

} // verus!
