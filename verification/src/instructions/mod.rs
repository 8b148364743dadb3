//! The instruction descriptor table and the resolution of group opcodes.

use crate::descriptor::{InstructionFormat, InstructionType, ModrmRegField, OperandType};
use crate::fault::Fault;
use crate::registers;
use crate::semantics::{Condition, Operation};
use vstd::prelude::*;

pub mod group1;
pub mod group2;
pub mod group3;
pub mod group4;
pub mod group5;
pub mod io;
pub mod seg_override;

verus! {

/// The rows of a descriptor table: an opcode and its descriptor.
pub type Rows = Seq<(u8, InstructionFormat)>;

/// The operation of row `row` of the arithmetic block, which is also the
/// operation of sub-code `row` of group 1, on words or on bytes.
pub open spec fn arithmetic_operation(row: int, word: bool) -> Operation {
    if row == 0 {
        Operation::Add
    } else if row == 1 {
        Operation::Or
    } else if row == 2 {
        Operation::AddCarry
    } else if row == 3 {
        Operation::SubBorrow
    } else if row == 4 {
        Operation::And
    } else if row == 5 {
        Operation::Sub
    } else if row == 6 {
        Operation::Xor
    } else {
        Operation::Compare(word)
    }
}

/// The condition of the conditional jump with opcode `0x70 + n`.
pub open spec fn jump_condition(n: int) -> Condition {
    if n == 0 {
        Condition::Overflow
    } else if n == 1 {
        Condition::NotOverflow
    } else if n == 2 {
        Condition::Below
    } else if n == 3 {
        Condition::AboveOrEqual
    } else if n == 4 {
        Condition::Equal
    } else if n == 5 {
        Condition::NotEqual
    } else if n == 6 {
        Condition::BelowOrEqual
    } else if n == 7 {
        Condition::Above
    } else if n == 8 {
        Condition::Sign
    } else if n == 9 {
        Condition::NotSign
    } else if n == 10 {
        Condition::ParityEven
    } else if n == 11 {
        Condition::ParityOdd
    } else if n == 12 {
        Condition::Less
    } else if n == 13 {
        Condition::GreaterOrEqual
    } else if n == 14 {
        Condition::LessOrEqual
    } else {
        Condition::Greater
    }
}

/// The flag operation of opcode `0xF8 + n`, for `n` below 6.
pub open spec fn flag_operation(n: int) -> Operation {
    if n == 0 {
        Operation::SetCarry(false)
    } else if n == 1 {
        Operation::SetCarry(true)
    } else if n == 2 {
        Operation::SetInterrupt(false)
    } else if n == 3 {
        Operation::SetInterrupt(true)
    } else if n == 4 {
        Operation::SetDirection(false)
    } else {
        Operation::SetDirection(true)
    }
}

/// An instruction without operands that only acts on the flags, or not at
/// all.
pub open spec fn plain(execute: Option<Operation>) -> InstructionFormat {
    InstructionFormat {
        operand_type: OperandType::Absent,
        instrution_type: InstructionType::General,
        word: false,
        direction: false,
        write: false,
        execute,
    }
}

/// Opcodes below 0x40. In each row of eight, the first six are one
/// arithmetic operation in six addressing forms; the last two are stack
/// operations on ES in the first row, and a segment override in the last
/// four.
pub open spec fn descriptor_00_3f(op: u8) -> Option<InstructionFormat> {
    let column = op % 8;
    let row = op / 8;
    if column < 4 {
        Some(
            InstructionFormat {
                operand_type: OperandType::ModRM(ModrmRegField::Reg, false),
                instrution_type: InstructionType::General,
                word: column % 2 == 1,
                direction: column >= 2,
                write: row != 7,
                execute: Some(arithmetic_operation(row as int, column % 2 == 1)),
            },
        )
    } else if column < 6 {
        Some(
            InstructionFormat {
                operand_type: OperandType::Data(registers::AX),
                instrution_type: InstructionType::General,
                word: column == 5,
                direction: false,
                write: row != 7,
                execute: Some(arithmetic_operation(row as int, column == 5)),
            },
        )
    } else if row == 0 {
        Some(
            InstructionFormat {
                operand_type: OperandType::Registers(registers::RES, None),
                instrution_type: InstructionType::Stack,
                word: true,
                direction: column == 6,
                write: true,
                execute: None,
            },
        )
    } else if row >= 4 && column == 6 {
        Some(
            InstructionFormat {
                operand_type: OperandType::Registers((row - 4) as u8, None),
                instrution_type: InstructionType::SegmentOverride,
                word: false,
                direction: false,
                write: false,
                execute: None,
            },
        )
    } else {
        None
    }
}

/// Opcodes 0x40 to 0x7F: increment, decrement, push and pop of the word
/// register in the low three bits; push of an immediate; conditional jumps.
pub open spec fn descriptor_40_7f(op: u8) -> Option<InstructionFormat> {
    if op < 0x50 {
        Some(
            InstructionFormat {
                operand_type: OperandType::Registers(op % 8, None),
                instrution_type: InstructionType::General,
                word: true,
                direction: false,
                write: true,
                execute: Some(
                    if op < 0x48 {
                        Operation::Increment
                    } else {
                        Operation::Decrement
                    },
                ),
            },
        )
    } else if op < 0x60 {
        Some(
            InstructionFormat {
                operand_type: OperandType::Registers(op % 8, None),
                instrution_type: InstructionType::Stack,
                word: true,
                direction: op < 0x58,
                write: true,
                execute: None,
            },
        )
    } else if op == 0x68 || op == 0x6A {
        Some(
            InstructionFormat {
                operand_type: OperandType::Data(registers::AX),
                instrution_type: InstructionType::Stack,
                word: op == 0x68,
                direction: true,
                write: true,
                execute: None,
            },
        )
    } else if op >= 0x70 {
        Some(
            InstructionFormat {
                operand_type: OperandType::Data(registers::AX),
                instrution_type: InstructionType::ProgramFlow(false),
                word: false,
                direction: false,
                write: true,
                execute: Some(Operation::Jump(jump_condition(op - 0x70))),
            },
        )
    } else {
        None
    }
}

/// The byte register that the move with opcode `op`, from 0xB0 to 0xB7,
/// loads: BL for 0xB2, DL for 0xB3, and for the others the register of the
/// low three bits of the opcode.
pub open spec fn byte_move_register(op: u8) -> u8 {
    if op == 0xB2 {
        registers::BL
    } else if op == 0xB3 {
        registers::DL
    } else {
        (op - 0xB0) as u8
    }
}

/// Opcodes 0x80 to 0xBF: group 1, tests and moves.
pub open spec fn descriptor_80_bf(op: u8) -> Option<InstructionFormat> {
    if op < 0x84 {
        Some(
            InstructionFormat {
                operand_type: OperandType::ModRM(ModrmRegField::Group(0), true),
                instrution_type: InstructionType::Group(1),
                word: op == 0x81,
                direction: false,
                write: true,
                execute: None,
            },
        )
    } else if op == 0x84 || op == 0x85 {
        Some(
            InstructionFormat {
                operand_type: OperandType::ModRM(ModrmRegField::Reg, false),
                instrution_type: InstructionType::General,
                word: op == 0x85,
                direction: false,
                write: false,
                execute: Some(Operation::And),
            },
        )
    } else if 0x88 <= op <= 0x8B {
        Some(
            InstructionFormat {
                operand_type: OperandType::ModRM(ModrmRegField::Reg, false),
                instrution_type: InstructionType::General,
                word: op % 2 == 1,
                direction: op >= 0x8A,
                write: true,
                execute: None,
            },
        )
    } else if op == 0x8C || op == 0x8E {
        Some(
            InstructionFormat {
                operand_type: OperandType::ModRM(ModrmRegField::Sreg, false),
                instrution_type: InstructionType::General,
                word: true,
                direction: op == 0x8E,
                write: true,
                execute: None,
            },
        )
    } else if op == 0x8F {
        Some(
            InstructionFormat {
                operand_type: OperandType::ModRM(ModrmRegField::Reg, false),
                instrution_type: InstructionType::Stack,
                word: true,
                direction: false,
                write: true,
                execute: None,
            },
        )
    } else if op == 0x90 {
        Some(plain(None))
    } else if op == 0x9C || op == 0x9D {
        Some(
            InstructionFormat {
                operand_type: OperandType::Absent,
                instrution_type: InstructionType::Stack,
                word: true,
                direction: op == 0x9C,
                write: op == 0x9C,
                execute: Some(
                    if op == 0x9C {
                        Operation::PushFlags
                    } else {
                        Operation::PopFlags
                    },
                ),
            },
        )
    } else if 0xA0 <= op <= 0xA3 {
        Some(
            InstructionFormat {
                operand_type: OperandType::Address(registers::AX),
                instrution_type: InstructionType::General,
                word: op % 2 == 1,
                direction: op >= 0xA2,
                write: true,
                execute: None,
            },
        )
    } else if op == 0xA8 || op == 0xA9 {
        Some(
            InstructionFormat {
                operand_type: OperandType::Data(registers::AX),
                instrution_type: InstructionType::General,
                word: op == 0xA9,
                direction: false,
                write: false,
                execute: Some(Operation::Sub),
            },
        )
    } else if op >= 0xB0 {
        Some(
            InstructionFormat {
                operand_type: OperandType::Data(
                    if op < 0xB8 {
                        byte_move_register(op)
                    } else {
                        (op - 0xB8) as u8
                    },
                ),
                instrution_type: InstructionType::General,
                word: op >= 0xB8,
                direction: false,
                write: true,
                execute: None,
            },
        )
    } else {
        None
    }
}

/// Opcodes from 0xC0: returns, interrupts, groups 2 to 5, port input and
/// output, calls and jumps, halt and the flag instructions.
pub open spec fn descriptor_c0_ff(op: u8) -> Option<InstructionFormat> {
    if op == 0xC2 || op == 0xC3 {
        Some(
            InstructionFormat {
                operand_type: if op == 0xC2 {
                    OperandType::Data(registers::AX)
                } else {
                    OperandType::Absent
                },
                instrution_type: InstructionType::Procedure,
                word: true,
                direction: false,
                write: true,
                execute: Some(Operation::Source),
            },
        )
    } else if op == 0xC6 || op == 0xC7 {
        Some(
            InstructionFormat {
                operand_type: OperandType::ModRM(ModrmRegField::Reg, true),
                instrution_type: InstructionType::General,
                word: op == 0xC7,
                direction: false,
                write: true,
                execute: None,
            },
        )
    } else if op == 0xCD || op == 0xCF {
        Some(
            InstructionFormat {
                operand_type: if op == 0xCD {
                    OperandType::Data(registers::AX)
                } else {
                    OperandType::Absent
                },
                instrution_type: InstructionType::Interrupt,
                word: false,
                direction: op == 0xCF,
                write: true,
                execute: None,
            },
        )
    } else if 0xD0 <= op <= 0xD3 {
        Some(
            InstructionFormat {
                operand_type: OperandType::ModRM(
                    ModrmRegField::Group(
                        if op < 0xD2 {
                            1
                        } else {
                            2
                        },
                    ),
                    false,
                ),
                instrution_type: InstructionType::Group(2),
                word: op % 2 == 1,
                direction: false,
                write: true,
                execute: None,
            },
        )
    } else if 0xE4 <= op <= 0xE7 {
        Some(
            InstructionFormat {
                operand_type: OperandType::Data(registers::AX),
                instrution_type: InstructionType::IO,
                word: op % 2 == 1,
                direction: op >= 0xE6,
                write: true,
                execute: None,
            },
        )
    } else if op == 0xE8 || op == 0xE9 {
        Some(
            InstructionFormat {
                operand_type: OperandType::Data(registers::AX),
                instrution_type: if op == 0xE8 {
                    InstructionType::Procedure
                } else {
                    InstructionType::ProgramFlow(false)
                },
                word: true,
                direction: op == 0xE8,
                write: true,
                execute: Some(Operation::Add),
            },
        )
    } else if op == 0xEA {
        Some(
            InstructionFormat {
                operand_type: OperandType::Data(registers::AX),
                instrution_type: InstructionType::ProgramFlow(true),
                word: true,
                direction: false,
                write: true,
                execute: Some(Operation::Source),
            },
        )
    } else if op == 0xEB {
        Some(
            InstructionFormat {
                operand_type: OperandType::Data(registers::AX),
                instrution_type: InstructionType::ProgramFlow(false),
                word: false,
                direction: false,
                write: true,
                execute: Some(Operation::Jump(Condition::Always)),
            },
        )
    } else if 0xEC <= op <= 0xEF {
        Some(
            InstructionFormat {
                operand_type: OperandType::Registers(registers::AX, Some(registers::DX)),
                instrution_type: InstructionType::IO,
                word: op % 2 == 1,
                direction: op >= 0xEE,
                write: true,
                execute: None,
            },
        )
    } else if op == 0xF4 {
        Some(plain(None))
    } else if op == 0xF6 || op == 0xF7 {
        Some(
            InstructionFormat {
                operand_type: OperandType::ModRM(ModrmRegField::Group(0), false),
                instrution_type: InstructionType::Group(3),
                word: op == 0xF7,
                direction: false,
                write: true,
                execute: None,
            },
        )
    } else if 0xF8 <= op <= 0xFD {
        Some(plain(Some(flag_operation(op - 0xF8))))
    } else if op >= 0xFE {
        Some(
            InstructionFormat {
                operand_type: OperandType::ModRM(ModrmRegField::Group(0), false),
                instrution_type: InstructionType::Group(
                    if op == 0xFE {
                        4
                    } else {
                        5
                    },
                ),
                word: op == 0xFF,
                direction: false,
                write: true,
                execute: None,
            },
        )
    } else {
        None
    }
}

/// The descriptor of the opcode `op`, if the processor implements it.
pub open spec fn descriptor(op: u8) -> Option<InstructionFormat> {
    if op < 0x40 {
        descriptor_00_3f(op)
    } else if op < 0x80 {
        descriptor_40_7f(op)
    } else if op < 0xC0 {
        descriptor_80_bf(op)
    } else {
        descriptor_c0_ff(op)
    }
}

/// Whether the descriptor of `op` is a group placeholder, a segment override
/// or a port instruction: the rows that the table takes from the other files
/// of this directory.
pub open spec fn is_special(op: u8) -> bool {
    match descriptor(op) {
        Some(d) => d.instrution_type is Group || d.instrution_type is SegmentOverride
            || d.instrution_type is IO,
        None => false,
    }
}

/// The row of the opcode `op` in the table.
pub open spec fn row_of(op: u8) -> (u8, InstructionFormat) {
    (op, descriptor(op).unwrap())
}

/// Whether the rows hold one for the opcode `op`.
pub open spec fn has_row(rows: Rows, op: u8) -> bool {
    exists|i: int| 0 <= i < rows.len() && (#[trigger] rows[i]).0 == op
}

/// Whether every row holds the descriptor of its opcode, and no opcode has
/// two rows.
pub open spec fn rows_right(rows: Rows) -> bool {
    &&& forall|i: int| 0 <= i < rows.len() ==> descriptor((#[trigger] rows[i]).0) == Some(rows[i].1)
    &&& forall|i: int, j: int|
        0 <= i < j < rows.len() ==> (#[trigger] rows[i]).0 != (#[trigger] rows[j]).0
}

/// Whether the rows are the descriptor table: one right row for each opcode
/// that has a descriptor, and no other.
pub open spec fn is_descriptor_table(rows: Rows) -> bool {
    &&& rows_right(rows)
    &&& forall|op: u8| has_row(rows, op) <==> descriptor(op) is Some
}

/// Whether the rows are right and hold a row for exactly the opcodes in
/// `covered`.
#[verifier::opaque]
pub open spec fn is_table_of(rows: Rows, covered: Set<u8>) -> bool {
    &&& rows_right(rows)
    &&& forall|op: u8| has_row(rows, op) <==> covered.contains(op)
}

/// Adding the row of an opcode that has none keeps the rows right, and adds
/// that opcode to those which have a row.
pub proof fn lemma_push_row(rows: Rows, covered: Set<u8>, op: u8)
    requires
        is_table_of(rows, covered),
        descriptor(op) is Some,
        !covered.contains(op),
    ensures
        is_table_of(rows.push(row_of(op)), covered.insert(op)),
{
    reveal(is_table_of);
    let next = rows.push(row_of(op));
    assert forall|o: u8| has_row(next, o) <==> covered.insert(op).contains(o) by {
        if has_row(rows, o) {
            let i = choose|i: int| 0 <= i < rows.len() && (#[trigger] rows[i]).0 == o;
            assert(next[i].0 == o);
        }
        if o == op {
            assert(next[rows.len() as int].0 == o);
        }
        if has_row(next, o) {
            let i = choose|i: int| 0 <= i < next.len() && (#[trigger] next[i]).0 == o;
            if i < rows.len() {
                assert(rows[i].0 == o);
            }
        }
    }
    assert forall|i: int, j: int| 0 <= i < j < next.len() implies (#[trigger] next[i]).0 != (
    #[trigger] next[j]).0 by {
        if j == rows.len() {
            assert(rows[i].0 != op);
        } else {
            assert(rows[i].0 != rows[j].0);
        }
    }
}

/// The rows of the opcodes `ops`.
pub open spec fn rows_of(ops: Seq<u8>) -> Rows {
    Seq::new(ops.len(), |i: int| row_of(ops[i]))
}

/// Adding the rows of opcodes that have none, each once, keeps the rows
/// right and adds those opcodes to the ones which have a row.
pub proof fn lemma_push_rows(rows: Rows, covered: Set<u8>, ops: Seq<u8>, added: Set<u8>)
    requires
        is_table_of(rows, covered),
        forall|i: int| 0 <= i < ops.len() ==> descriptor(#[trigger] ops[i]) is Some,
        forall|i: int| 0 <= i < ops.len() ==> !covered.contains(#[trigger] ops[i]),
        forall|i: int, j: int| 0 <= i < j < ops.len() ==> ops[i] != ops[j],
        forall|i: int| 0 <= i < ops.len() ==> added.contains(#[trigger] ops[i]),
        forall|op: u8| added.contains(op) ==> ops.contains(op),
    ensures
        is_table_of(rows + rows_of(ops), covered.union(added)),
    decreases ops.len(),
{
    if ops.len() == 0 {
        assert(rows + rows_of(ops) =~= rows);
        assert(covered.union(added) =~= covered);
    } else {
        let front = ops.drop_last();
        let last = ops.last();
        let less = added.remove(last);
        assert forall|op: u8| less.contains(op) implies front.contains(op) by {
            let i = choose|i: int| 0 <= i < ops.len() && ops[i] == op;
            assert(front[i] == op);
        }
        assert forall|i: int| 0 <= i < front.len() implies less.contains(#[trigger] front[i]) by {
            assert(front[i] == ops[i]);
        }
        assert forall|i: int| 0 <= i < front.len() implies descriptor(#[trigger] front[i]) is Some
            && !covered.contains(front[i]) by {
            assert(front[i] == ops[i]);
        }
        assert forall|i: int, j: int| 0 <= i < j < front.len() implies front[i] != front[j] by {
            assert(front[i] == ops[i] && front[j] == ops[j]);
        }
        lemma_push_rows(rows, covered, front, less);
        assert(!covered.union(less).contains(last));
        lemma_push_row(rows + rows_of(front), covered.union(less), last);
        assert((rows + rows_of(front)).push(row_of(last)) =~= rows + rows_of(ops));
        assert(covered.union(less).insert(last) =~= covered.union(added));
    }
}

/// Adding the rows of special opcodes that have none, each once, to rows
/// that hold those of the opcodes that operate by themselves.
pub proof fn lemma_push_special(rows: Rows, done: Set<u8>, ops: Seq<u8>, added: Set<u8>)
    requires
        is_table_of(rows, plain_opcodes(256).union(done)),
        forall|i: int| 0 <= i < ops.len() ==> is_special(#[trigger] ops[i]),
        forall|i: int| 0 <= i < ops.len() ==> !done.contains(#[trigger] ops[i]),
        forall|i: int, j: int| 0 <= i < j < ops.len() ==> ops[i] != ops[j],
        forall|i: int| 0 <= i < ops.len() ==> added.contains(#[trigger] ops[i]),
        forall|op: u8| added.contains(op) ==> ops.contains(op),
    ensures
        is_table_of(rows + rows_of(ops), plain_opcodes(256).union(done.union(added))),
{
    lemma_push_rows(rows, plain_opcodes(256).union(done), ops, added);
    assert(plain_opcodes(256).union(done).union(added) =~= plain_opcodes(256).union(
        done.union(added),
    ));
}

/// The opcodes below `bound` that operate by themselves.
pub open spec fn plain_opcodes(bound: int) -> Set<u8> {
    Set::new(|op: u8| op < bound && !is_special(op) && descriptor(op) is Some)
}

/// Rows that are right for the opcodes that operate by themselves and for
/// the special ones are the descriptor table.
proof fn lemma_all_opcodes(rows: Rows, special: Set<u8>)
    requires
        is_table_of(rows, plain_opcodes(256).union(special)),
        forall|op: u8| special.contains(op) <==> is_special(op),
    ensures
        is_descriptor_table(rows),
{
    reveal(is_table_of);
}

/// The opcodes of the group placeholders, the segment overrides and the port
/// instructions.
proof fn lemma_special_opcodes()
    ensures
        is_special(0x26),
        is_special(0x2E),
        is_special(0x36),
        is_special(0x3E),
        is_special(0x80),
        is_special(0x81),
        is_special(0x82),
        is_special(0x83),
        is_special(0xD0),
        is_special(0xD1),
        is_special(0xD2),
        is_special(0xD3),
        is_special(0xE4),
        is_special(0xE5),
        is_special(0xE6),
        is_special(0xE7),
        is_special(0xEC),
        is_special(0xED),
        is_special(0xEE),
        is_special(0xEF),
        is_special(0xF6),
        is_special(0xF7),
        is_special(0xFE),
        is_special(0xFF),
{
}

/// Builds a descriptor from its parts.
pub fn entry(
    operand_type: OperandType,
    instrution_type: InstructionType,
    word: bool,
    direction: bool,
    write: bool,
    execute: Option<Operation>,
) -> (format: InstructionFormat)
    ensures
        format == (InstructionFormat {
            operand_type,
            instrution_type,
            word,
            direction,
            write,
            execute,
        }),
{
    InstructionFormat { operand_type, instrution_type, word, direction, write, execute }
}

/// The descriptor of an opcode that operates by itself: every opcode of
/// the table but the group placeholders, the segment overrides and the port
/// instructions.
pub fn base_row(op: u8) -> (row: Option<InstructionFormat>)
    ensures
        row == if is_special(op) {
            None
        } else {
            descriptor(op)
        },
{
    match op {
        // ADD Eb Gb
        0x00 => Some(
            entry(OperandType::ModRM(ModrmRegField::Reg, false), InstructionType::General, false, false, true, Some(Operation::Add)),
        ),
        // ADD Ew Gw
        0x01 => Some(
            entry(OperandType::ModRM(ModrmRegField::Reg, false), InstructionType::General, true, false, true, Some(Operation::Add)),
        ),
        // ADD Gb Eb
        0x02 => Some(
            entry(OperandType::ModRM(ModrmRegField::Reg, false), InstructionType::General, false, true, true, Some(Operation::Add)),
        ),
        // ADD Gw Ew
        0x03 => Some(
            entry(OperandType::ModRM(ModrmRegField::Reg, false), InstructionType::General, true, true, true, Some(Operation::Add)),
        ),
        // ADD AL, Ib
        0x04 => Some(
            entry(OperandType::Data(registers::AL), InstructionType::General, false, false, true, Some(Operation::Add)),
        ),
        // ADD AX, Iw
        0x05 => Some(
            entry(OperandType::Data(registers::AX), InstructionType::General, true, false, true, Some(Operation::Add)),
        ),
        // PUSH ES
        0x06 => Some(
            entry(OperandType::Registers(registers::RES, None), InstructionType::Stack, true, true, true, None),
        ),
        // POP ES
        0x07 => Some(
            entry(OperandType::Registers(registers::RES, None), InstructionType::Stack, true, false, true, None),
        ),
        // OR Eb Gb
        0x08 => Some(
            entry(OperandType::ModRM(ModrmRegField::Reg, false), InstructionType::General, false, false, true, Some(Operation::Or)),
        ),
        // OR Ew Gw
        0x09 => Some(
            entry(OperandType::ModRM(ModrmRegField::Reg, false), InstructionType::General, true, false, true, Some(Operation::Or)),
        ),
        // OR Gb Eb
        0x0A => Some(
            entry(OperandType::ModRM(ModrmRegField::Reg, false), InstructionType::General, false, true, true, Some(Operation::Or)),
        ),
        // OR Gw Ew
        0x0B => Some(
            entry(OperandType::ModRM(ModrmRegField::Reg, false), InstructionType::General, true, true, true, Some(Operation::Or)),
        ),
        // OR AL, Ib
        0x0C => Some(
            entry(OperandType::Data(registers::AL), InstructionType::General, false, false, true, Some(Operation::Or)),
        ),
        // OR AX, Iw
        0x0D => Some(
            entry(OperandType::Data(registers::AX), InstructionType::General, true, false, true, Some(Operation::Or)),
        ),
        // ADC Eb Gb
        0x10 => Some(
            entry(OperandType::ModRM(ModrmRegField::Reg, false), InstructionType::General, false, false, true, Some(Operation::AddCarry)),
        ),
        // ADC Ew Gw
        0x11 => Some(
            entry(OperandType::ModRM(ModrmRegField::Reg, false), InstructionType::General, true, false, true, Some(Operation::AddCarry)),
        ),
        // ADC Gb Eb
        0x12 => Some(
            entry(OperandType::ModRM(ModrmRegField::Reg, false), InstructionType::General, false, true, true, Some(Operation::AddCarry)),
        ),
        // ADC Gw Ew
        0x13 => Some(
            entry(OperandType::ModRM(ModrmRegField::Reg, false), InstructionType::General, true, true, true, Some(Operation::AddCarry)),
        ),
        // ADC AL, Ib
        0x14 => Some(
            entry(OperandType::Data(registers::AL), InstructionType::General, false, false, true, Some(Operation::AddCarry)),
        ),
        // ADC AX, Iw
        0x15 => Some(
            entry(OperandType::Data(registers::AX), InstructionType::General, true, false, true, Some(Operation::AddCarry)),
        ),
        // SBB Eb Gb
        0x18 => Some(
            entry(OperandType::ModRM(ModrmRegField::Reg, false), InstructionType::General, false, false, true, Some(Operation::SubBorrow)),
        ),
        // SBB Ew Gw
        0x19 => Some(
            entry(OperandType::ModRM(ModrmRegField::Reg, false), InstructionType::General, true, false, true, Some(Operation::SubBorrow)),
        ),
        // SBB Gb Eb
        0x1A => Some(
            entry(OperandType::ModRM(ModrmRegField::Reg, false), InstructionType::General, false, true, true, Some(Operation::SubBorrow)),
        ),
        // SBB Gw Ew
        0x1B => Some(
            entry(OperandType::ModRM(ModrmRegField::Reg, false), InstructionType::General, true, true, true, Some(Operation::SubBorrow)),
        ),
        // SBB AL, Ib
        0x1C => Some(
            entry(OperandType::Data(registers::AL), InstructionType::General, false, false, true, Some(Operation::SubBorrow)),
        ),
        // SBB AX, Iw
        0x1D => Some(
            entry(OperandType::Data(registers::AX), InstructionType::General, true, false, true, Some(Operation::SubBorrow)),
        ),
        // AND Eb Gb
        0x20 => Some(
            entry(OperandType::ModRM(ModrmRegField::Reg, false), InstructionType::General, false, false, true, Some(Operation::And)),
        ),
        // AND Ew Gw
        0x21 => Some(
            entry(OperandType::ModRM(ModrmRegField::Reg, false), InstructionType::General, true, false, true, Some(Operation::And)),
        ),
        // AND Gb Eb
        0x22 => Some(
            entry(OperandType::ModRM(ModrmRegField::Reg, false), InstructionType::General, false, true, true, Some(Operation::And)),
        ),
        // AND Gw Ew
        0x23 => Some(
            entry(OperandType::ModRM(ModrmRegField::Reg, false), InstructionType::General, true, true, true, Some(Operation::And)),
        ),
        // AND AL, Ib
        0x24 => Some(
            entry(OperandType::Data(registers::AL), InstructionType::General, false, false, true, Some(Operation::And)),
        ),
        // AND AX, Iw
        0x25 => Some(
            entry(OperandType::Data(registers::AX), InstructionType::General, true, false, true, Some(Operation::And)),
        ),
        // SUB Eb Gb
        0x28 => Some(
            entry(OperandType::ModRM(ModrmRegField::Reg, false), InstructionType::General, false, false, true, Some(Operation::Sub)),
        ),
        // SUB Ew Gw
        0x29 => Some(
            entry(OperandType::ModRM(ModrmRegField::Reg, false), InstructionType::General, true, false, true, Some(Operation::Sub)),
        ),
        // SUB Gb Eb
        0x2A => Some(
            entry(OperandType::ModRM(ModrmRegField::Reg, false), InstructionType::General, false, true, true, Some(Operation::Sub)),
        ),
        // SUB Gw Ew
        0x2B => Some(
            entry(OperandType::ModRM(ModrmRegField::Reg, false), InstructionType::General, true, true, true, Some(Operation::Sub)),
        ),
        // SUB AL, Ib
        0x2C => Some(
            entry(OperandType::Data(registers::AL), InstructionType::General, false, false, true, Some(Operation::Sub)),
        ),
        // SUB AX, Iw
        0x2D => Some(
            entry(OperandType::Data(registers::AX), InstructionType::General, true, false, true, Some(Operation::Sub)),
        ),
        // XOR Eb Gb
        0x30 => Some(
            entry(OperandType::ModRM(ModrmRegField::Reg, false), InstructionType::General, false, false, true, Some(Operation::Xor)),
        ),
        // XOR Ew Gw
        0x31 => Some(
            entry(OperandType::ModRM(ModrmRegField::Reg, false), InstructionType::General, true, false, true, Some(Operation::Xor)),
        ),
        // XOR Gb Eb
        0x32 => Some(
            entry(OperandType::ModRM(ModrmRegField::Reg, false), InstructionType::General, false, true, true, Some(Operation::Xor)),
        ),
        // XOR Gw Ew
        0x33 => Some(
            entry(OperandType::ModRM(ModrmRegField::Reg, false), InstructionType::General, true, true, true, Some(Operation::Xor)),
        ),
        // XOR AL, Ib
        0x34 => Some(
            entry(OperandType::Data(registers::AL), InstructionType::General, false, false, true, Some(Operation::Xor)),
        ),
        // XOR AX, Iw
        0x35 => Some(
            entry(OperandType::Data(registers::AX), InstructionType::General, true, false, true, Some(Operation::Xor)),
        ),
        // CMP Eb Gb
        0x38 => Some(
            entry(OperandType::ModRM(ModrmRegField::Reg, false), InstructionType::General, false, false, false, Some(Operation::Compare(false))),
        ),
        // CMP Ew Gw
        0x39 => Some(
            entry(OperandType::ModRM(ModrmRegField::Reg, false), InstructionType::General, true, false, false, Some(Operation::Compare(true))),
        ),
        // CMP Gb Eb
        0x3A => Some(
            entry(OperandType::ModRM(ModrmRegField::Reg, false), InstructionType::General, false, true, false, Some(Operation::Compare(false))),
        ),
        // CMP Gw Ew
        0x3B => Some(
            entry(OperandType::ModRM(ModrmRegField::Reg, false), InstructionType::General, true, true, false, Some(Operation::Compare(true))),
        ),
        // CMP AL, Ib
        0x3C => Some(
            entry(OperandType::Data(registers::AL), InstructionType::General, false, false, false, Some(Operation::Compare(false))),
        ),
        // CMP AX, Iw
        0x3D => Some(
            entry(OperandType::Data(registers::AX), InstructionType::General, true, false, false, Some(Operation::Compare(true))),
        ),
        // INC AX
        0x40 => Some(
            entry(OperandType::Registers(registers::AX, None), InstructionType::General, true, false, true, Some(Operation::Increment)),
        ),
        // INC CX
        0x41 => Some(
            entry(OperandType::Registers(registers::CX, None), InstructionType::General, true, false, true, Some(Operation::Increment)),
        ),
        // INC DX
        0x42 => Some(
            entry(OperandType::Registers(registers::DX, None), InstructionType::General, true, false, true, Some(Operation::Increment)),
        ),
        // INC BX
        0x43 => Some(
            entry(OperandType::Registers(registers::BX, None), InstructionType::General, true, false, true, Some(Operation::Increment)),
        ),
        // INC SP
        0x44 => Some(
            entry(OperandType::Registers(registers::SP, None), InstructionType::General, true, false, true, Some(Operation::Increment)),
        ),
        // INC BP
        0x45 => Some(
            entry(OperandType::Registers(registers::BP, None), InstructionType::General, true, false, true, Some(Operation::Increment)),
        ),
        // INC SI
        0x46 => Some(
            entry(OperandType::Registers(registers::SI, None), InstructionType::General, true, false, true, Some(Operation::Increment)),
        ),
        // INC DI
        0x47 => Some(
            entry(OperandType::Registers(registers::DI, None), InstructionType::General, true, false, true, Some(Operation::Increment)),
        ),
        // DEC AX
        0x48 => Some(
            entry(OperandType::Registers(registers::AX, None), InstructionType::General, true, false, true, Some(Operation::Decrement)),
        ),
        // DEC CX
        0x49 => Some(
            entry(OperandType::Registers(registers::CX, None), InstructionType::General, true, false, true, Some(Operation::Decrement)),
        ),
        // DEC DX
        0x4A => Some(
            entry(OperandType::Registers(registers::DX, None), InstructionType::General, true, false, true, Some(Operation::Decrement)),
        ),
        // DEC BX
        0x4B => Some(
            entry(OperandType::Registers(registers::BX, None), InstructionType::General, true, false, true, Some(Operation::Decrement)),
        ),
        // DEC SP
        0x4C => Some(
            entry(OperandType::Registers(registers::SP, None), InstructionType::General, true, false, true, Some(Operation::Decrement)),
        ),
        // DEC BP
        0x4D => Some(
            entry(OperandType::Registers(registers::BP, None), InstructionType::General, true, false, true, Some(Operation::Decrement)),
        ),
        // DEC SI
        0x4E => Some(
            entry(OperandType::Registers(registers::SI, None), InstructionType::General, true, false, true, Some(Operation::Decrement)),
        ),
        // DEC DI
        0x4F => Some(
            entry(OperandType::Registers(registers::DI, None), InstructionType::General, true, false, true, Some(Operation::Decrement)),
        ),
        // PUSH AX
        0x50 => Some(
            entry(OperandType::Registers(registers::AX, None), InstructionType::Stack, true, true, true, None),
        ),
        // PUSH CX
        0x51 => Some(
            entry(OperandType::Registers(registers::CX, None), InstructionType::Stack, true, true, true, None),
        ),
        // PUSH DX
        0x52 => Some(
            entry(OperandType::Registers(registers::DX, None), InstructionType::Stack, true, true, true, None),
        ),
        // PUSH BX
        0x53 => Some(
            entry(OperandType::Registers(registers::BX, None), InstructionType::Stack, true, true, true, None),
        ),
        // PUSH SP
        0x54 => Some(
            entry(OperandType::Registers(registers::SP, None), InstructionType::Stack, true, true, true, None),
        ),
        // PUSH BP
        0x55 => Some(
            entry(OperandType::Registers(registers::BP, None), InstructionType::Stack, true, true, true, None),
        ),
        // PUSH SI
        0x56 => Some(
            entry(OperandType::Registers(registers::SI, None), InstructionType::Stack, true, true, true, None),
        ),
        // PUSH DI
        0x57 => Some(
            entry(OperandType::Registers(registers::DI, None), InstructionType::Stack, true, true, true, None),
        ),
        // POP AX
        0x58 => Some(
            entry(OperandType::Registers(registers::AX, None), InstructionType::Stack, true, false, true, None),
        ),
        // POP CX
        0x59 => Some(
            entry(OperandType::Registers(registers::CX, None), InstructionType::Stack, true, false, true, None),
        ),
        // POP DX
        0x5A => Some(
            entry(OperandType::Registers(registers::DX, None), InstructionType::Stack, true, false, true, None),
        ),
        // POP BX
        0x5B => Some(
            entry(OperandType::Registers(registers::BX, None), InstructionType::Stack, true, false, true, None),
        ),
        // POP SP
        0x5C => Some(
            entry(OperandType::Registers(registers::SP, None), InstructionType::Stack, true, false, true, None),
        ),
        // POP BP
        0x5D => Some(
            entry(OperandType::Registers(registers::BP, None), InstructionType::Stack, true, false, true, None),
        ),
        // POP SI
        0x5E => Some(
            entry(OperandType::Registers(registers::SI, None), InstructionType::Stack, true, false, true, None),
        ),
        // POP DI
        0x5F => Some(
            entry(OperandType::Registers(registers::DI, None), InstructionType::Stack, true, false, true, None),
        ),
        // PUSH Iw
        0x68 => Some(
            entry(OperandType::Data(registers::AX), InstructionType::Stack, true, true, true, None),
        ),
        // PUSH Ib
        0x6A => Some(
            entry(OperandType::Data(registers::AX), InstructionType::Stack, false, true, true, None),
        ),
        // JO
        0x70 => Some(
            entry(OperandType::Data(registers::AX), InstructionType::ProgramFlow(false), false, false, true, Some(Operation::Jump(Condition::Overflow))),
        ),
        // JNO
        0x71 => Some(
            entry(OperandType::Data(registers::AX), InstructionType::ProgramFlow(false), false, false, true, Some(Operation::Jump(Condition::NotOverflow))),
        ),
        // JB
        0x72 => Some(
            entry(OperandType::Data(registers::AX), InstructionType::ProgramFlow(false), false, false, true, Some(Operation::Jump(Condition::Below))),
        ),
        // JAE
        0x73 => Some(
            entry(OperandType::Data(registers::AX), InstructionType::ProgramFlow(false), false, false, true, Some(Operation::Jump(Condition::AboveOrEqual))),
        ),
        // JE
        0x74 => Some(
            entry(OperandType::Data(registers::AX), InstructionType::ProgramFlow(false), false, false, true, Some(Operation::Jump(Condition::Equal))),
        ),
        // JNE
        0x75 => Some(
            entry(OperandType::Data(registers::AX), InstructionType::ProgramFlow(false), false, false, true, Some(Operation::Jump(Condition::NotEqual))),
        ),
        // JBE
        0x76 => Some(
            entry(OperandType::Data(registers::AX), InstructionType::ProgramFlow(false), false, false, true, Some(Operation::Jump(Condition::BelowOrEqual))),
        ),
        // JA
        0x77 => Some(
            entry(OperandType::Data(registers::AX), InstructionType::ProgramFlow(false), false, false, true, Some(Operation::Jump(Condition::Above))),
        ),
        // JS
        0x78 => Some(
            entry(OperandType::Data(registers::AX), InstructionType::ProgramFlow(false), false, false, true, Some(Operation::Jump(Condition::Sign))),
        ),
        // JNS
        0x79 => Some(
            entry(OperandType::Data(registers::AX), InstructionType::ProgramFlow(false), false, false, true, Some(Operation::Jump(Condition::NotSign))),
        ),
        // JPE
        0x7A => Some(
            entry(OperandType::Data(registers::AX), InstructionType::ProgramFlow(false), false, false, true, Some(Operation::Jump(Condition::ParityEven))),
        ),
        // JPO
        0x7B => Some(
            entry(OperandType::Data(registers::AX), InstructionType::ProgramFlow(false), false, false, true, Some(Operation::Jump(Condition::ParityOdd))),
        ),
        // JL
        0x7C => Some(
            entry(OperandType::Data(registers::AX), InstructionType::ProgramFlow(false), false, false, true, Some(Operation::Jump(Condition::Less))),
        ),
        // JGE
        0x7D => Some(
            entry(OperandType::Data(registers::AX), InstructionType::ProgramFlow(false), false, false, true, Some(Operation::Jump(Condition::GreaterOrEqual))),
        ),
        // JLE
        0x7E => Some(
            entry(OperandType::Data(registers::AX), InstructionType::ProgramFlow(false), false, false, true, Some(Operation::Jump(Condition::LessOrEqual))),
        ),
        // JG
        0x7F => Some(
            entry(OperandType::Data(registers::AX), InstructionType::ProgramFlow(false), false, false, true, Some(Operation::Jump(Condition::Greater))),
        ),
        // TEST Eb Gb
        0x84 => Some(
            entry(OperandType::ModRM(ModrmRegField::Reg, false), InstructionType::General, false, false, false, Some(Operation::And)),
        ),
        // TEST Ew Gw
        0x85 => Some(
            entry(OperandType::ModRM(ModrmRegField::Reg, false), InstructionType::General, true, false, false, Some(Operation::And)),
        ),
        // MOV Eb Gb
        0x88 => Some(
            entry(OperandType::ModRM(ModrmRegField::Reg, false), InstructionType::General, false, false, true, None),
        ),
        // MOV Ew Gw
        0x89 => Some(
            entry(OperandType::ModRM(ModrmRegField::Reg, false), InstructionType::General, true, false, true, None),
        ),
        // MOV Gb Eb
        0x8A => Some(
            entry(OperandType::ModRM(ModrmRegField::Reg, false), InstructionType::General, false, true, true, None),
        ),
        // MOV Gw Ew
        0x8B => Some(
            entry(OperandType::ModRM(ModrmRegField::Reg, false), InstructionType::General, true, true, true, None),
        ),
        // MOV Ew Sw
        0x8C => Some(
            entry(OperandType::ModRM(ModrmRegField::Sreg, false), InstructionType::General, true, false, true, None),
        ),
        // MOV Sw Ew
        0x8E => Some(
            entry(OperandType::ModRM(ModrmRegField::Sreg, false), InstructionType::General, true, true, true, None),
        ),
        // POP Ew
        0x8F => Some(
            entry(OperandType::ModRM(ModrmRegField::Reg, false), InstructionType::Stack, true, false, true, None),
        ),
        // NOP
        0x90 => Some(
            entry(OperandType::Absent, InstructionType::General, false, false, false, None),
        ),
        // PUSHF
        0x9C => Some(
            entry(OperandType::Absent, InstructionType::Stack, true, true, true, Some(Operation::PushFlags)),
        ),
        // POPF
        0x9D => Some(
            entry(OperandType::Absent, InstructionType::Stack, true, false, false, Some(Operation::PopFlags)),
        ),
        // MOV AL, Ob
        0xA0 => Some(
            entry(OperandType::Address(registers::AL), InstructionType::General, false, false, true, None),
        ),
        // MOV AX, Ow
        0xA1 => Some(
            entry(OperandType::Address(registers::AX), InstructionType::General, true, false, true, None),
        ),
        // MOV Ob, AL
        0xA2 => Some(
            entry(OperandType::Address(registers::AL), InstructionType::General, false, true, true, None),
        ),
        // MOV Ow, AX
        0xA3 => Some(
            entry(OperandType::Address(registers::AX), InstructionType::General, true, true, true, None),
        ),
        // TEST AL, Ib
        0xA8 => Some(
            entry(OperandType::Data(registers::AL), InstructionType::General, false, false, false, Some(Operation::Sub)),
        ),
        // TEST AX, Iw
        0xA9 => Some(
            entry(OperandType::Data(registers::AX), InstructionType::General, true, false, false, Some(Operation::Sub)),
        ),
        // MOV AL, Ib
        0xB0 => Some(
            entry(OperandType::Data(registers::AL), InstructionType::General, false, false, true, None),
        ),
        // MOV CL, Ib
        0xB1 => Some(
            entry(OperandType::Data(registers::CL), InstructionType::General, false, false, true, None),
        ),
        // MOV BL, Ib
        0xB2 => Some(
            entry(OperandType::Data(registers::BL), InstructionType::General, false, false, true, None),
        ),
        // MOV DL, Ib
        0xB3 => Some(
            entry(OperandType::Data(registers::DL), InstructionType::General, false, false, true, None),
        ),
        // MOV AH, Ib
        0xB4 => Some(
            entry(OperandType::Data(registers::AH), InstructionType::General, false, false, true, None),
        ),
        // MOV CH, Ib
        0xB5 => Some(
            entry(OperandType::Data(registers::CH), InstructionType::General, false, false, true, None),
        ),
        // MOV DH, Ib
        0xB6 => Some(
            entry(OperandType::Data(registers::DH), InstructionType::General, false, false, true, None),
        ),
        // MOV BH, Ib
        0xB7 => Some(
            entry(OperandType::Data(registers::BH), InstructionType::General, false, false, true, None),
        ),
        // MOV AX, Iw
        0xB8 => Some(
            entry(OperandType::Data(registers::AX), InstructionType::General, true, false, true, None),
        ),
        // MOV CX, Iw
        0xB9 => Some(
            entry(OperandType::Data(registers::CX), InstructionType::General, true, false, true, None),
        ),
        // MOV DX, Iw
        0xBA => Some(
            entry(OperandType::Data(registers::DX), InstructionType::General, true, false, true, None),
        ),
        // MOV BX, Iw
        0xBB => Some(
            entry(OperandType::Data(registers::BX), InstructionType::General, true, false, true, None),
        ),
        // MOV SP, Iw
        0xBC => Some(
            entry(OperandType::Data(registers::SP), InstructionType::General, true, false, true, None),
        ),
        // MOV BP, Iw
        0xBD => Some(
            entry(OperandType::Data(registers::BP), InstructionType::General, true, false, true, None),
        ),
        // MOV SI, Iw
        0xBE => Some(
            entry(OperandType::Data(registers::SI), InstructionType::General, true, false, true, None),
        ),
        // MOV DI, Iw
        0xBF => Some(
            entry(OperandType::Data(registers::DI), InstructionType::General, true, false, true, None),
        ),
        // RET Iw
        0xC2 => Some(
            entry(OperandType::Data(registers::AX), InstructionType::Procedure, true, false, true, Some(Operation::Source)),
        ),
        // RET
        0xC3 => Some(
            entry(OperandType::Absent, InstructionType::Procedure, true, false, true, Some(Operation::Source)),
        ),
        // MOV Eb, Ib
        0xC6 => Some(
            entry(OperandType::ModRM(ModrmRegField::Reg, true), InstructionType::General, false, false, true, None),
        ),
        // MOV Ew, Iw
        0xC7 => Some(
            entry(OperandType::ModRM(ModrmRegField::Reg, true), InstructionType::General, true, false, true, None),
        ),
        // INT Ib
        0xCD => Some(
            entry(OperandType::Data(registers::AX), InstructionType::Interrupt, false, false, true, None),
        ),
        // IRET
        0xCF => Some(
            entry(OperandType::Absent, InstructionType::Interrupt, false, true, true, None),
        ),
        // CALL Jw
        0xE8 => Some(
            entry(OperandType::Data(registers::AX), InstructionType::Procedure, true, true, true, Some(Operation::Add)),
        ),
        // JMP Jw
        0xE9 => Some(
            entry(OperandType::Data(registers::AX), InstructionType::ProgramFlow(false), true, false, true, Some(Operation::Add)),
        ),
        // JMP far
        0xEA => Some(
            entry(OperandType::Data(registers::AX), InstructionType::ProgramFlow(true), true, false, true, Some(Operation::Source)),
        ),
        // JMP short
        0xEB => Some(
            entry(OperandType::Data(registers::AX), InstructionType::ProgramFlow(false), false, false, true, Some(Operation::Jump(Condition::Always))),
        ),
        // HLT
        0xF4 => Some(
            entry(OperandType::Absent, InstructionType::General, false, false, false, None),
        ),
        // CLC
        0xF8 => Some(
            entry(OperandType::Absent, InstructionType::General, false, false, false, Some(Operation::SetCarry(false))),
        ),
        // STC
        0xF9 => Some(
            entry(OperandType::Absent, InstructionType::General, false, false, false, Some(Operation::SetCarry(true))),
        ),
        // CLI
        0xFA => Some(
            entry(OperandType::Absent, InstructionType::General, false, false, false, Some(Operation::SetInterrupt(false))),
        ),
        // STI
        0xFB => Some(
            entry(OperandType::Absent, InstructionType::General, false, false, false, Some(Operation::SetInterrupt(true))),
        ),
        // CLD
        0xFC => Some(
            entry(OperandType::Absent, InstructionType::General, false, false, false, Some(Operation::SetDirection(false))),
        ),
        // STD
        0xFD => Some(
            entry(OperandType::Absent, InstructionType::General, false, false, false, Some(Operation::SetDirection(true))),
        ),
        _ => None,
    }
}

/// Resolves the sub-code of a group opcode in the three-bit field of the
/// ModRM byte: replaces the placeholder descriptor by the descriptor of the
/// operation that the sub-code selects. Where the sub-code selects none, the
/// descriptor stays as it is.
pub fn group_decode(group_number: u8, group_code: u8, inst: &mut InstructionFormat) -> (res:
    Result<(), Fault>)
    ensures
        match resolution(group_number, group_code, *old(inst)) {
            Ok(resolved) => res is Ok && *final(inst) == resolved,
            Err(fault) => res == Err::<(), Fault>(fault) && *final(inst) == *old(inst),
        },
{
    match group_number {
        1 => group1::group1(group_code, inst),
        2 => group2::group2(group_code, inst),
        3 => group3::group3(group_code, inst),
        4 => group4::group4(group_code, inst),
        5 => group5::group5(group_code, inst),
        _ => Err(Fault::IllegalGroupCode(group_number, group_code)),
    }
}

/// The descriptor that the sub-code `group_code` selects in the group
/// `group_number`, from the placeholder `base`; or the fault where it
/// selects none. It depends on nothing else.
pub open spec fn resolution(group_number: u8, group_code: u8, base: InstructionFormat) -> Result<
    InstructionFormat,
    Fault,
> {
    if group_number == 1 {
        group1::group1_resolution(group_code, base)
    } else if group_number == 2 {
        group2::group2_resolution(group_code, base)
    } else if group_number == 3 {
        group3::group3_resolution(group_code, base)
    } else if group_number == 4 {
        group4::group4_resolution(group_code, base)
    } else if group_number == 5 {
        group5::group5_resolution(group_code, base)
    } else {
        Err(Fault::IllegalGroupCode(group_number, group_code))
    }
}

/// Builds the descriptor table: one row for each opcode that the processor
/// implements.
pub fn instructions_decode() -> (table: Vec<(u8, InstructionFormat)>)
    ensures
        is_descriptor_table(table@),
{
    let mut table: Vec<(u8, InstructionFormat)> = Vec::new();
    let mut next: u16 = 0;
    proof {
        reveal(is_table_of);
    }
    while next < 256
        invariant
            next <= 256,
            is_table_of(table@, plain_opcodes(next as int)),
        decreases 256 - next,
    {
        let op: u8 = next as u8;
        match base_row(op) {
            Some(format) => {
                proof {
                    lemma_push_row(table@, plain_opcodes(next as int), op);
                    assert(plain_opcodes(next as int).insert(op) =~= plain_opcodes(next + 1));
                }
                table.push((op, format));
            },
            None => {
                assert(plain_opcodes(next as int) =~= plain_opcodes(next + 1));
            },
        }
        next = next + 1;
    }
    let ghost done = Set::<u8>::empty();
    proof {
        lemma_special_opcodes();
        assert(plain_opcodes(256).union(done) =~= plain_opcodes(256));
    }
    let ghost rows = table@;
    group1::group1_instructions(&mut table);
    proof {
        let ops = seq![0x80u8, 0x81u8, 0x82u8, 0x83u8];
        assert(ops[0] == 0x80 && ops[1] == 0x81 && ops[2] == 0x82 && ops[3] == 0x83);
        lemma_push_special(rows, done, ops, set![0x80u8, 0x81u8, 0x82u8, 0x83u8]);
        done = done.union(set![0x80u8, 0x81u8, 0x82u8, 0x83u8]);
    }
    let ghost rows = table@;
    group2::group2_instructions(&mut table);
    proof {
        let ops = seq![0xD0u8, 0xD1u8, 0xD2u8, 0xD3u8];
        assert(ops[0] == 0xD0 && ops[1] == 0xD1 && ops[2] == 0xD2 && ops[3] == 0xD3);
        lemma_push_special(rows, done, ops, set![0xD0u8, 0xD1u8, 0xD2u8, 0xD3u8]);
        done = done.union(set![0xD0u8, 0xD1u8, 0xD2u8, 0xD3u8]);
    }
    let ghost rows = table@;
    group3::group3_instructions(&mut table);
    proof {
        let ops = seq![0xF6u8, 0xF7u8];
        assert(ops[0] == 0xF6 && ops[1] == 0xF7);
        lemma_push_special(rows, done, ops, set![0xF6u8, 0xF7u8]);
        done = done.union(set![0xF6u8, 0xF7u8]);
    }
    let ghost rows = table@;
    group4::group4_instructions(&mut table);
    proof {
        let ops = seq![0xFEu8];
        assert(ops[0] == 0xFE);
        lemma_push_special(rows, done, ops, set![0xFEu8]);
        done = done.union(set![0xFEu8]);
    }
    let ghost rows = table@;
    group5::group5_instructions(&mut table);
    proof {
        let ops = seq![0xFFu8];
        assert(ops[0] == 0xFF);
        lemma_push_special(rows, done, ops, set![0xFFu8]);
        done = done.union(set![0xFFu8]);
    }
    let ghost rows = table@;
    seg_override::segment_override_instructions(&mut table);
    proof {
        let ops = seq![0x26u8, 0x2Eu8, 0x36u8, 0x3Eu8];
        assert(ops[0] == 0x26 && ops[1] == 0x2E && ops[2] == 0x36 && ops[3] == 0x3E);
        lemma_push_special(rows, done, ops, set![0x26u8, 0x2Eu8, 0x36u8, 0x3Eu8]);
        done = done.union(set![0x26u8, 0x2Eu8, 0x36u8, 0x3Eu8]);
    }
    let ghost rows = table@;
    io::io_instructions(&mut table);
    proof {
        let ops = seq![0xE4u8, 0xE5u8, 0xE6u8, 0xE7u8, 0xECu8, 0xEDu8, 0xEEu8, 0xEFu8];
        assert(ops[0] == 0xE4 && ops[1] == 0xE5 && ops[2] == 0xE6 && ops[3] == 0xE7 && ops[4] == 0xEC && ops[5] == 0xED && ops[6] == 0xEE && ops[7] == 0xEF);
        lemma_push_special(rows, done, ops, set![0xE4u8, 0xE5u8, 0xE6u8, 0xE7u8, 0xECu8, 0xEDu8, 0xEEu8, 0xEFu8]);
        done = done.union(set![0xE4u8, 0xE5u8, 0xE6u8, 0xE7u8, 0xECu8, 0xEDu8, 0xEEu8, 0xEFu8]);
    }
    proof {
        lemma_all_opcodes(table@, done);
    }
    table
}

} // verus!
