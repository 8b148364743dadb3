//! What holds of the arithmetic instructions once their result is written
//! back: sums wrap at the width of their destination, and products,
//! quotients and remainders are packed into AX and DX.

use crate::descriptor::{InstructionFormat, InstructionType, ModrmRegField, OperandType};
use crate::fault::Fault;
use crate::flags::Flags;
use crate::instructions::{descriptor, resolution};
use crate::machine::{register_operand, Effect, Machine, Operand, RegisterId, Resolved};
use crate::semantics::{divided, Operation};
use vstd::prelude::*;

verus! {

/// An addition to a word register leaves the sum modulo 2^16 in it.
pub proof fn lemma_add_wraps_word(machine: Machine, id: RegisterId, src: u32)
    ensures
        ({
            let sum = Operation::Add.result(machine.reg(id) as u32, src, machine.flags).unwrap();
            machine.written(Operand::Register(id), sum).unwrap().reg(id) == (machine.reg(id) + src)
                % 0x10000
        }),
{
}

/// The two bytes of a word register after one of them was replaced.
pub proof fn lemma_halves(word: u16, byte: int)
    requires
        0 <= byte < 0x100,
    ensures
        (byte * 0x100 + word % 0x100) / 0x100 == byte,
        (byte * 0x100 + word % 0x100) % 0x100 == word % 0x100,
        ((word / 0x100) * 0x100 + byte) / 0x100 == word / 0x100,
        ((word / 0x100) * 0x100 + byte) % 0x100 == byte,
        0 <= byte * 0x100 + word % 0x100 < 0x10000,
        0 <= (word / 0x100) * 0x100 + byte < 0x10000,
{
}

/// An addition to a byte register leaves the sum modulo 2^8 in it, and the
/// other byte of the same word register as it was.
pub proof fn lemma_add_wraps_byte(machine: Machine, id: RegisterId, high: bool, src: u32)
    ensures
        ({
            let operand = Operand::SmallRegister(id, high);
            let other = Operand::SmallRegister(id, !high);
            let before = machine.value(operand).unwrap();
            let sum = Operation::Add.result(before, src, machine.flags).unwrap();
            let after = machine.written(operand, sum).unwrap();
            &&& after.value(operand).unwrap() == (before + src) % 0x100
            &&& after.value(other) == machine.value(other)
        }),
{
    let operand = Operand::SmallRegister(id, high);
    let before = machine.value(operand).unwrap();
    let sum = before.wrapping_add(src);
    assert(sum % 0x100 == (before + src) % 0x100);
    lemma_halves(machine.reg(id), (sum % 0x100) as int);
    let after = machine.written(operand, sum).unwrap();
    assert(after.reg(id) == if high {
        (sum % 0x100) * 0x100 + machine.reg(id) % 0x100
    } else {
        (machine.reg(id) / 0x100) * 0x100 + sum % 0x100
    });
}

/// A division by zero raises the divide fault, whatever the dividend.
pub proof fn lemma_divide_by_zero(dst: u32, flags: Flags)
    ensures
        Operation::Divide.result(dst, 0, flags) == Err::<u32, Fault>(Fault::DivideError),
        Operation::SignedDivide.result(dst, 0, flags) == Err::<u32, Fault>(Fault::DivideError),
{
}

/// After a word division AX holds the quotient and DX the remainder; after
/// a byte division the low byte of AX holds the quotient and the high byte
/// of AX the remainder, and DX is as it was.
pub proof fn lemma_divide_packs(machine: Machine, inst: InstructionFormat, dst: u32, src: u32)
    requires
        divided(dst, src, inst.word) is Some,
    ensures
        ({
            let after = machine.math_done(inst, divided(dst, src, inst.word).unwrap());
            &&& src != 0
            &&& inst.word ==> after.ax == dst / src && after.dx == dst % src
            &&& !inst.word ==> after.ax % 0x100 == dst / src && after.ax / 0x100 == dst % src
                && after.dx == machine.dx
        }),
{
    let q = dst / src;
    let r = dst % src;
    if inst.word {
        assert((q + r * 0x10000) % 0x10000 == q && (q + r * 0x10000) / 0x10000 == r);
    } else {
        assert((q + r * 0x100) % 0x100 == q && (q + r * 0x100) / 0x100 == r);
        assert((q + r * 0x100) % 0x10000 == q + r * 0x100);
    }
}

/// After a word multiplication DX:AX holds the product modulo 2^32; after a
/// byte multiplication AX holds the product modulo 2^16 and DX is as it
/// was.
pub proof fn lemma_multiply_packs(machine: Machine, inst: InstructionFormat, dst: u32, src: u32)
    ensures
        ({
            let product = Operation::Multiply.result(dst, src, machine.flags).unwrap();
            let after = machine.math_done(inst, product);
            &&& product == (dst * src) % 0x1_0000_0000
            &&& inst.word ==> after.dx * 0x10000 + after.ax == product
            &&& !inst.word ==> after.ax == product % 0x10000 && after.dx == machine.dx
        }),
{
}

/// The instruction that adds an immediate word to AX (opcode 0x05), with
/// the immediate in the instruction buffer: AX holds the sum modulo 2^16
/// afterwards and nothing else changes but the instruction buffer, which is
/// empty.
pub proof fn lemma_add_word_instruction(machine: Machine, low: u8, high: u8, ports: Seq<u8>)
    requires
        machine.bus == seq![low, high],
    ensures
        machine.performed(descriptor(0x05).unwrap(), ports) == Ok::<Effect, Fault>(
            Effect {
                machine: Machine {
                    ax: ((machine.ax + low + high * 0x100) % 0x10000) as u16,
                    bus: Seq::empty(),
                    ..machine
                },
                ports,
                output: None,
            },
        ),
{
    reveal(Machine::resolved);
    reveal(Machine::executed);
    reveal(Machine::category_done);
    reveal(Machine::performed);
    let inst = descriptor(0x05).unwrap();
    let rest = Machine { bus: Seq::empty(), ..machine };
    let immediate = (low + high * 0x100) as u32;
    assert(machine.bus.skip(2) =~= Seq::empty());
    assert(machine.taken(2) == Ok::<(u32, Machine), Fault>((immediate, rest)));
    assert(machine.resolved(inst) == Ok::<Resolved, Fault>(
        Resolved {
            machine: rest,
            dst: Operand::Register(RegisterId::AX),
            src: Operand::Data(immediate),
        },
    ));
    lemma_add_wraps_word(rest, RegisterId::AX, immediate);
}

/// The instruction that adds an immediate byte to AL (opcode 0x04), with
/// the immediate in the instruction buffer: the low byte of AX holds the
/// sum modulo 2^8 afterwards, and the high byte of AX is as it was.
pub proof fn lemma_add_byte_instruction(machine: Machine, immediate: u8, ports: Seq<u8>)
    requires
        machine.bus == seq![immediate],
    ensures
        machine.performed(descriptor(0x04).unwrap(), ports) == Ok::<Effect, Fault>(
            Effect {
                machine: Machine {
                    ax: ((machine.ax / 0x100) * 0x100 + (machine.ax % 0x100 + immediate) % 0x100) as u16,
                    bus: Seq::empty(),
                    ..machine
                },
                ports,
                output: None,
            },
        ),
{
    reveal(Machine::resolved);
    reveal(Machine::executed);
    reveal(Machine::category_done);
    reveal(Machine::performed);
    let inst = descriptor(0x04).unwrap();
    let rest = Machine { bus: Seq::empty(), ..machine };
    let low = Operand::SmallRegister(RegisterId::AX, false);
    assert(machine.bus.skip(1) =~= Seq::empty());
    assert(machine.taken(1) == Ok::<(u32, Machine), Fault>((immediate as u32, rest)));
    assert(machine.resolved(inst) == Ok::<Resolved, Fault>(
        Resolved { machine: rest, dst: low, src: Operand::Data(immediate as u32) },
    ));
    let sum = ((machine.ax % 0x100) as u32).wrapping_add(immediate as u32);
    assert(sum % 0x100 == (machine.ax % 0x100 + immediate) % 0x100);
    lemma_halves(machine.ax, (sum % 0x100) as int);
}

/// The descriptor of the unsigned division of DX:AX or AX by a register
/// operand: sub-code 6 of group 3.
pub open spec fn division(word: bool) -> InstructionFormat {
    resolution(
        3,
        6,
        descriptor(
            if word {
                0xF7u8
            } else {
                0xF6u8
            },
        ).unwrap(),
    ).unwrap()
}

/// The operands of the division instruction with a register as divisor,
/// with its ModRM byte in the instruction buffer: the pair DX:AX is the
/// destination value, the register is the source, and the flags record the
/// width.
pub proof fn lemma_divide_operands(machine: Machine, word: bool, rm: u8)
    requires
        rm < 8,
        machine.bus == seq![(0xF0 + rm) as u8],
    ensures
        machine.resolved(division(word)) == Ok::<Resolved, Fault>(
            Resolved {
                machine: Machine {
                    flags: Flags { res1: word, ..machine.flags },
                    reference: 6,
                    bus: Seq::empty(),
                    ..machine
                },
                dst: Operand::Data((machine.dx * 0x10000 + machine.ax) as u32),
                src: register_operand(rm, ModrmRegField::Reg, word).unwrap(),
            },
        ),
        division(word) == (InstructionFormat {
            operand_type: OperandType::ModRM(ModrmRegField::Group(0), false),
            instrution_type: InstructionType::Math,
            word,
            direction: true,
            write: true,
            execute: Some(Operation::Divide),
        }),
{
    reveal(Machine::resolved);
    reveal(Machine::executed);
    reveal(Machine::category_done);
    let inst = division(word);
    let modrm = (0xF0 + rm) as u8;
    let operand = register_operand(rm, ModrmRegField::Reg, word).unwrap();
    let rest = Machine { bus: Seq::empty(), ..machine };
    assert(modrm / 64 == 3 && modrm % 8 == rm && (modrm / 8) % 8 == 6);
    assert(machine.bus.skip(1) =~= Seq::empty());
    assert(rest.addressed(3, rm, word) == Ok::<(Operand, Machine), Fault>((operand, rest)));
    assert(machine.primary(inst) == Ok::<Resolved, Fault>(
        Resolved { machine: Machine { reference: 6, ..rest }, dst: Operand::Absent, src: operand },
    ));
}

/// What the division instruction with a register as divisor does: it
/// divides DX:AX by the register and writes the packed result to AX and DX,
/// or raises the divide fault.
pub proof fn lemma_divide_effect(machine: Machine, word: bool, rm: u8, ports: Seq<u8>)
    requires
        rm < 8,
        machine.bus == seq![(0xF0 + rm) as u8],
    ensures
        ({
            let divisor = machine.value(register_operand(rm, ModrmRegField::Reg, word).unwrap()).unwrap();
            let dividend = (machine.dx * 0x10000 + machine.ax) as u32;
            let ready = Machine {
                flags: Flags { res1: word, ..machine.flags },
                reference: 6,
                bus: Seq::empty(),
                ..machine
            };
            machine.performed(division(word), ports) == (match divided(dividend, divisor, word) {
                Some(packed) => Ok(
                    Effect {
                        machine: ready.math_done(division(word), packed),
                        ports,
                        output: None,
                    },
                ),
                None => Err(Fault::DivideError),
            })
        }),
{
    reveal(Machine::resolved);
    reveal(Machine::executed);
    reveal(Machine::category_done);
    reveal(Machine::performed);
    lemma_divide_operands(machine, word, rm);
    let operand = register_operand(rm, ModrmRegField::Reg, word).unwrap();
    let ready = Machine {
        flags: Flags { res1: word, ..machine.flags },
        reference: 6,
        bus: Seq::empty(),
        ..machine
    };
    assert(ready.value(operand) == machine.value(operand));
}

/// The division instruction with a register as divisor, with its ModRM byte
/// in the instruction buffer. A divisor of zero, or a quotient that does
/// not fit, raises the divide fault. Otherwise a word division leaves the
/// quotient in AX and the remainder in DX, and a byte division leaves the
/// quotient in the low byte of AX and the remainder in its high byte.
pub proof fn lemma_divide_instruction(machine: Machine, word: bool, rm: u8, ports: Seq<u8>)
    requires
        rm < 8,
        machine.bus == seq![(0xF0 + rm) as u8],
    ensures
        ({
            let divisor = machine.value(register_operand(rm, ModrmRegField::Reg, word).unwrap()).unwrap();
            let dividend = (machine.dx * 0x10000 + machine.ax) as u32;
            match machine.performed(division(word), ports) {
                Err(fault) => fault == Fault::DivideError && divided(dividend, divisor, word) is None,
                Ok(effect) => {
                    &&& divisor != 0
                    &&& word ==> effect.machine.ax == dividend / divisor && effect.machine.dx
                        == dividend % divisor
                    &&& !word ==> effect.machine.ax % 0x100 == dividend / divisor
                        && effect.machine.ax / 0x100 == dividend % divisor && effect.machine.dx
                        == machine.dx
                },
            }
        }),
{
    let operand = register_operand(rm, ModrmRegField::Reg, word).unwrap();
    let divisor = machine.value(operand).unwrap();
    let dividend = (machine.dx * 0x10000 + machine.ax) as u32;
    let ready = Machine {
        flags: Flags { res1: word, ..machine.flags },
        reference: 6,
        bus: Seq::empty(),
        ..machine
    };
    lemma_divide_effect(machine, word, rm, ports);
    lemma_divide_operands(machine, word, rm);
    if divided(dividend, divisor, word) is Some {
        lemma_divide_packs(ready, division(word), dividend, divisor);
    }
}

} // verus!
