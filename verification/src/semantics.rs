//! What instructions compute: a function from the destination value, the
//! source value and the flags to a result and new flags.
//!
//! Operands are widened to 32 bits before an operation is applied, and the
//! result is cut to the width of its destination when it is written back.
//! The comparison, the shifts and the rotations know the width of their
//! operands and work on the low word or the low byte alone.

use crate::fault::Fault;
use crate::flags::Flags;
use vstd::prelude::*;

verus! {

/// The condition of a jump, as a predicate on the flags.
#[derive(Clone, Copy, Debug, PartialEq, Eq, Structural)]
pub enum Condition {
    Overflow,
    NotOverflow,
    Below,
    AboveOrEqual,
    Equal,
    NotEqual,
    BelowOrEqual,
    Above,
    Sign,
    NotSign,
    ParityEven,
    ParityOdd,
    Less,
    GreaterOrEqual,
    LessOrEqual,
    Greater,
    Always,
}

impl Condition {
    /// Whether the condition holds of the flags.
    pub open spec fn holds(self, flags: Flags) -> bool {
        match self {
            Condition::Overflow => flags.overflow,
            Condition::NotOverflow => !flags.overflow,
            Condition::Below => flags.carry,
            Condition::AboveOrEqual => !flags.carry,
            Condition::Equal => flags.zero,
            Condition::NotEqual => !flags.zero,
            Condition::BelowOrEqual => flags.zero || flags.carry,
            Condition::Above => !flags.zero && !flags.carry,
            Condition::Sign => flags.sign,
            Condition::NotSign => !flags.sign,
            Condition::ParityEven => flags.parity,
            Condition::ParityOdd => !flags.parity,
            Condition::Less => flags.sign != flags.overflow,
            Condition::GreaterOrEqual => flags.sign == flags.overflow,
            Condition::LessOrEqual => flags.zero || flags.sign != flags.overflow,
            Condition::Greater => !flags.zero && flags.sign == flags.overflow,
            Condition::Always => true,
        }
    }

    /// Tests the condition on the flags.
    pub fn test(&self, flags: &Flags) -> (taken: bool)
        ensures
            taken == self.holds(*flags),
    {
        match self {
            Condition::Overflow => flags.overflow,
            Condition::NotOverflow => !flags.overflow,
            Condition::Below => flags.carry,
            Condition::AboveOrEqual => !flags.carry,
            Condition::Equal => flags.zero,
            Condition::NotEqual => !flags.zero,
            Condition::BelowOrEqual => flags.zero || flags.carry,
            Condition::Above => !flags.zero && !flags.carry,
            Condition::Sign => flags.sign,
            Condition::NotSign => !flags.sign,
            Condition::ParityEven => flags.parity,
            Condition::ParityOdd => !flags.parity,
            Condition::Less => flags.sign != flags.overflow,
            Condition::GreaterOrEqual => flags.sign == flags.overflow,
            Condition::LessOrEqual => flags.zero || flags.sign != flags.overflow,
            Condition::Greater => !flags.zero && flags.sign == flags.overflow,
            Condition::Always => true,
        }
    }
}

/// A shift or a rotation.
#[derive(Clone, Copy, Debug, PartialEq, Eq, Structural)]
pub enum Shift {
    /// Rotation to the left: the highest bit goes to the lowest place and
    /// to the carry flag.
    RotateLeft,
    /// Rotation to the right: the lowest bit goes to the highest place and
    /// to the carry flag.
    RotateRight,
    /// Rotation to the left through the carry flag: the carry flag goes to
    /// the lowest place and the highest bit to the carry flag.
    RotateCarryLeft,
    /// Rotation to the right through the carry flag: the carry flag goes
    /// to the highest place and the lowest bit to the carry flag.
    RotateCarryRight,
    /// Shift to the left: zero enters and the highest bit goes to the
    /// carry flag.
    ShiftLeft,
    /// Shift to the right: zero enters and the lowest bit goes to the
    /// carry flag.
    ShiftRight,
    /// Shift to the right that repeats the highest bit; the lowest bit
    /// goes to the carry flag.
    ShiftArithmeticRight,
}

/// The operation of an instruction. The comparison, the pop of the flags
/// and the three flag settings change the flags; the shifts and rotations
/// change the carry flag; every other operation leaves the flags as they
/// are.
#[derive(Clone, Copy, Debug, PartialEq, Eq, Structural)]
pub enum Operation {
    /// The sum, modulo 2^32.
    Add,
    Or,
    /// The sum of both operands and the carry flag, modulo 2^32.
    AddCarry,
    /// The destination minus the source minus the carry flag, modulo 2^32.
    SubBorrow,
    And,
    /// The difference, modulo 2^32.
    Sub,
    Xor,
    /// Sets the flags from the difference of the operands, which are words
    /// if the flag is set and bytes if not, and gives zero.
    Compare(bool),
    Increment,
    Decrement,
    /// The instruction pointer moved by the signed byte displacement where
    /// the condition holds, and the destination as it is where not.
    Jump(Condition),
    /// The source, passed through.
    Source,
    /// The flags as a word.
    PushFlags,
    /// Sets the flags from the low word of the source and gives zero.
    PopFlags,
    /// Gives the carry flag this value, and zero as a result.
    SetCarry(bool),
    /// Gives the interrupt-enable flag this value, and zero as a result.
    SetInterrupt(bool),
    /// Gives the direction flag this value, and zero as a result.
    SetDirection(bool),
    /// The destination shifted or rotated by as many places as the source
    /// says, as a word if the flag is set and as a byte if not.
    Shift(Shift, bool),
    Not,
    /// Zero minus the destination, modulo 2^32.
    Negate,
    /// The product, modulo 2^32.
    Multiply,
    /// The product, modulo 2^32: in two's complement the low 32 bits of the
    /// signed product are those of the unsigned one.
    SignedMultiply,
    /// Quotient and remainder of the unsigned division, packed.
    Divide,
    /// Quotient and remainder of the signed 16-bit division, packed.
    SignedDivide,
}

/// Whether the low byte of `x` has an even number of set bits.
pub open spec fn even_parity(x: int) -> bool {
    (x % 2 + (x / 2) % 2 + (x / 4) % 2 + (x / 8) % 2 + (x / 16) % 2 + (x / 32) % 2 + (x / 64) % 2
        + (x / 128) % 2) % 2 == 0
}

/// The value of the highest bit of an operand: 2^15 for a word, 2^7 for a
/// byte.
pub open spec fn sign_bit(word: bool) -> int {
    if word {
        0x8000
    } else {
        0x80
    }
}

/// The number of bits of an operand.
pub open spec fn width_bits(word: bool) -> int {
    if word {
        16
    } else {
        8
    }
}

/// The value without its highest bit, moved one place to the left.
pub open spec fn doubled(value: int, word: bool) -> int {
    if value >= sign_bit(word) {
        (value - sign_bit(word)) * 2
    } else {
        value * 2
    }
}

/// One place of a shift or rotation: the value and the carry flag after
/// it, for a value below 2^16 (word) or 2^8 (byte).
pub open spec fn turned(kind: Shift, value: int, carry: bool, word: bool) -> (int, bool) {
    match kind {
        Shift::RotateLeft => (
            doubled(value, word) + if value >= sign_bit(word) {
                1int
            } else {
                0int
            },
            value >= sign_bit(word),
        ),
        Shift::RotateRight => (
            value / 2 + if value % 2 == 1 {
                sign_bit(word)
            } else {
                0int
            },
            value % 2 == 1,
        ),
        Shift::RotateCarryLeft => (
            doubled(value, word) + if carry {
                1int
            } else {
                0int
            },
            value >= sign_bit(word),
        ),
        Shift::RotateCarryRight => (
            value / 2 + if carry {
                sign_bit(word)
            } else {
                0int
            },
            value % 2 == 1,
        ),
        Shift::ShiftLeft => (doubled(value, word), value >= sign_bit(word)),
        Shift::ShiftRight => (value / 2, value % 2 == 1),
        Shift::ShiftArithmeticRight => (
            value / 2 + if value >= sign_bit(word) {
                sign_bit(word)
            } else {
                0int
            },
            value % 2 == 1,
        ),
    }
}

/// The value and the carry flag after `count` places of a shift or
/// rotation.
pub open spec fn repeated(kind: Shift, value: int, carry: bool, word: bool, count: nat) -> (
    int,
    bool,
)
    decreases count,
{
    if count == 0 {
        (value, carry)
    } else if count == 1 {
        turned(kind, value, carry, word)
    } else {
        let before = repeated(kind, value, carry, word, (count - 1) as nat);
        turned(kind, before.0, before.1, word)
    }
}

/// The low word or the low byte of `value`.
pub open spec fn cut(value: u32, word: bool) -> int {
    if word {
        (value % 0x10000) as int
    } else {
        (value % 0x100) as int
    }
}

/// The number of places that a count stands for. A rotation repeats
/// after as many places as the operand has bits, and a rotation through
/// carry after one more; a shift changes nothing more after one place more
/// than the operand has bits.
pub open spec fn places(kind: Shift, count: u32, word: bool) -> nat {
    match kind {
        Shift::RotateLeft | Shift::RotateRight => if count == 0 {
            0
        } else if word {
            ((count - 1) % 16 + 1) as nat
        } else {
            ((count - 1) % 8 + 1) as nat
        },
        Shift::RotateCarryLeft | Shift::RotateCarryRight => if word {
            (count % 17) as nat
        } else {
            (count % 9) as nat
        },
        _ => if word {
            if count > 17 {
                17
            } else {
                count as nat
            }
        } else {
            if count > 9 {
                9
            } else {
                count as nat
            }
        },
    }
}

/// The operand as the instruction sees it and the carry flag after the
/// shift or rotation of `dst` by `count` places.
pub open spec fn shifted(kind: Shift, dst: u32, count: u32, word: bool, carry: bool) -> (
    int,
    bool,
) {
    repeated(kind, cut(dst, word), carry, word, places(kind, count, word))
}

/// The 16-bit instruction pointer `ip` moved by the low byte of
/// `displacement`, read as a signed number, modulo 2^16.
pub open spec fn branch_target(ip: u32, displacement: u32) -> u32 {
    let base = ip % 0x10000;
    let d = displacement % 0x100;
    if d < 0x80 {
        ((base + d) % 0x10000) as u32
    } else {
        ((base + d + 0xFF00) % 0x10000) as u32
    }
}

/// The largest value plus one of a half destination: 2^16 for a word
/// operation, 2^8 for a byte operation.
pub open spec fn half_limit(word: bool) -> int {
    if word {
        0x10000
    } else {
        0x100
    }
}

/// Quotient and remainder of `dst / src`, the quotient in the low half and
/// the remainder in the high half of the result. There is none where the
/// divisor is zero or where either does not fit its half.
pub open spec fn divided(dst: u32, src: u32, word: bool) -> Option<u32> {
    if src == 0 {
        None
    } else if dst / src >= half_limit(word) || dst % src >= half_limit(word) {
        None
    } else {
        Some((dst / src + (dst % src) * half_limit(word)) as u32)
    }
}

/// The low 16 bits of `x` read as a signed number: whether it is negative.
pub open spec fn negative16(x: u32) -> bool {
    x % 0x10000 >= 0x8000
}

/// The low 16 bits of `x` read as a signed number: its absolute value.
pub open spec fn magnitude16(x: u32) -> int {
    if negative16(x) {
        0x10000 - x % 0x10000
    } else {
        (x % 0x10000) as int
    }
}

/// Whether the number with this sign and absolute value can be written in
/// two's complement in a half destination.
pub open spec fn fits_signed(negative: bool, magnitude: int, word: bool) -> bool {
    if negative {
        2 * magnitude <= half_limit(word)
    } else {
        2 * magnitude < half_limit(word)
    }
}

/// The two's complement form, in a half destination, of the number with
/// this sign and absolute value.
pub open spec fn two_complement(negative: bool, magnitude: int, word: bool) -> int {
    if negative && magnitude > 0 {
        half_limit(word) - magnitude
    } else {
        magnitude
    }
}

/// Quotient and remainder of the signed division of the low 16 bits of
/// `dst` by the low 16 bits of `src`, packed as `divided` packs them. The
/// quotient is rounded towards zero and the remainder has the sign of the
/// dividend. There is none where the divisor is zero or where either does
/// not fit its half.
pub open spec fn divided_signed(dst: u32, src: u32, word: bool) -> Option<u32> {
    if magnitude16(src) == 0 {
        None
    } else {
        let q = magnitude16(dst) / magnitude16(src);
        let r = magnitude16(dst) % magnitude16(src);
        let q_negative = negative16(dst) != negative16(src);
        let r_negative = negative16(dst);
        if !fits_signed(q_negative, q, word) || !fits_signed(r_negative, r, word) {
            None
        } else {
            Some(
                (two_complement(q_negative, q, word) + two_complement(r_negative, r, word)
                    * half_limit(word)) as u32,
            )
        }
    }
}

/// The difference of two operands of the same width, modulo 2^16 (word) or
/// 2^8 (byte).
pub open spec fn difference(dst: u32, src: u32, word: bool) -> int {
    let a = cut(dst, word);
    let b = cut(src, word);
    if a >= b {
        a - b
    } else {
        a - b + half_limit(word)
    }
}

/// The flags after a comparison of `dst` with `src`, both cut to the width
/// of the operands. The carry flag tells that the subtraction borrows and
/// the auxiliary flag that it borrows from the fifth bit; the zero and
/// sign flags describe the difference; the parity flag tells that the low
/// byte of the difference has an even number of set bits; the overflow
/// flag tells that the signed difference does not fit the width.
pub open spec fn compared(dst: u32, src: u32, word: bool, flags: Flags) -> Flags {
    let a = cut(dst, word);
    let b = cut(src, word);
    let d = difference(dst, src, word);
    Flags {
        carry: a < b,
        parity: even_parity(d),
        auxilarity: a % 16 < b % 16,
        zero: d == 0,
        sign: d >= sign_bit(word),
        overflow: (a >= sign_bit(word)) != (b >= sign_bit(word)) && (d >= sign_bit(word)) != (a
            >= sign_bit(word)),
        ..flags
    }
}

/// The value one for a set flag, zero for a clear one.
pub open spec fn flag_value(set: bool) -> u32 {
    if set {
        1
    } else {
        0
    }
}

impl Operation {
    /// The value that the operation computes, or the fault that it raises.
    pub open spec fn result(self, dst: u32, src: u32, flags: Flags) -> Result<u32, Fault> {
        match self {
            Operation::Add => Ok(dst.wrapping_add(src)),
            Operation::Or => Ok(dst | src),
            Operation::AddCarry => Ok(dst.wrapping_add(src.wrapping_add(flag_value(flags.carry)))),
            Operation::SubBorrow => Ok(
                dst.wrapping_sub(src).wrapping_sub(flag_value(flags.carry)),
            ),
            Operation::And => Ok(dst & src),
            Operation::Sub => Ok(dst.wrapping_sub(src)),
            Operation::Xor => Ok(dst ^ src),
            Operation::Compare(_) => Ok(0),
            Operation::Increment => Ok(dst.wrapping_add(1)),
            Operation::Decrement => Ok(dst.wrapping_sub(1)),
            Operation::Jump(condition) => Ok(
                if condition.holds(flags) {
                    branch_target(dst, src)
                } else {
                    dst
                },
            ),
            Operation::Source => Ok(src),
            Operation::PushFlags => Ok(flags.encoding() as u32),
            Operation::PopFlags => Ok(0),
            Operation::SetCarry(_) => Ok(0),
            Operation::SetInterrupt(_) => Ok(0),
            Operation::SetDirection(_) => Ok(0),
            Operation::Shift(kind, word) => Ok(shifted(kind, dst, src, word, flags.carry).0 as u32),
            Operation::Not => Ok(!dst),
            Operation::Negate => Ok(0u32.wrapping_sub(dst)),
            Operation::Multiply => Ok(dst.wrapping_mul(src)),
            Operation::SignedMultiply => Ok(dst.wrapping_mul(src)),
            Operation::Divide => match divided(dst, src, flags.res1) {
                Some(packed) => Ok(packed),
                None => Err(Fault::DivideError),
            },
            Operation::SignedDivide => match divided_signed(dst, src, flags.res1) {
                Some(packed) => Ok(packed),
                None => Err(Fault::DivideError),
            },
        }
    }

    /// The flags after the operation.
    pub open spec fn flags_after(self, dst: u32, src: u32, flags: Flags) -> Flags {
        match self {
            Operation::Compare(word) => compared(dst, src, word, flags),
            Operation::Shift(kind, word) => Flags {
                carry: shifted(kind, dst, src, word, flags.carry).1,
                ..flags
            },
            Operation::PopFlags => Flags::decoded((src % 0x10000) as u16),
            Operation::SetCarry(value) => Flags { carry: value, ..flags },
            Operation::SetInterrupt(value) => Flags { interrupt: value, ..flags },
            Operation::SetDirection(value) => Flags { direction: value, ..flags },
            _ => flags,
        }
    }

    /// Applies the operation to the widened operands and updates the flags.
    pub fn apply(&self, dst: u32, src: u32, flags: &mut Flags) -> (res: Result<u32, Fault>)
        ensures
            res == self.result(dst, src, *old(flags)),
            *final(flags) == self.flags_after(dst, src, *old(flags)),
    {
        match self {
            Operation::Add => Ok(dst.wrapping_add(src)),
            Operation::Or => Ok(dst | src),
            Operation::AddCarry => Ok(dst.wrapping_add(src.wrapping_add(carry_value(flags)))),
            Operation::SubBorrow => Ok(dst.wrapping_sub(src).wrapping_sub(carry_value(flags))),
            Operation::And => Ok(dst & src),
            Operation::Sub => Ok(dst.wrapping_sub(src)),
            Operation::Xor => Ok(dst ^ src),
            Operation::Compare(word) => {
                *flags = compare(dst, src, *word, flags);
                Ok(0)
            },
            Operation::Increment => Ok(dst.wrapping_add(1)),
            Operation::Decrement => Ok(dst.wrapping_sub(1)),
            Operation::Jump(condition) => {
                if condition.test(flags) {
                    Ok(jump_target(dst, src))
                } else {
                    Ok(dst)
                }
            },
            Operation::Source => Ok(src),
            Operation::PushFlags => {
                let word: u16 = flags.as_word();
                Ok(word as u32)
            },
            Operation::PopFlags => {
                flags.set((src % 0x10000) as u16);
                Ok(0)
            },
            Operation::SetCarry(value) => {
                *flags = Flags { carry: *value, ..*flags };
                Ok(0)
            },
            Operation::SetInterrupt(value) => {
                *flags = Flags { interrupt: *value, ..*flags };
                Ok(0)
            },
            Operation::SetDirection(value) => {
                *flags = Flags { direction: *value, ..*flags };
                Ok(0)
            },
            Operation::Shift(kind, word) => {
                let (value, carry) = shift(*kind, dst, src, *word, flags.carry);
                *flags = Flags { carry, ..*flags };
                Ok(value)
            },
            Operation::Not => Ok(!dst),
            Operation::Negate => Ok(0u32.wrapping_sub(dst)),
            Operation::Multiply => Ok(dst.wrapping_mul(src)),
            Operation::SignedMultiply => Ok(dst.wrapping_mul(src)),
            Operation::Divide => match divide(dst, src, flags.res1) {
                Some(packed) => Ok(packed),
                None => Err(Fault::DivideError),
            },
            Operation::SignedDivide => match divide_signed(dst, src, flags.res1) {
                Some(packed) => Ok(packed),
                None => Err(Fault::DivideError),
            },
        }
    }
}

fn carry_value(flags: &Flags) -> (value: u32)
    ensures
        value == flag_value(flags.carry),
{
    if flags.carry {
        1
    } else {
        0
    }
}

/// Whether the low byte of `x` has an even number of set bits.
pub fn has_even_parity(x: u32) -> (even: bool)
    ensures
        even == even_parity(x as int),
{
    (x % 2 + (x / 2) % 2 + (x / 4) % 2 + (x / 8) % 2 + (x / 16) % 2 + (x / 32) % 2 + (x / 64) % 2
        + (x / 128) % 2) % 2 == 0
}

/// The flags after a comparison of `dst` with `src` as words or as bytes.
pub fn compare(dst: u32, src: u32, word: bool, flags: &Flags) -> (after: Flags)
    ensures
        after == compared(dst, src, word, *flags),
{
    let limit: u32 = if word {
        0x10000
    } else {
        0x100
    };
    let sign: u32 = limit / 2;
    let a: u32 = dst % limit;
    let b: u32 = src % limit;
    let d: u32 = if a >= b {
        a - b
    } else {
        a + limit - b
    };
    Flags {
        carry: a < b,
        parity: has_even_parity(d),
        auxilarity: a % 16 < b % 16,
        zero: d == 0,
        sign: d >= sign,
        overflow: (a >= sign) != (b >= sign) && (d >= sign) != (a >= sign),
        ..*flags
    }
}

/// Makes one place of a shift or rotation.
fn turn(kind: Shift, value: u32, carry: bool, word: bool) -> (after: (u32, bool))
    requires
        value < half_limit(word),
    ensures
        (after.0 as int, after.1) == turned(kind, value as int, carry, word),
        after.0 < half_limit(word),
{
    let sign: u32 = if word {
        0x8000
    } else {
        0x80
    };
    let top: bool = value >= sign;
    let low: bool = value % 2 == 1;
    let doubled: u32 = if top {
        (value - sign) * 2
    } else {
        value * 2
    };
    match kind {
        Shift::RotateLeft => (
            doubled + if top {
                1
            } else {
                0
            },
            top,
        ),
        Shift::RotateRight => (
            value / 2 + if low {
                sign
            } else {
                0
            },
            low,
        ),
        Shift::RotateCarryLeft => (
            doubled + if carry {
                1
            } else {
                0
            },
            top,
        ),
        Shift::RotateCarryRight => (
            value / 2 + if carry {
                sign
            } else {
                0
            },
            low,
        ),
        Shift::ShiftLeft => (doubled, top),
        Shift::ShiftRight => (value / 2, low),
        Shift::ShiftArithmeticRight => (
            value / 2 + if top {
                sign
            } else {
                0
            },
            low,
        ),
    }
}

/// Shifts or rotates `dst`, as a word or as a byte, by `count` places, and
/// gives the value and the carry flag after it.
pub fn shift(kind: Shift, dst: u32, count: u32, word: bool, carry: bool) -> (after: (u32, bool))
    ensures
        (after.0 as int, after.1) == shifted(kind, dst, count, word, carry),
        after.0 < half_limit(word),
{
    let limit: u32 = if word {
        0x10000
    } else {
        0x100
    };
    let bits: u32 = if word {
        16
    } else {
        8
    };
    let places: u32 = match kind {
        Shift::RotateLeft | Shift::RotateRight => if count == 0 {
            0
        } else {
            (count - 1) % bits + 1
        },
        Shift::RotateCarryLeft | Shift::RotateCarryRight => count % (bits + 1),
        _ => if count > bits + 1 {
            bits + 1
        } else {
            count
        },
    };
    let start: u32 = dst % limit;
    let mut value: u32 = start;
    let mut flag: bool = carry;
    let mut i: u32 = 0;
    while i < places
        invariant
            i <= places,
            value < half_limit(word),
            (value as int, flag) == repeated(kind, start as int, carry, word, i as nat),
        decreases places - i,
    {
        let (next, out) = turn(kind, value, flag, word);
        value = next;
        flag = out;
        i = i + 1;
    }
    (value, flag)
}

/// Moves the 16-bit instruction pointer `ip` by the low byte of
/// `displacement`, read as a signed number.
pub fn jump_target(ip: u32, displacement: u32) -> (target: u32)
    ensures
        target == branch_target(ip, displacement),
        target < 0x10000,
{
    let base: u32 = ip % 0x10000;
    let d: u32 = displacement % 0x100;
    if d < 0x80 {
        (base + d) % 0x10000
    } else {
        (base + d + 0xFF00) % 0x10000
    }
}

/// Divides `dst` by `src` and packs quotient and remainder: the quotient in
/// the low 16 bits and the remainder above it for a word operation, the
/// quotient in the low 8 bits and the remainder in the next 8 for a byte
/// operation.
pub fn divide(dst: u32, src: u32, word: bool) -> (packed: Option<u32>)
    ensures
        packed == divided(dst, src, word),
        src == 0 ==> packed is None,
        packed matches Some(p) ==> p % (half_limit(word) as u32) == dst / src && p / (half_limit(
            word,
        ) as u32) == dst % src,
{
    if src == 0 {
        return None;
    }
    let limit: u32 = if word {
        0x10000
    } else {
        0x100
    };
    let q: u32 = dst / src;
    let r: u32 = dst % src;
    if q >= limit || r >= limit {
        None
    } else if word {
        assert((q + r * 0x10000) % 0x10000 == q && (q + r * 0x10000) / 0x10000 == r);
        Some(q + r * 0x10000)
    } else {
        assert((q + r * 0x100) % 0x100 == q && (q + r * 0x100) / 0x100 == r);
        Some(q + r * 0x100)
    }
}

fn magnitude_of(x: u32) -> (parts: (bool, u32))
    ensures
        parts.0 == negative16(x),
        parts.1 == magnitude16(x),
        parts.1 <= 0x8000,
{
    let low: u32 = x % 0x10000;
    if low >= 0x8000 {
        (true, 0x10000 - low)
    } else {
        (false, low)
    }
}

fn encode_signed(negative: bool, magnitude: u32, word: bool) -> (encoded: Option<u32>)
    requires
        magnitude <= 0x8000,
    ensures
        encoded is Some == fits_signed(negative, magnitude as int, word),
        encoded matches Some(e) ==> e == two_complement(negative, magnitude as int, word) && e
            < half_limit(word),
{
    let limit: u32 = if word {
        0x10000
    } else {
        0x100
    };
    if negative {
        if 2 * magnitude <= limit {
            if magnitude > 0 {
                Some(limit - magnitude)
            } else {
                Some(0)
            }
        } else {
            None
        }
    } else if 2 * magnitude < limit {
        Some(magnitude)
    } else {
        None
    }
}

/// Divides the low 16 bits of `dst` by the low 16 bits of `src`, both read
/// as signed numbers, and packs quotient and remainder as `divide` does.
pub fn divide_signed(dst: u32, src: u32, word: bool) -> (packed: Option<u32>)
    ensures
        packed == divided_signed(dst, src, word),
        src % 0x10000 == 0 ==> packed is None,
{
    let (dst_negative, dst_magnitude) = magnitude_of(dst);
    let (src_negative, src_magnitude) = magnitude_of(src);
    if src_magnitude == 0 {
        return None;
    }
    let q: u32 = dst_magnitude / src_magnitude;
    let r: u32 = dst_magnitude % src_magnitude;
    let low = encode_signed(dst_negative != src_negative, q, word);
    let high = encode_signed(dst_negative, r, word);
    match (low, high) {
        (Some(l), Some(h)) => if word {
            Some(l + h * 0x10000)
        } else {
            Some(l + h * 0x100)
        },
        _ => None,
    }
}

} // verus!
