use emu8086::fault::Fault;
use emu8086::flags::Flags;
use emu8086::semantics::{
    compare, divide, divide_signed, has_even_parity, jump_target, shift, Condition, Operation,
    Shift,
};

fn apply(operation: Operation, dst: u32, src: u32) -> (Result<u32, Fault>, Flags) {
    let mut flags = Flags::default();
    let result = operation.apply(dst, src, &mut flags);
    (result, flags)
}

#[test]
fn add_wraps_at_32_bits() {
    assert_eq!(apply(Operation::Add, 3, 2).0, Ok(5));
    assert_eq!(apply(Operation::Add, 0xFFFF_FFFF, 2).0, Ok(1));
}

#[test]
fn logic_operations() {
    assert_eq!(apply(Operation::Or, 0x0F0, 0x00F).0, Ok(0x0FF));
    assert_eq!(apply(Operation::And, 0x0FC, 0x03F).0, Ok(0x03C));
    assert_eq!(apply(Operation::Xor, 0x0FF, 0x00F).0, Ok(0x0F0));
    assert_eq!(apply(Operation::Not, 0x0000_FFFF, 0).0, Ok(0xFFFF_0000));
}

#[test]
fn subtraction_wraps() {
    assert_eq!(apply(Operation::Sub, 5, 3).0, Ok(2));
    assert_eq!(apply(Operation::Sub, 3, 5).0, Ok(0xFFFF_FFFE));
    assert_eq!(apply(Operation::Negate, 1, 0).0, Ok(0xFFFF_FFFF));
    assert_eq!(apply(Operation::Negate, 0, 0).0, Ok(0));
}

#[test]
fn carry_enters_the_sum() {
    let mut flags = Flags::default();
    flags.carry = true;
    assert_eq!(Operation::AddCarry.apply(3, 2, &mut flags), Ok(6));
    assert_eq!(Operation::SubBorrow.apply(10, 3, &mut flags), Ok(6));
    assert_eq!(Operation::SubBorrow.apply(0, 0, &mut flags), Ok(0xFFFF_FFFF));
    flags.carry = false;
    assert_eq!(Operation::AddCarry.apply(3, 2, &mut flags), Ok(5));
    assert_eq!(Operation::SubBorrow.apply(10, 3, &mut flags), Ok(7));
}

#[test]
fn increment_and_decrement() {
    assert_eq!(apply(Operation::Increment, 5, 99).0, Ok(6));
    assert_eq!(apply(Operation::Decrement, 5, 99).0, Ok(4));
    assert_eq!(apply(Operation::Decrement, 0, 0).0, Ok(0xFFFF_FFFF));
}

#[test]
fn compare_sets_flags_and_gives_zero() {
    let (result, flags) = apply(Operation::Compare(true), 5, 5);
    assert_eq!(result, Ok(0));
    assert!(flags.zero);
    assert!(!flags.carry);
    assert!(!flags.sign);
    assert!(flags.parity);
    assert!(!flags.auxilarity);
    assert!(!flags.overflow);

    // 3 - 5 is FFFEh as a word: it borrows, and the low byte FEh has seven bits set.
    let (result, flags) = apply(Operation::Compare(true), 3, 5);
    assert_eq!(result, Ok(0));
    assert!(!flags.zero);
    assert!(flags.carry);
    assert!(flags.sign);
    assert!(!flags.overflow);
    assert!(!flags.parity);
    assert!(flags.auxilarity);

    let (_, flags) = apply(Operation::Compare(true), 7, 4);
    assert!(!flags.zero);
    assert!(!flags.carry);
    assert!(!flags.sign);
    // 3 has two bits set.
    assert!(flags.parity);
    assert!(!flags.auxilarity);
}

#[test]
fn compare_works_at_the_width_of_the_operands() {
    // As bytes 180h and 80h are equal, as words they are not.
    let (_, flags) = apply(Operation::Compare(false), 0x180, 0x80);
    assert!(flags.zero);
    assert!(!flags.sign);
    let (_, flags) = apply(Operation::Compare(true), 0x180, 0x80);
    assert!(!flags.zero);
    // 80h - 1 = 7Fh: the signed byte -128 minus 1 does not fit a byte.
    let (_, flags) = apply(Operation::Compare(false), 0x80, 0x01);
    assert!(flags.overflow);
    assert!(!flags.sign);
    assert!(!flags.carry);
    assert!(flags.auxilarity);
    // As words 0080h - 1 = 007Fh fits.
    let (_, flags) = apply(Operation::Compare(true), 0x80, 0x01);
    assert!(!flags.overflow);
    // 7Fh - FFh = 80h: 127 minus -1 does not fit a byte, and it borrows.
    let (_, flags) = apply(Operation::Compare(false), 0x7F, 0xFF);
    assert!(flags.overflow);
    assert!(flags.sign);
    assert!(flags.carry);
    // 8000h - 1 = 7FFFh overflows as a word.
    let (_, flags) = apply(Operation::Compare(true), 0x8000, 0x0001);
    assert!(flags.overflow);
    assert!(!flags.sign);
    // The parity is that of the low byte: 0100h - 0 has a low byte of zero.
    let (_, flags) = apply(Operation::Compare(true), 0x0100, 0);
    assert!(flags.parity);
    assert!(!flags.zero);
    let before = Flags::default();
    assert_eq!(compare(5, 5, true, &before).zero, true);
    assert_eq!(compare(5, 5, true, &before).trap, false);
}

#[test]
fn parity_counts_the_low_byte() {
    assert!(has_even_parity(0));
    assert!(!has_even_parity(1));
    assert!(has_even_parity(3));
    assert!(has_even_parity(0xFF));
    assert!(!has_even_parity(0x7F));
    assert!(has_even_parity(0x8000_0000));
    assert!(has_even_parity(0x0100));
    assert!(!has_even_parity(0xFF01));
}

#[test]
fn jump_moves_by_signed_byte() {
    assert_eq!(jump_target(0x0100, 0x05), 0x0105);
    assert_eq!(jump_target(0x0100, 0xFE), 0x00FE);
    assert_eq!(jump_target(0x0000, 0xFF), 0xFFFF);
    assert_eq!(jump_target(0xFFFF, 0x01), 0x0000);
    assert_eq!(jump_target(0x0100, 0x80), 0x0080);
    assert_eq!(jump_target(0x0100, 0x7F), 0x017F);
}

#[test]
fn conditional_jump_taken_and_not_taken() {
    let mut flags = Flags::default();
    assert_eq!(Operation::Jump(Condition::Equal).apply(0x200, 0x10, &mut flags), Ok(0x200));
    flags.zero = true;
    assert_eq!(Operation::Jump(Condition::Equal).apply(0x200, 0x10, &mut flags), Ok(0x210));
    assert_eq!(Operation::Jump(Condition::NotEqual).apply(0x200, 0x10, &mut flags), Ok(0x200));
    assert_eq!(Operation::Jump(Condition::Always).apply(0x200, 0xF0, &mut flags), Ok(0x1F0));
}

#[test]
fn every_condition_reads_its_flags() {
    let clear = Flags::default();
    let mut flags = Flags::default();
    assert!(!Condition::Overflow.test(&clear));
    assert!(Condition::NotOverflow.test(&clear));
    assert!(!Condition::Below.test(&clear));
    assert!(Condition::AboveOrEqual.test(&clear));
    assert!(!Condition::Equal.test(&clear));
    assert!(Condition::NotEqual.test(&clear));
    assert!(!Condition::BelowOrEqual.test(&clear));
    assert!(Condition::Above.test(&clear));
    assert!(!Condition::Sign.test(&clear));
    assert!(Condition::NotSign.test(&clear));
    assert!(!Condition::ParityEven.test(&clear));
    assert!(Condition::ParityOdd.test(&clear));
    assert!(!Condition::Less.test(&clear));
    assert!(Condition::GreaterOrEqual.test(&clear));
    assert!(!Condition::LessOrEqual.test(&clear));
    assert!(Condition::Greater.test(&clear));
    assert!(Condition::Always.test(&clear));
    flags.overflow = true;
    assert!(Condition::Overflow.test(&flags));
    assert!(Condition::Less.test(&flags));
    assert!(!Condition::GreaterOrEqual.test(&flags));
    assert!(Condition::LessOrEqual.test(&flags));
    assert!(!Condition::Greater.test(&flags));
    flags.sign = true;
    assert!(Condition::Sign.test(&flags));
    assert!(!Condition::Less.test(&flags));
    assert!(Condition::Greater.test(&flags));
    flags.zero = true;
    assert!(Condition::Equal.test(&flags));
    assert!(Condition::BelowOrEqual.test(&flags));
    assert!(!Condition::Above.test(&flags));
    assert!(Condition::LessOrEqual.test(&flags));
    assert!(!Condition::Greater.test(&flags));
    flags.zero = false;
    flags.carry = true;
    assert!(Condition::Below.test(&flags));
    assert!(Condition::BelowOrEqual.test(&flags));
    assert!(!Condition::Above.test(&flags));
    flags.parity = true;
    assert!(Condition::ParityEven.test(&flags));
    assert!(!Condition::ParityOdd.test(&flags));
}

#[test]
fn flag_operations() {
    let (result, flags) = apply(Operation::SetCarry(true), 1, 2);
    assert_eq!(result, Ok(0));
    assert!(flags.carry);
    let (_, flags) = apply(Operation::SetInterrupt(true), 1, 2);
    assert!(flags.interrupt);
    let (_, flags) = apply(Operation::SetDirection(true), 1, 2);
    assert!(flags.direction);
    let mut flags = Flags::default();
    flags.carry = true;
    assert_eq!(Operation::SetCarry(false).apply(0, 0, &mut flags), Ok(0));
    assert!(!flags.carry);
}

#[test]
fn push_and_pop_flags() {
    let mut flags = Flags::default();
    flags.carry = true;
    flags.zero = true;
    assert_eq!(Operation::PushFlags.apply(0, 0, &mut flags), Ok(0x0041));
    assert_eq!(Operation::PopFlags.apply(0, 0x1_0880, &mut flags), Ok(0));
    assert_eq!(flags.as_word(), 0x0880);
}

#[test]
fn source_is_passed_through() {
    assert_eq!(apply(Operation::Source, 1, 0x1234_5678).0, Ok(0x1234_5678));
}

fn turn(kind: Shift, word: bool, dst: u32, count: u32, carry: bool) -> (u32, bool) {
    let mut flags = Flags::default();
    flags.carry = carry;
    flags.zero = true;
    let result = Operation::Shift(kind, word).apply(dst, count, &mut flags).unwrap();
    // Only the carry flag is touched.
    assert!(flags.zero);
    assert!(!flags.sign);
    assert_eq!(shift(kind, dst, count, word, carry), (result, flags.carry));
    (result, flags.carry)
}

#[test]
fn rotations_stay_inside_the_operand() {
    assert_eq!(turn(Shift::RotateLeft, true, 0x8000, 1, false), (0x0001, true));
    assert_eq!(turn(Shift::RotateLeft, true, 0x1234, 4, true), (0x2341, true));
    assert_eq!(turn(Shift::RotateLeft, true, 0x1234, 0, true), (0x1234, true));
    assert_eq!(turn(Shift::RotateLeft, true, 0x1234, 16, false), (0x1234, false));
    assert_eq!(turn(Shift::RotateLeft, true, 0x1235, 16, false), (0x1235, true));
    assert_eq!(turn(Shift::RotateLeft, true, 0x1234, 20, false), (0x2341, true));
    assert_eq!(turn(Shift::RotateLeft, false, 0x81, 1, false), (0x03, true));
    assert_eq!(turn(Shift::RotateLeft, false, 0x1281, 1, false), (0x03, true));
    assert_eq!(turn(Shift::RotateRight, true, 0x0001, 1, false), (0x8000, true));
    assert_eq!(turn(Shift::RotateRight, true, 0x1234, 4, false), (0x4123, false));
    assert_eq!(turn(Shift::RotateRight, false, 0x01, 1, false), (0x80, true));
    assert_eq!(turn(Shift::RotateRight, false, 0x12, 8, true), (0x12, false));
    assert_eq!(turn(Shift::RotateRight, false, 0x12, 0, true), (0x12, true));
}

#[test]
fn rotations_through_carry() {
    assert_eq!(turn(Shift::RotateCarryLeft, true, 1, 1, true), (3, false));
    assert_eq!(turn(Shift::RotateCarryLeft, false, 1, 1, true), (3, false));
    assert_eq!(turn(Shift::RotateCarryLeft, true, 0x8000, 1, false), (0, true));
    assert_eq!(turn(Shift::RotateCarryLeft, true, 0x8000, 2, false), (1, false));
    assert_eq!(turn(Shift::RotateCarryLeft, false, 0x80, 1, true), (0x01, true));
    // Seventeen places bring a word and the carry flag back.
    assert_eq!(turn(Shift::RotateCarryLeft, true, 0x1234, 17, true), (0x1234, true));
    assert_eq!(turn(Shift::RotateCarryLeft, false, 0x34, 9, false), (0x34, false));
    assert_eq!(turn(Shift::RotateCarryLeft, true, 0x1234, 0, true), (0x1234, true));
    assert_eq!(turn(Shift::RotateCarryRight, true, 1, 1, true), (0x8000, true));
    assert_eq!(turn(Shift::RotateCarryRight, true, 2, 1, false), (1, false));
    assert_eq!(turn(Shift::RotateCarryRight, false, 1, 1, true), (0x80, true));
    assert_eq!(turn(Shift::RotateCarryRight, false, 1, 2, false), (0x80, false));
    assert_eq!(turn(Shift::RotateCarryRight, false, 0x34, 9, true), (0x34, true));
    // To the left and back again.
    let (value, carry) = turn(Shift::RotateCarryLeft, true, 0xBEEF, 5, true);
    assert_eq!(turn(Shift::RotateCarryRight, true, value, 5, carry), (0xBEEF, true));
}

#[test]
fn shifts_lose_what_leaves_the_operand() {
    assert_eq!(turn(Shift::ShiftLeft, true, 1, 4, false), (16, false));
    assert_eq!(turn(Shift::ShiftLeft, true, 0x8001, 1, false), (0x0002, true));
    assert_eq!(turn(Shift::ShiftLeft, false, 0x81, 1, false), (0x02, true));
    assert_eq!(turn(Shift::ShiftLeft, true, 0x0001, 16, false), (0, true));
    assert_eq!(turn(Shift::ShiftLeft, true, 0x0001, 17, true), (0, false));
    assert_eq!(turn(Shift::ShiftLeft, true, 0xFFFF, 200, true), (0, false));
    assert_eq!(turn(Shift::ShiftLeft, true, 0xFFFF, 0, true), (0xFFFF, true));
    assert_eq!(turn(Shift::ShiftRight, true, 0x100, 4, false), (0x10, false));
    assert_eq!(turn(Shift::ShiftRight, true, 0x8001, 1, false), (0x4000, true));
    assert_eq!(turn(Shift::ShiftRight, false, 0x80, 8, false), (0, true));
    assert_eq!(turn(Shift::ShiftRight, false, 0x80, 9, true), (0, false));
    assert_eq!(turn(Shift::ShiftRight, false, 0xFF, 255, true), (0, false));
}

#[test]
fn arithmetic_shift_repeats_the_sign() {
    assert_eq!(turn(Shift::ShiftArithmeticRight, true, 0x8000, 1, false), (0xC000, false));
    assert_eq!(turn(Shift::ShiftArithmeticRight, true, 0x8000, 15, false), (0xFFFF, false));
    assert_eq!(turn(Shift::ShiftArithmeticRight, true, 0x8000, 16, false), (0xFFFF, true));
    assert_eq!(turn(Shift::ShiftArithmeticRight, true, 0x8000, 100, false), (0xFFFF, true));
    assert_eq!(turn(Shift::ShiftArithmeticRight, true, 0x4001, 1, false), (0x2000, true));
    assert_eq!(turn(Shift::ShiftArithmeticRight, true, 0x7FFF, 100, true), (0, false));
    assert_eq!(turn(Shift::ShiftArithmeticRight, false, 0x80, 1, false), (0xC0, false));
    assert_eq!(turn(Shift::ShiftArithmeticRight, false, 0x100, 4, false), (0, false));
    // As a byte 0080h is negative, as a word it is not.
    assert_eq!(turn(Shift::ShiftArithmeticRight, true, 0x0080, 1, false), (0x0040, false));
}

#[test]
fn multiplication_wraps() {
    assert_eq!(apply(Operation::Multiply, 7, 6).0, Ok(42));
    assert_eq!(apply(Operation::Multiply, 0x1_0000, 0x1_0000).0, Ok(0));
    assert_eq!(apply(Operation::SignedMultiply, 0xFFFF_FFFF, 2).0, Ok(0xFFFF_FFFE));
}

#[test]
fn word_division_packs_quotient_and_remainder() {
    assert_eq!(divide(100, 7, true), Some(14 + (2 << 16)));
    assert_eq!(divide(0xFFFF, 1, true), Some(0xFFFF));
    // The quotient does not fit 16 bits.
    assert_eq!(divide(0x1_0000, 1, true), None);
    let mut flags = Flags::default();
    flags.res1 = true;
    assert_eq!(Operation::Divide.apply(100, 7, &mut flags), Ok(14 + (2 << 16)));
}

#[test]
fn byte_division_packs_quotient_and_remainder() {
    assert_eq!(divide(100, 7, false), Some(14 + (2 << 8)));
    assert_eq!(divide(255, 1, false), Some(255));
    // The quotient does not fit 8 bits.
    assert_eq!(divide(256, 1, false), None);
    // The remainder does not fit 8 bits.
    assert_eq!(divide(0x1FF, 0x200, false), None);
    let mut flags = Flags::default();
    assert_eq!(Operation::Divide.apply(100, 7, &mut flags), Ok(14 + (2 << 8)));
}

#[test]
fn division_by_zero_is_a_fault() {
    assert_eq!(divide(5, 0, true), None);
    assert_eq!(divide(5, 0, false), None);
    assert_eq!(divide_signed(5, 0, true), None);
    assert_eq!(divide_signed(5, 0x1_0000, true), None);
    assert_eq!(apply(Operation::Divide, 5, 0).0, Err(Fault::DivideError));
    assert_eq!(apply(Operation::SignedDivide, 5, 0).0, Err(Fault::DivideError));
}

#[test]
fn signed_division_rounds_towards_zero() {
    // 7 / 2 = 3 remainder 1.
    assert_eq!(divide_signed(7, 2, true), Some(3 + (1 << 16)));
    // -7 / 2 = -3 remainder -1.
    assert_eq!(divide_signed(0xFFF9, 2, true), Some(0xFFFD + (0xFFFF << 16)));
    // 7 / -2 = -3 remainder 1.
    assert_eq!(divide_signed(7, 0xFFFE, true), Some(0xFFFD + (1 << 16)));
    // -7 / -2 = 3 remainder -1.
    assert_eq!(divide_signed(0xFFF9, 0xFFFE, true), Some(3 + (0xFFFF << 16)));
    // -32768 / -1 does not fit 16 bits.
    assert_eq!(divide_signed(0x8000, 0xFFFF, true), None);
    // -32768 / 1 does.
    assert_eq!(divide_signed(0x8000, 1, true), Some(0x8000));
}

#[test]
fn signed_byte_division() {
    // 7 / 2 = 3 remainder 1.
    assert_eq!(divide_signed(7, 2, false), Some(3 + (1 << 8)));
    // -7 / 2 = -3 remainder -1.
    assert_eq!(divide_signed(0xFFF9, 2, false), Some(0xFD + (0xFF << 8)));
    // 200 / 1 does not fit a signed byte.
    assert_eq!(divide_signed(200, 1, false), None);
    // -128 / 1 does.
    assert_eq!(divide_signed(0xFF80, 1, false), Some(0x80));
    assert_eq!(divide_signed(127, 1, false), Some(127));
}
