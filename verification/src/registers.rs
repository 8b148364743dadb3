//! The numeric codes by which instruction bytes and descriptors name
//! registers.

use vstd::prelude::*;

verus! {

/// Selects the high byte of a general register.
pub const HIGH_BYTE: usize = 0;

/// Selects the low byte of a general register.
pub const LOW_BYTE: usize = 1;

/// The r/m code that, with mod 00, stands for a direct address.
pub const VARIABLE: u8 = 0b110;

// Word registers.
pub const AX: u8 = 0;

pub const CX: u8 = 1;

pub const DX: u8 = 2;

pub const BX: u8 = 3;

pub const SP: u8 = 4;

pub const BP: u8 = 5;

pub const SI: u8 = 6;

pub const DI: u8 = 7;

// Byte registers.
pub const AL: u8 = 0;

pub const CL: u8 = 1;

pub const DL: u8 = 2;

pub const BL: u8 = 3;

pub const AH: u8 = 4;

pub const CH: u8 = 5;

pub const DH: u8 = 6;

pub const BH: u8 = 7;

// Segment registers, as the segment-register field of a ModRM byte names them.
pub const ES: u8 = 0;

pub const CS: u8 = 1;

pub const SS: u8 = 2;

pub const DS: u8 = 3;

// Segment registers, as a descriptor names them among the word registers.
pub const RES: u8 = 10;

pub const RCS: u8 = 11;

pub const RSS: u8 = 12;

pub const RDS: u8 = 13;

} // verus!
