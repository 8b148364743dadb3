//! The flags register: sixteen named bits and their packing into a word.

use vstd::prelude::*;

verus! {

/// Whether bit `i` of the word `w` is set.
#[verifier::opaque]
pub open spec fn bit(w: u16, i: u16) -> bool {
    (w >> i) & 1 == 1
}

/// The word that holds `mask` when `set` is true, and nothing otherwise.
pub open spec fn masked(set: bool, mask: u16) -> u16 {
    if set {
        mask
    } else {
        0
    }
}

/// The word whose bit `i` is `b_i`, for the sixteen positions.
#[verifier::opaque]
pub open spec fn pack(
    b0: bool,
    b1: bool,
    b2: bool,
    b3: bool,
    b4: bool,
    b5: bool,
    b6: bool,
    b7: bool,
    b8: bool,
    b9: bool,
    b10: bool,
    b11: bool,
    b12: bool,
    b13: bool,
    b14: bool,
    b15: bool,
) -> u16 {
    masked(b0, 0x0001) | masked(b1, 0x0002) | masked(b2, 0x0004) | masked(b3, 0x0008) | masked(
        b4,
        0x0010,
    ) | masked(b5, 0x0020) | masked(b6, 0x0040) | masked(b7, 0x0080) | masked(b8, 0x0100) | masked(
        b9,
        0x0200,
    ) | masked(b10, 0x0400) | masked(b11, 0x0800) | masked(b12, 0x1000) | masked(b13, 0x2000)
        | masked(b14, 0x4000) | masked(b15, 0x8000)
}

/// Packing the sixteen bits of a word gives the word back.
pub proof fn lemma_pack_bits(w: u16)
    by (bit_vector)
    ensures
        pack(
            bit(w, 0),
            bit(w, 1),
            bit(w, 2),
            bit(w, 3),
            bit(w, 4),
            bit(w, 5),
            bit(w, 6),
            bit(w, 7),
            bit(w, 8),
            bit(w, 9),
            bit(w, 10),
            bit(w, 11),
            bit(w, 12),
            bit(w, 13),
            bit(w, 14),
            bit(w, 15),
        ) == w,
{
}

/// Each bit of a packed word is the boolean that was packed at its position.
pub proof fn lemma_bits_of_pack(
    b0: bool,
    b1: bool,
    b2: bool,
    b3: bool,
    b4: bool,
    b5: bool,
    b6: bool,
    b7: bool,
    b8: bool,
    b9: bool,
    b10: bool,
    b11: bool,
    b12: bool,
    b13: bool,
    b14: bool,
    b15: bool,
)
    by (bit_vector)
    ensures
        ({
            let w = pack(b0, b1, b2, b3, b4, b5, b6, b7, b8, b9, b10, b11, b12, b13, b14, b15);
            &&& bit(w, 0) == b0
            &&& bit(w, 1) == b1
            &&& bit(w, 2) == b2
            &&& bit(w, 3) == b3
            &&& bit(w, 4) == b4
            &&& bit(w, 5) == b5
            &&& bit(w, 6) == b6
            &&& bit(w, 7) == b7
            &&& bit(w, 8) == b8
            &&& bit(w, 9) == b9
            &&& bit(w, 10) == b10
            &&& bit(w, 11) == b11
            &&& bit(w, 12) == b12
            &&& bit(w, 13) == b13
            &&& bit(w, 14) == b14
            &&& bit(w, 15) == b15
        }),
{
}

/// The status word of the processor, one boolean per bit.
///
/// Bit 0 is `carry` and bit 15 is `res4`; the fields are declared in the
/// order of their bits. `res1` (bit 1) tells the multiply and divide
/// operations whether they work on words (`true`) or on bytes.
#[derive(Clone, Copy, Debug, PartialEq, Eq, Structural)]
pub struct Flags {
    pub carry: bool,
    pub res1: bool,
    pub parity: bool,
    pub res2: bool,
    pub auxilarity: bool,
    pub res3: bool,
    pub zero: bool,
    pub sign: bool,
    pub trap: bool,
    pub interrupt: bool,
    pub direction: bool,
    pub overflow: bool,
    pub io_privilege_low: bool,
    pub io_privilege_high: bool,
    pub nested_task: bool,
    pub res4: bool,
}

impl Flags {
    /// The word that encodes these flags.
    pub open spec fn encoding(self) -> u16 {
        pack(
            self.carry,
            self.res1,
            self.parity,
            self.res2,
            self.auxilarity,
            self.res3,
            self.zero,
            self.sign,
            self.trap,
            self.interrupt,
            self.direction,
            self.overflow,
            self.io_privilege_low,
            self.io_privilege_high,
            self.nested_task,
            self.res4,
        )
    }

    /// The flags that the word `w` encodes.
    pub open spec fn decoded(w: u16) -> Flags {
        Flags {
            carry: bit(w, 0),
            res1: bit(w, 1),
            parity: bit(w, 2),
            res2: bit(w, 3),
            auxilarity: bit(w, 4),
            res3: bit(w, 5),
            zero: bit(w, 6),
            sign: bit(w, 7),
            trap: bit(w, 8),
            interrupt: bit(w, 9),
            direction: bit(w, 10),
            overflow: bit(w, 11),
            io_privilege_low: bit(w, 12),
            io_privilege_high: bit(w, 13),
            nested_task: bit(w, 14),
            res4: bit(w, 15),
        }
    }

    /// Encodes the flags as a word, one bit per flag.
    pub fn as_word(&self) -> (word: u16)
        ensures
            word == self.encoding(),
            Flags::decoded(word) == *self,
    {
        proof {
            reveal(pack);
            lemma_bits_of_pack(
                self.carry,
                self.res1,
                self.parity,
                self.res2,
                self.auxilarity,
                self.res3,
                self.zero,
                self.sign,
                self.trap,
                self.interrupt,
                self.direction,
                self.overflow,
                self.io_privilege_low,
                self.io_privilege_high,
                self.nested_task,
                self.res4,
            );
        }
        mask_if(self.carry, 0x0001) | mask_if(self.res1, 0x0002) | mask_if(self.parity, 0x0004)
            | mask_if(self.res2, 0x0008) | mask_if(self.auxilarity, 0x0010) | mask_if(
            self.res3,
            0x0020,
        ) | mask_if(self.zero, 0x0040) | mask_if(self.sign, 0x0080) | mask_if(self.trap, 0x0100)
            | mask_if(self.interrupt, 0x0200) | mask_if(self.direction, 0x0400) | mask_if(
            self.overflow,
            0x0800,
        ) | mask_if(self.io_privilege_low, 0x1000) | mask_if(self.io_privilege_high, 0x2000)
            | mask_if(self.nested_task, 0x4000) | mask_if(self.res4, 0x8000)
    }

    /// Replaces every flag by the corresponding bit of `val`.
    pub fn set(&mut self, val: u16)
        ensures
            *final(self) == Flags::decoded(val),
            final(self).encoding() == val,
    {
        proof {
            lemma_pack_bits(val);
        }
        *self = Flags {
            carry: bit_at(val, 0),
            res1: bit_at(val, 1),
            parity: bit_at(val, 2),
            res2: bit_at(val, 3),
            auxilarity: bit_at(val, 4),
            res3: bit_at(val, 5),
            zero: bit_at(val, 6),
            sign: bit_at(val, 7),
            trap: bit_at(val, 8),
            interrupt: bit_at(val, 9),
            direction: bit_at(val, 10),
            overflow: bit_at(val, 11),
            io_privilege_low: bit_at(val, 12),
            io_privilege_high: bit_at(val, 13),
            nested_task: bit_at(val, 14),
            res4: bit_at(val, 15),
        };
    }
}

impl Default for Flags {
    /// Every flag clear.
    fn default() -> (flags: Flags)
        ensures
            flags == Flags::decoded(0),
            flags.encoding() == 0,
    {
        let mut flags = Flags {
            carry: false,
            res1: false,
            parity: false,
            res2: false,
            auxilarity: false,
            res3: false,
            zero: false,
            sign: false,
            trap: false,
            interrupt: false,
            direction: false,
            overflow: false,
            io_privilege_low: false,
            io_privilege_high: false,
            nested_task: false,
            res4: false,
        };
        flags.set(0);
        flags
    }
}

fn bit_at(w: u16, i: u16) -> (set: bool)
    requires
        i < 16,
    ensures
        set == bit(w, i),
{
    reveal(bit);
    (w >> i) & 1 == 1
}

fn mask_if(set: bool, mask: u16) -> (word: u16)
    ensures
        word == masked(set, mask),
{
    if set {
        mask
    } else {
        0
    }
}

/// Decoding a word and encoding the flags again gives the word back.
pub proof fn lemma_encode_decode(w: u16)
    ensures
        Flags::decoded(w).encoding() == w,
{
    lemma_pack_bits(w);
}

/// Encoding flags and decoding the word again gives the flags back.
pub proof fn lemma_decode_encode(f: Flags)
    ensures
        Flags::decoded(f.encoding()) == f,
{
    lemma_bits_of_pack(
        f.carry,
        f.res1,
        f.parity,
        f.res2,
        f.auxilarity,
        f.res3,
        f.zero,
        f.sign,
        f.trap,
        f.interrupt,
        f.direction,
        f.overflow,
        f.io_privilege_low,
        f.io_privilege_high,
        f.nested_task,
        f.res4,
    );
}

} // verus!
