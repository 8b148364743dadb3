//! The segmented memory image: one linear byte buffer, four segment
//! registers, and the translation of a segment and an offset to a physical
//! address.

use crate::fault::Fault;
use crate::registers;
use vstd::prelude::*;

verus! {

/// The number of bytes in a memory image.
pub const MEMORY_SIZE: usize = 0x100000;

/// How a segment value enters the physical address.
#[derive(Clone, Copy, Debug, PartialEq, Eq, Structural)]
pub enum AddressPolicy {
    /// The segment value counts ten bytes: every address that a segment and
    /// an offset can form lies within the memory image.
    TimesTen,
    /// The segment value counts sixteen bytes, as in real mode: the highest
    /// segments reach beyond the memory image.
    TimesSixteen,
}

impl AddressPolicy {
    /// The number of bytes that one unit of a segment value counts.
    pub open spec fn multiplier(self) -> int {
        match self {
            AddressPolicy::TimesTen => 10,
            AddressPolicy::TimesSixteen => 16,
        }
    }
}

/// The physical address of `offset` in the segment with value `segment`.
pub open spec fn physical(policy: AddressPolicy, segment: u16, offset: u16) -> int {
    segment * policy.multiplier() + offset
}

/// Computes the physical address of a segment value (first) and an offset
/// (second).
pub fn get_physical_address(addresses: (u16, u16), policy: AddressPolicy) -> (address: u32)
    ensures
        address == physical(policy, addresses.0, addresses.1),
{
    let (segment, offset) = addresses;
    match policy {
        AddressPolicy::TimesTen => segment as u32 * 10 + offset as u32,
        AddressPolicy::TimesSixteen => segment as u32 * 16 + offset as u32,
    }
}

/// Byte `k` of the little-endian form of `value`, for `k` below 4.
pub open spec fn byte_of(value: int, k: int) -> u8 {
    if k == 0 {
        (value % 0x100) as u8
    } else if k == 1 {
        ((value / 0x100) % 0x100) as u8
    } else if k == 2 {
        ((value / 0x10000) % 0x100) as u8
    } else {
        ((value / 0x1000000) % 0x100) as u8
    }
}

/// Whether the `len` bytes from `address` on lie within the bytes `mem`.
pub open spec fn in_range(mem: Seq<u8>, address: int, len: int) -> bool {
    0 <= address && address + len <= mem.len()
}

/// The little-endian number in the `len` bytes of `mem` from `address` on,
/// for `len` up to 4.
pub open spec fn read_le(mem: Seq<u8>, address: int, len: int) -> int {
    (if len >= 1 {
        mem[address] as int
    } else {
        0
    }) + (if len >= 2 {
        mem[address + 1] * 0x100
    } else {
        0
    }) + (if len >= 3 {
        mem[address + 2] * 0x10000
    } else {
        0
    }) + (if len >= 4 {
        mem[address + 3] * 0x1000000
    } else {
        0
    })
}

/// The bytes `mem` with the `len` bytes from `address` on replaced by the
/// little-endian form of `value`, for `len` up to 4.
pub open spec fn write_le(mem: Seq<u8>, address: int, len: int, value: int) -> Seq<u8> {
    Seq::new(
        mem.len(),
        |i: int|
            if address <= i < address + len {
                byte_of(value, i - address)
            } else {
                mem[i]
            },
    )
}

/// The bytes `mem` with those from `address` on replaced by `data`.
pub open spec fn write_block(mem: Seq<u8>, address: int, data: Seq<u8>) -> Seq<u8> {
    Seq::new(
        mem.len(),
        |i: int|
            if address <= i < address + data.len() {
                data[i - address]
            } else {
                mem[i]
            },
    )
}

/// The bytes of a 32-bit value put together again give the value, and the
/// lowest two give its low word.
pub proof fn lemma_bytes(value: u32)
    ensures
        byte_of(value as int, 0) + byte_of(value as int, 1) * 0x100 == value % 0x10000,
        byte_of(value as int, 0) + byte_of(value as int, 1) * 0x100 + byte_of(value as int, 2)
            * 0x10000 + byte_of(value as int, 3) * 0x1000000 == value,
{
    assert((value % 0x100) + ((value / 0x100) % 0x100) * 0x100 == value % 0x10000) by (bit_vector);
    assert((value % 0x100) + ((value / 0x100) % 0x100) * 0x100 + ((value / 0x10000) % 0x100)
        * 0x10000 + ((value / 0x1000000) % 0x100) * 0x1000000 == value) by (bit_vector);
}

/// What was written is read back: the value modulo 256 to the power `len`.
pub proof fn lemma_read_after_write(mem: Seq<u8>, address: int, len: int, value: u32)
    requires
        in_range(mem, address, len),
        len == 1 || len == 2 || len == 4,
    ensures
        len == 1 ==> read_le(write_le(mem, address, len, value as int), address, len) == value
            % 0x100,
        len == 2 ==> read_le(write_le(mem, address, len, value as int), address, len) == value
            % 0x10000,
        len == 4 ==> read_le(write_le(mem, address, len, value as int), address, len) == value,
{
    let written = write_le(mem, address, len, value as int);
    lemma_bytes(value);
    assert(written[address] == byte_of(value as int, 0));
    if len >= 2 {
        assert(written[address + 1] == byte_of(value as int, 1));
    }
    if len >= 4 {
        assert(written[address + 2] == byte_of(value as int, 2));
        assert(written[address + 3] == byte_of(value as int, 3));
    }
}

/// A write leaves what lies outside its bytes as it was.
pub proof fn lemma_read_other(
    mem: Seq<u8>,
    address: int,
    len: int,
    value: int,
    other: int,
    other_len: int,
)
    requires
        in_range(mem, address, len),
        in_range(mem, other, other_len),
        0 <= len <= 4,
        0 <= other_len <= 4,
        other + other_len <= address || address + len <= other,
    ensures
        read_le(write_le(mem, address, len, value), other, other_len) == read_le(
            mem,
            other,
            other_len,
        ),
{
}

/// Names a segment of the memory image.
#[derive(Clone, Copy, Debug, PartialEq, Eq, Structural)]
pub enum Segment {
    CS,
    SS,
    ES,
    DS,
    /// The interrupt vector table, which lies at segment value zero.
    IVT,
}

/// The text of a segment name in lower case, which is an outcome of nothing
/// but the text.
pub uninterp spec fn lowercase(text: Seq<char>) -> Seq<char>;

/// Lower-cases a text with `str::to_lowercase`: the result is the lower-case
/// form that the standard library defines for the characters of the text.
#[verifier::external_body]
pub(crate) fn to_lowercase(text: &str) -> (lower: String)
    ensures
        lower@ == lowercase(text@),
{
    text.to_lowercase()
}

impl Segment {
    /// The segment that a lower-case name stands for.
    pub open spec fn named(name: Seq<char>) -> Option<Segment> {
        if name == "ds"@ {
            Some(Segment::DS)
        } else if name == "cs"@ {
            Some(Segment::CS)
        } else if name == "ss"@ {
            Some(Segment::SS)
        } else if name == "es"@ {
            Some(Segment::ES)
        } else {
            None
        }
    }

    /// The segment that a segment-register code stands for.
    pub open spec fn coded(code: u8) -> Option<Segment> {
        if code == registers::DS {
            Some(Segment::DS)
        } else if code == registers::CS {
            Some(Segment::CS)
        } else if code == registers::SS {
            Some(Segment::SS)
        } else if code == registers::ES {
            Some(Segment::ES)
        } else {
            None
        }
    }

    /// The value of the segment in the memory image `mem`.
    pub fn get_segment(&self, mem: &MemorySegments) -> (value: u16)
        ensures
            value == mem.segment_value(*self),
    {
        match self {
            Segment::CS => mem.code_segment,
            Segment::SS => mem.stack_segment,
            Segment::ES => mem.extra_segment,
            Segment::DS => mem.data_segment,
            Segment::IVT => 0,
        }
    }

    /// Reads a segment name in lower case: `ds`, `cs`, `ss` or `es`.
    pub fn from_lowercase(name: &str) -> (segment: Result<Self, ()>)
        ensures
            match Segment::named(name@) {
                Some(s) => segment == Ok::<Segment, ()>(s),
                None => segment is Err,
            },
    {
        let name = String::from_str(name);
        if name == String::from_str("ds") {
            Ok(Segment::DS)
        } else if name == String::from_str("cs") {
            Ok(Segment::CS)
        } else if name == String::from_str("ss") {
            Ok(Segment::SS)
        } else if name == String::from_str("es") {
            Ok(Segment::ES)
        } else {
            Err(())
        }
    }

    /// Reads a segment name in any letter case: `ds`, `cs`, `ss` or `es`.
    pub fn from(string: &str) -> (segment: Result<Self, ()>)
        ensures
            match Segment::named(lowercase(string@)) {
                Some(s) => segment == Ok::<Segment, ()>(s),
                None => segment is Err,
            },
    {
        let lower = to_lowercase(string);
        Segment::from_lowercase(lower.as_str())
    }

    /// Reads a segment-register code: 0 is ES, 1 is CS, 2 is SS and 3 is DS.
    pub fn from_code(segment: u8) -> (result: Result<Self, ()>)
        ensures
            match Segment::coded(segment) {
                Some(s) => result == Ok::<Segment, ()>(s),
                None => result is Err,
            },
    {
        if segment == registers::DS {
            Ok(Segment::DS)
        } else if segment == registers::CS {
            Ok(Segment::CS)
        } else if segment == registers::SS {
            Ok(Segment::SS)
        } else if segment == registers::ES {
            Ok(Segment::ES)
        } else {
            Err(())
        }
    }
}

/// A cell of memory: a physical address and a width in bytes.
#[derive(Clone, Copy, Debug, PartialEq, Eq, Structural)]
pub struct MemoryPointer {
    pub len: u8,
    pub ptr: u32,
}

impl MemoryPointer {
    /// Whether the width is one for which reading and writing are defined.
    pub open spec fn valid(self) -> bool {
        self.len == 1 || self.len == 2 || self.len == 4
    }

    /// The cell of `len` bytes at the physical address `ptr`.
    pub fn new(len: u8, ptr: u32) -> (pointer: Self)
        ensures
            pointer == (MemoryPointer { len, ptr }),
    {
        Self { len, ptr }
    }

    /// Writes the low `len` bytes of `val` to the cell, lowest byte first.
    /// A cell that is not wholly inside the memory image is not written at
    /// all.
    pub fn set(&self, mem: &mut MemorySegments, val: u32) -> (res: Result<(), Fault>)
        requires
            self.valid(),
        ensures
            in_range(old(mem).bytes(), self.ptr as int, self.len as int) ==> res is Ok && final(mem).bytes() == write_le(old(mem).bytes(), self.ptr as int, self.len as int, val as int),
            !in_range(old(mem).bytes(), self.ptr as int, self.len as int) ==> res == Err::<
                (),
                Fault,
            >(Fault::AddressOutOfRange(self.ptr)) && final(mem).bytes() == old(mem).bytes(),
            final(mem).same_registers(*old(mem)),
    {
        mem.write_value(self.ptr, self.len, val)
    }

    /// Reads the cell as a little-endian number.
    pub fn get(&self, mem: &MemorySegments) -> (res: Result<u32, Fault>)
        requires
            self.valid(),
        ensures
            in_range(mem.bytes(), self.ptr as int, self.len as int) ==> res == Ok::<u32, Fault>(
                read_le(mem.bytes(), self.ptr as int, self.len as int) as u32,
            ),
            !in_range(mem.bytes(), self.ptr as int, self.len as int) ==> res == Err::<u32, Fault>(
                Fault::AddressOutOfRange(self.ptr),
            ),
            res matches Ok(v) ==> v == read_le(mem.bytes(), self.ptr as int, self.len as int),
    {
        mem.read_value(self.ptr, self.len)
    }
}

/// The memory image and the segment registers.
pub struct MemorySegments {
    /// The bytes of the memory image.
    pub memory: Vec<u8>,
    /// How a segment value enters the physical address.
    pub policy: AddressPolicy,
    pub code_segment: u16,
    pub data_segment: u16,
    pub stack_segment: u16,
    pub extra_segment: u16,
}

impl MemorySegments {
    /// The bytes of the memory image.
    pub open spec fn bytes(&self) -> Seq<u8> {
        self.memory@
    }

    /// The address translation in force.
    pub open spec fn policy(&self) -> AddressPolicy {
        self.policy
    }

    /// The value of a segment.
    pub open spec fn segment_value(&self, segment: Segment) -> u16 {
        match segment {
            Segment::CS => self.code_segment,
            Segment::SS => self.stack_segment,
            Segment::ES => self.extra_segment,
            Segment::DS => self.data_segment,
            Segment::IVT => 0,
        }
    }

    /// Whether both have the same segment registers, address translation
    /// and number of bytes.
    pub open spec fn same_registers(&self, other: MemorySegments) -> bool {
        &&& self.code_segment == other.code_segment
        &&& self.data_segment == other.data_segment
        &&& self.stack_segment == other.stack_segment
        &&& self.extra_segment == other.extra_segment
        &&& self.policy() == other.policy()
        &&& self.bytes().len() == other.bytes().len()
    }

    /// A memory image of `MEMORY_SIZE` zero bytes, with every segment
    /// register zero, in which a segment value counts ten bytes.
    pub fn new() -> (mem: Self)
        ensures
            mem.bytes() == Seq::new(MEMORY_SIZE as nat, |i: int| 0u8),
            mem.policy() == AddressPolicy::TimesTen,
            mem.code_segment == 0,
            mem.data_segment == 0,
            mem.stack_segment == 0,
            mem.extra_segment == 0,
    {
        Self::with_policy(AddressPolicy::TimesTen)
    }

    /// A memory image of `MEMORY_SIZE` zero bytes, with every segment
    /// register zero and the given address translation.
    pub fn with_policy(policy: AddressPolicy) -> (mem: Self)
        ensures
            mem.bytes() == Seq::new(MEMORY_SIZE as nat, |i: int| 0u8),
            mem.policy() == policy,
            mem.code_segment == 0,
            mem.data_segment == 0,
            mem.stack_segment == 0,
            mem.extra_segment == 0,
    {
        let mut memory: Vec<u8> = Vec::new();
        let mut i: usize = 0;
        while i < MEMORY_SIZE
            invariant
                i <= MEMORY_SIZE,
                memory@ == Seq::new(i as nat, |k: int| 0u8),
            decreases MEMORY_SIZE - i,
        {
            memory.push(0);
            i = i + 1;
        }
        Self {
            memory,
            policy,
            code_segment: 0,
            data_segment: 0,
            stack_segment: 0,
            extra_segment: 0,
        }
    }

    /// The address translation in force.
    pub fn address_policy(&self) -> (policy: AddressPolicy)
        ensures
            policy == self.policy(),
    {
        self.policy
    }

    /// The physical address of `offset` in the segment with value `segment`.
    pub fn translate(&self, segment: u16, offset: u16) -> (address: u32)
        ensures
            address == physical(self.policy(), segment, offset),
    {
        get_physical_address((segment, offset), self.policy)
    }

    /// Copies `data` to the physical address of the segment value (first)
    /// and offset (second) in `add`. Data that does not lie wholly inside
    /// the memory image is not copied at all.
    pub fn write(&mut self, data: &Vec<u8>, add: (u16, u16)) -> (res: Result<(), Fault>)
        ensures
            final(self).same_registers(*old(self)),
            ({
                let address = physical(old(self).policy(), add.0, add.1);
                if address + data.len() <= old(self).bytes().len() {
                    res is Ok && final(self).bytes() == write_block(
                        old(self).bytes(),
                        address,
                        data@,
                    )
                } else {
                    res == Err::<(), Fault>(Fault::AddressOutOfRange(address as u32))
                        && final(self).bytes() == old(self).bytes()
                }
            }),
    {
        let address = get_physical_address(add, self.policy);
        let start: usize = address as usize;
        if data.len() > self.memory.len() || start > self.memory.len() - data.len() {
            return Err(Fault::AddressOutOfRange(address));
        }
        let ghost before = self.memory@;
        let mut i: usize = 0;
        while i < data.len()
            invariant
                i <= data.len(),
                start + data.len() <= self.memory.len(),
                self.memory.len() == before.len(),
                self.policy == old(self).policy,
                self.code_segment == old(self).code_segment,
                self.data_segment == old(self).data_segment,
                self.stack_segment == old(self).stack_segment,
                self.extra_segment == old(self).extra_segment,
                forall|k: int|
                    0 <= k < before.len() ==> self.memory@[k] == if start <= k < start + i {
                        data@[k - start]
                    } else {
                        before[k]
                    },
            decreases data.len() - i,
        {
            self.memory.set(start + i, data[i]);
            i = i + 1;
        }
        assert(self.memory@ =~= write_block(before, start as int, data@));
        Ok(())
    }

    /// The physical address of the offset `add` in the segment `seg`: the
    /// handle by which a cell of memory is read and written.
    pub fn get_memory_pointer(&self, seg: &Segment, add: u16) -> (address: u32)
        ensures
            address == physical(self.policy(), self.segment_value(*seg), add),
    {
        get_physical_address((seg.get_segment(self), add), self.policy)
    }

    /// Reads the byte at a segment value (first) and an offset (second).
    pub fn index(&self, index: (u16, u16)) -> (res: Result<u8, Fault>)
        ensures
            ({
                let address = physical(self.policy(), index.0, index.1);
                if address < self.bytes().len() {
                    res == Ok::<u8, Fault>(self.bytes()[address])
                } else {
                    res == Err::<u8, Fault>(Fault::AddressOutOfRange(address as u32))
                }
            }),
    {
        let address = get_physical_address(index, self.policy);
        if (address as usize) < self.memory.len() {
            Ok(self.memory[address as usize])
        } else {
            Err(Fault::AddressOutOfRange(address))
        }
    }

    /// Reads the little-endian number in the `width` bytes at the physical
    /// address `address`.
    pub fn read_value(&self, address: u32, width: u8) -> (res: Result<u32, Fault>)
        requires
            width == 1 || width == 2 || width == 4,
        ensures
            in_range(self.bytes(), address as int, width as int) ==> res == Ok::<u32, Fault>(
                read_le(self.bytes(), address as int, width as int) as u32,
            ),
            !in_range(self.bytes(), address as int, width as int) ==> res == Err::<u32, Fault>(
                Fault::AddressOutOfRange(address),
            ),
            res matches Ok(v) ==> v == read_le(self.bytes(), address as int, width as int),
    {
        let start: usize = address as usize;
        if (width as usize) > self.memory.len() || start > self.memory.len() - width as usize {
            return Err(Fault::AddressOutOfRange(address));
        }
        let b0: u32 = self.memory[start] as u32;
        if width == 1 {
            Ok(b0)
        } else {
            let b1: u32 = self.memory[start + 1] as u32;
            if width == 2 {
                Ok(b0 + b1 * 0x100)
            } else {
                let b2: u32 = self.memory[start + 2] as u32;
                let b3: u32 = self.memory[start + 3] as u32;
                Ok(b0 + b1 * 0x100 + b2 * 0x10000 + b3 * 0x1000000)
            }
        }
    }

    /// Writes the low `width` bytes of `value` at the physical address
    /// `address`, lowest byte first. A cell that is not wholly inside the
    /// memory image is not written at all.
    pub fn write_value(&mut self, address: u32, width: u8, value: u32) -> (res: Result<(), Fault>)
        requires
            width == 1 || width == 2 || width == 4,
        ensures
            in_range(old(self).bytes(), address as int, width as int) ==> res is Ok && final(self).bytes() == write_le(old(self).bytes(), address as int, width as int, value as int),
            !in_range(old(self).bytes(), address as int, width as int) ==> res == Err::<(), Fault>(
                Fault::AddressOutOfRange(address),
            ) && final(self).bytes() == old(self).bytes(),
            final(self).same_registers(*old(self)),
    {
        let start: usize = address as usize;
        if (width as usize) > self.memory.len() || start > self.memory.len() - width as usize {
            return Err(Fault::AddressOutOfRange(address));
        }
        let ghost before = self.memory@;
        self.memory.set(start, (value % 0x100) as u8);
        if width >= 2 {
            self.memory.set(start + 1, ((value / 0x100) % 0x100) as u8);
        }
        if width == 4 {
            self.memory.set(start + 2, ((value / 0x10000) % 0x100) as u8);
            self.memory.set(start + 3, ((value / 0x1000000) % 0x100) as u8);
        }
        assert(self.memory@ =~= write_le(before, address as int, width as int, value as int));
        Ok(())
    }
}

} // verus!
