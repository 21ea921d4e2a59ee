//! Byte-addressable memory of fixed size with little-endian typed access.

use vstd::prelude::*;
use crate::bits::sign_extend;
use crate::bits::extend_sign;

verus! {

/// The size of memory in bytes.
pub const MEMSIZE: usize = 1024 * 128;

/// The width of a memory access.
#[derive(Clone, Copy, Debug)]
pub enum Size {
    Byte,
    HalfWord,
    Word,
}

impl Size {
    /// The number of bytes that an access of this width touches.
    pub open spec fn spec_bytes(self) -> u32 {
        match self {
            Size::Byte => 1,
            Size::HalfWord => 2,
            Size::Word => 4,
        }
    }

    /// The number of bytes that an access of this width touches.
    #[verifier::when_used_as_spec(spec_bytes)]
    pub fn bytes(self) -> (count: u32)
        ensures
            count == self.spec_bytes(),
    {
        match self {
            Size::Byte => 1,
            Size::HalfWord => 2,
            Size::Word => 4,
        }
    }
}

/// The two bytes at `addr` and `addr + 1`, the first being the low byte.
pub open spec fn half_at(mem: Seq<u8>, addr: int) -> u32 {
    (mem[addr] as u32) | ((mem[addr + 1] as u32) << 8)
}

/// The four bytes from `addr` on, the first being the lowest byte.
pub open spec fn word_at(mem: Seq<u8>, addr: int) -> u32 {
    (mem[addr] as u32) | ((mem[addr + 1] as u32) << 8) | ((mem[addr + 2] as u32) << 16) | ((
    mem[addr + 3] as u32) << 24)
}

/// The value that a load of the given width reads at `addr`: the bytes taken
/// little-endian, then zero-extended or sign-extended to 32 bits.
pub open spec fn load_value(mem: Seq<u8>, size: Size, addr: int, is_unsigned: bool) -> u32 {
    match size {
        Size::Byte => if is_unsigned {
            mem[addr] as u32
        } else {
            sign_extend(mem[addr] as u32, 8)
        },
        Size::HalfWord => if is_unsigned {
            half_at(mem, addr)
        } else {
            sign_extend(half_at(mem, addr), 16)
        },
        Size::Word => word_at(mem, addr),
    }
}

/// Byte number `index` of a word, counted from the low end.
pub open spec fn byte_of(value: u32, index: u32) -> u8 {
    ((value >> (8 * index) as u32) & 0xff) as u8
}

/// Byte number `index` of a word, counted from the low end.
pub fn byte_at(value: u32, index: u32) -> (byte: u8)
    requires
        index < 4,
    ensures
        byte == byte_of(value, index),
{
    let shifted: u32 = value >> (8 * index);
    assert(shifted & 0xff < 256) by (bit_vector);
    (shifted & 0xff) as u8
}

/// Memory after a store of the given width at `addr`: the low bytes of
/// `value`, lowest first; every other byte as before.
pub open spec fn store_bytes(mem: Seq<u8>, size: Size, addr: int, value: u32) -> Seq<u8> {
    match size {
        Size::Byte => mem.update(addr, byte_of(value, 0)),
        Size::HalfWord => mem.update(addr, byte_of(value, 0)).update(addr + 1, byte_of(value, 1)),
        Size::Word => mem.update(addr, byte_of(value, 0)).update(addr + 1, byte_of(value, 1))
            .update(addr + 2, byte_of(value, 2)).update(addr + 3, byte_of(value, 3)),
    }
}

/// Memory right after construction: every byte is zero.
pub open spec fn zeroed_memory() -> Seq<u8> {
    Seq::new(MEMSIZE as nat, |i: int| 0u8)
}

/// Memory right after a program image is loaded: the image from address 0 on,
/// cut off at the end of memory, and zero behind it.
pub open spec fn program_image(program: Seq<u8>) -> Seq<u8> {
    Seq::new(
        MEMSIZE as nat,
        |i: int|
            if i < program.len() {
                program[i]
            } else {
                0u8
            },
    )
}

/// Whether an access of the given width at `addr` lies within memory.
pub open spec fn in_range(addr: u32, size: Size) -> bool {
    addr + size.spec_bytes() <= MEMSIZE
}

/// Loading an empty image leaves memory zeroed.
pub proof fn lemma_empty_image()
    ensures
        program_image(Seq::empty()) == zeroed_memory(),
{
    assert(program_image(Seq::empty()) =~= zeroed_memory());
}

/// A word stored at an address is the word read back from it, whatever
/// memory held before.
pub proof fn lemma_store_load_word(mem: Seq<u8>, addr: int, value: u32, is_unsigned: bool)
    requires
        0 <= addr,
        addr + 4 <= mem.len(),
    ensures
        load_value(store_bytes(mem, Size::Word, addr, value), Size::Word, addr, is_unsigned)
            == value,
{
    assert((((value >> 0u32) & 0xff) as u8 as u32) | ((((value >> 8u32) & 0xff) as u8 as u32) << 8)
        | ((((value >> 16u32) & 0xff) as u8 as u32) << 16) | ((((value >> 24u32) & 0xff) as u8
        as u32) << 24) == value) by (bit_vector);
}

/// On a byte whose high bit is set, the sign-extending load exceeds the
/// zero-extending load by `0xFFFF_FF00`; on any other byte the two agree.
pub proof fn lemma_signed_unsigned_byte(mem: Seq<u8>, addr: int)
    requires
        0 <= addr < mem.len(),
    ensures
        mem[addr] >= 0x80 ==> load_value(mem, Size::Byte, addr, false) - load_value(
            mem,
            Size::Byte,
            addr,
            true,
        ) == 0xFFFF_FF00,
        mem[addr] < 0x80 ==> load_value(mem, Size::Byte, addr, false) == load_value(
            mem,
            Size::Byte,
            addr,
            true,
        ),
{
    let byte: u8 = mem[addr];
    assert(byte >= 0x80 ==> sign_extend(byte as u32, 8) - (byte as u32) == 0xFFFF_FF00)
        by (bit_vector);
    assert(byte < 0x80 ==> sign_extend(byte as u32, 8) == byte as u32) by (bit_vector);
}

/// Decides whether an access of the given width at `addr` lies within
/// memory.
pub fn is_in_range(addr: u32, size: Size) -> (inside: bool)
    ensures
        inside == in_range(addr, size),
{
    addr as u64 + size.bytes() as u64 <= MEMSIZE as u64
}

pub struct Memory([u8; MEMSIZE]);

impl View for Memory {
    type V = Seq<u8>;

    /// The bytes held, by address.
    closed spec fn view(&self) -> Seq<u8> {
        self.0@
    }
}

impl Memory {
    /// Memory always holds `MEMSIZE` bytes.
    pub proof fn lemma_size(&self)
        ensures
            self@.len() == MEMSIZE,
    {
    }

    pub fn new() -> (mem: Memory)
        ensures
            mem@ == zeroed_memory(),
    {
        let mem = Memory([0u8; MEMSIZE]);
        assert(mem@ =~= zeroed_memory());
        mem
    }

    /// Reads one, two or four bytes little-endian at `from` and widens the
    /// value to 32 bits, with or without sign.
    pub fn read(&self, size: Size, from: u32, is_unsigned: bool) -> (value: u32)
        requires
            in_range(from, size),
        ensures
            value == load_value(self@, size, from as int, is_unsigned),
    {
        let at: usize = from as usize;
        match size {
            Size::Byte => {
                let raw: u32 = self.0[at] as u32;
                if is_unsigned {
                    raw
                } else {
                    extend_sign(raw, 8)
                }
            },
            Size::HalfWord => {
                let raw: u32 = (self.0[at] as u32) | ((self.0[at + 1] as u32) << 8);
                if is_unsigned {
                    raw
                } else {
                    extend_sign(raw, 16)
                }
            },
            Size::Word => {
                (self.0[at] as u32) | ((self.0[at + 1] as u32) << 8) | ((self.0[at + 2] as u32)
                    << 16) | ((self.0[at + 3] as u32) << 24)
            },
        }
    }

    /// Writes the low one, two or four bytes of `value` little-endian at
    /// `address`.
    pub fn write(&mut self, size: Size, address: u32, value: u32)
        requires
            in_range(address, size),
        ensures
            final(self)@ == store_bytes(old(self)@, size, address as int, value),
    {
        let at: usize = address as usize;
        match size {
            Size::Byte => {
                self.0[at] = byte_at(value, 0);
            },
            Size::HalfWord => {
                self.0[at] = byte_at(value, 0);
                self.0[at + 1] = byte_at(value, 1);
            },
            Size::Word => {
                self.0[at] = byte_at(value, 0);
                self.0[at + 1] = byte_at(value, 1);
                self.0[at + 2] = byte_at(value, 2);
                self.0[at + 3] = byte_at(value, 3);
            },
        }
    }

    /// Loads a program image at the start of memory and clears the rest.
    pub fn load_program(&mut self, program: Vec<u8>)
        ensures
            final(self)@ == program_image(program@),
    {
        let mut i: usize = 0;
        while i < MEMSIZE
            invariant
                i <= MEMSIZE,
                self@.len() == MEMSIZE,
                forall|j: int| 0 <= j < i ==> self@[j] == program_image(program@)[j],
            decreases MEMSIZE - i,
        {
            let byte: u8 = if i < program.len() {
                program[i]
            } else {
                0
            };
            self.0[i] = byte;
            i += 1;
        }
        assert(self@ =~= program_image(program@));
    }
}

} // verus!
