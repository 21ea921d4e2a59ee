//! The register file: 32 registers of 32 bits, the first wired to zero.

use vstd::prelude::*;
use crate::memory::MEMSIZE;

verus! {

/// The register that holds the stack pointer.
pub const STACK_POINTER: usize = 2;

/// The register file right after construction: all zero but the stack
/// pointer, which starts one past the top byte of memory.
pub open spec fn initial_registers() -> Seq<u32> {
    Seq::new(32, |i: int| if i == 2 { MEMSIZE as u32 } else { 0u32 })
}

/// What a write does to the register file: register 0 absorbs it, any other
/// register takes the value.
pub open spec fn write_register(regs: Seq<u32>, reg_idx: int, value: u32) -> Seq<u32> {
    if reg_idx == 0 {
        regs
    } else {
        regs.update(reg_idx, value)
    }
}

pub struct Registers([u32; 32]);

impl View for Registers {
    type V = Seq<u32>;

    /// The 32 values that reads return, by register index.
    closed spec fn view(&self) -> Seq<u32> {
        Seq::new(32, |i: int| if i == 0 { 0u32 } else { self.0@[i] })
    }
}

impl Registers {
    /// The register file always has 32 entries, and register 0 reads as 0.
    pub proof fn lemma_zero_register(&self)
        ensures
            self@.len() == 32,
            self@[0] == 0,
    {
    }

    pub fn new() -> (regs: Registers)
        ensures
            regs@ == initial_registers(),
    {
        let mut regs = Registers([0u32; 32]);
        regs.0[STACK_POINTER] = MEMSIZE as u32;
        assert(regs@ =~= initial_registers());
        regs
    }

    pub fn read(&self, reg_idx: usize) -> (value: u32)
        requires
            reg_idx < 32,
        ensures
            value == self@[reg_idx as int],
    {
        if reg_idx == 0 {
            0
        } else {
            self.0[reg_idx]
        }
    }

    pub fn write(&mut self, reg_idx: usize, value: u32)
        requires
            reg_idx < 32,
        ensures
            final(self)@ == write_register(old(self)@, reg_idx as int, value),
    {
        if reg_idx == 0 {
            return ;
        }
        self.0[reg_idx] = value;
        assert(self@ =~= write_register(old(self)@, reg_idx as int, value));
    }
}

} // verus!
