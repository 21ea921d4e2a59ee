//! The program counter.

use vstd::prelude::*;
use crate::error::Error;
use crate::memory::MEMSIZE;

verus! {

/// The size of one instruction, in bytes.
pub const INSTSIZE_BYTES: usize = 4;

/// The address four bytes further on, modulo 2^32.
pub open spec fn next_address(address: u32) -> u32 {
    ((address + 4) % 0x1_0000_0000) as u32
}

/// Whether a whole instruction can be read at `address`.
pub open spec fn fetchable(address: u32) -> bool {
    address <= MEMSIZE - 4
}

pub struct ProgramCounter(u32);

impl View for ProgramCounter {
    type V = u32;

    /// The address held.
    closed spec fn view(&self) -> u32 {
        self.0
    }
}

impl ProgramCounter {
    pub fn new() -> (pc: ProgramCounter)
        ensures
            pc@ == 0,
    {
        ProgramCounter(0)
    }

    pub fn get(&self) -> (address: u32)
        ensures
            address == self@,
    {
        self.0
    }

    pub fn set(&mut self, address: u32)
        ensures
            final(self)@ == address,
    {
        self.0 = address
    }

    /// Advances the counter by one instruction and returns the address it
    /// held before, or a fault when no instruction can be read there. The
    /// counter advances in either case.
    pub fn inc(&mut self) -> (fetched: Result<u32, Error>)
        ensures
            final(self)@ == next_address(old(self)@),
            fetchable(old(self)@) ==> fetched == Ok::<u32, Error>(old(self)@),
            !fetchable(old(self)@) ==> fetched == Err::<u32, Error>(
                Error::InvalidPC(old(self)@, MEMSIZE),
            ),
    {
        let pc: u32 = self.0;
        self.0 = pc.wrapping_add(INSTSIZE_BYTES as u32);
        if pc > MEMSIZE as u32 - INSTSIZE_BYTES as u32 {
            return Err(Error::InvalidPC(pc, MEMSIZE));
        }
        Ok(pc)
    }
}

} // verus!
