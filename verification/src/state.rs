//! The architectural state as a mathematical value.

use vstd::prelude::*;
use crate::memory::{program_image, MEMSIZE};
use crate::regs::write_register;

verus! {

/// The architectural state of the machine: what the program counter, the
/// registers and memory hold.
pub ghost struct CpuState {
    pub pc: u32,
    pub regs: Seq<u32>,
    pub mem: Seq<u8>,
}

impl CpuState {
    /// A state that a machine can be in: 32 registers, the first of them
    /// zero, and a memory of the fixed size.
    pub open spec fn well_formed(self) -> bool {
        &&& self.regs.len() == 32
        &&& self.regs[0] == 0
        &&& self.mem.len() == MEMSIZE
    }

    /// The state after a write to a register.
    pub open spec fn with_register(self, reg_idx: usize, value: u32) -> CpuState {
        CpuState { regs: write_register(self.regs, reg_idx as int, value), ..self }
    }

    /// The state with the program counter moved.
    pub open spec fn with_pc(self, pc: u32) -> CpuState {
        CpuState { pc, ..self }
    }

    /// The state with a program image loaded: memory holds the image and
    /// nothing else.
    pub open spec fn with_program(self, program: Seq<u8>) -> CpuState {
        CpuState { mem: program_image(program), ..self }
    }

    /// The state with memory replaced.
    pub open spec fn with_memory(self, mem: Seq<u8>) -> CpuState {
        CpuState { mem, ..self }
    }
}

} // verus!
