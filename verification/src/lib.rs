//! An instruction-set-accurate emulator for the RV32I base integer profile.
//!
//! The crate models the architectural state (program counter, register file
//! and byte-addressable memory), decodes 32-bit instruction words into typed
//! instructions and executes them one cycle at a time.

pub mod bits;
pub mod text;
pub mod inst_format;
pub mod error;
pub mod memory;
pub mod pc;
pub mod regs;
pub mod state;
pub mod inst;
pub mod decode;
pub mod cpu;
pub mod cli;
