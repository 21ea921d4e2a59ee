//! The decode table: which instruction a 32-bit word stands for.

use vstd::prelude::*;
use crate::bits::bits_unsigned;
use crate::error::{Error, FormatError};
use crate::inst::{ArithIInst, BInst, IInst, Inst, MemIInst, RInst, SInst, SysCall, UInst};
use crate::inst_format::{
    lemma_fields_in_range, BFormat, IFormat, JFormat, RFormat, SFormat, UFormat,
};

verus! {

/// The register that carries the number of a supervisor call.
pub const SYSCALL_NUMBER_REGISTER: usize = 17;

/// The register that carries the first argument of a supervisor call.
pub const SYSCALL_ARGUMENT_REGISTER: usize = 10;

/// The number of the exit call.
pub const SYSCALL_EXIT: u32 = 93;

/// The opcode of a word: its low seven bits.
pub open spec fn opcode_field(raw: u32) -> usize {
    bits_unsigned(raw, 0, 6) as usize
}

/// The register-register operation that the two minor opcodes select.
pub open spec fn register_mnemonic(funct3: usize, funct7: usize) -> Option<RInst> {
    if funct3 == 0x0 && funct7 == 0x00 {
        Some(RInst::ADD)
    } else if funct3 == 0x0 && funct7 == 0x20 {
        Some(RInst::SUB)
    } else if funct3 == 0x4 && funct7 == 0x00 {
        Some(RInst::XOR)
    } else if funct3 == 0x6 && funct7 == 0x00 {
        Some(RInst::OR)
    } else if funct3 == 0x7 && funct7 == 0x00 {
        Some(RInst::AND)
    } else if funct3 == 0x1 && funct7 == 0x00 {
        Some(RInst::SLL)
    } else if funct3 == 0x5 && funct7 == 0x00 {
        Some(RInst::SRL)
    } else if funct3 == 0x5 && funct7 == 0x20 {
        Some(RInst::SRA)
    } else if funct3 == 0x2 && funct7 == 0x00 {
        Some(RInst::SLT)
    } else if funct3 == 0x3 && funct7 == 0x00 {
        Some(RInst::SLTU)
    } else {
        None
    }
}

/// The register-immediate operation that the minor opcode selects. For the
/// shifts, the upper seven bits of the immediate act as a second minor
/// opcode.
pub open spec fn immediate_mnemonic(funct3: usize, upper_imm: u32) -> Option<ArithIInst> {
    if funct3 == 0x0 {
        Some(ArithIInst::ADDI)
    } else if funct3 == 0x4 {
        Some(ArithIInst::XORI)
    } else if funct3 == 0x6 {
        Some(ArithIInst::ORI)
    } else if funct3 == 0x7 {
        Some(ArithIInst::ANDI)
    } else if funct3 == 0x1 && upper_imm == 0x00 {
        Some(ArithIInst::SLLI)
    } else if funct3 == 0x5 && upper_imm == 0x00 {
        Some(ArithIInst::SRLI)
    } else if funct3 == 0x5 && upper_imm == 0x20 {
        Some(ArithIInst::SRAI)
    } else if funct3 == 0x2 {
        Some(ArithIInst::SLTI)
    } else if funct3 == 0x3 {
        Some(ArithIInst::SLTIU)
    } else {
        None
    }
}

/// The load that the minor opcode selects.
pub open spec fn load_mnemonic(funct3: usize) -> Option<MemIInst> {
    if funct3 == 0x0 {
        Some(MemIInst::LB)
    } else if funct3 == 0x1 {
        Some(MemIInst::LH)
    } else if funct3 == 0x2 {
        Some(MemIInst::LW)
    } else if funct3 == 0x4 {
        Some(MemIInst::LBU)
    } else if funct3 == 0x5 {
        Some(MemIInst::LHU)
    } else {
        None
    }
}

/// The store that the minor opcode selects.
pub open spec fn store_mnemonic(funct3: usize) -> Option<SInst> {
    if funct3 == 0x0 {
        Some(SInst::SB)
    } else if funct3 == 0x1 {
        Some(SInst::SH)
    } else if funct3 == 0x2 {
        Some(SInst::SW)
    } else {
        None
    }
}

/// The branch that the minor opcode selects.
pub open spec fn branch_mnemonic(funct3: usize) -> Option<BInst> {
    if funct3 == 0x0 {
        Some(BInst::BEQ)
    } else if funct3 == 0x1 {
        Some(BInst::BNE)
    } else if funct3 == 0x4 {
        Some(BInst::BLT)
    } else if funct3 == 0x5 {
        Some(BInst::BGE)
    } else if funct3 == 0x6 {
        Some(BInst::BLTU)
    } else if funct3 == 0x7 {
        Some(BInst::BGEU)
    } else {
        None
    }
}

/// The supervisor call that an `ecall` stands for, given the registers: the
/// exit call with the low eight bits of its argument when the call number is
/// that of exit, and nothing otherwise.
pub open spec fn supervisor_call(regs: Seq<u32>) -> SysCall {
    if regs[SYSCALL_NUMBER_REGISTER as int] == SYSCALL_EXIT {
        SysCall::Exit((regs[SYSCALL_ARGUMENT_REGISTER as int] % 256) as u8)
    } else {
        SysCall::Nop
    }
}

/// A word with the opcode of register-register operations.
pub open spec fn decode_register(raw: u32) -> Result<Inst, Error> {
    let format = RFormat::parse(raw);
    match register_mnemonic(format.funct3, format.funct7) {
        Some(inst) => Ok(Inst::R(inst, format)),
        None => Err(Error::InvalidInstFormat(FormatError::R(format))),
    }
}

/// A word with the opcode of register-immediate operations.
pub open spec fn decode_immediate(raw: u32) -> Result<Inst, Error> {
    let format = IFormat::parse(raw);
    match immediate_mnemonic(format.funct3, bits_unsigned(format.imm, 5, 11)) {
        Some(inst) => Ok(Inst::I(IInst::Arith(inst), format)),
        None => Err(Error::InvalidInstFormat(FormatError::I(format))),
    }
}

/// A word with the opcode of loads.
pub open spec fn decode_load(raw: u32) -> Result<Inst, Error> {
    let format = IFormat::parse(raw);
    match load_mnemonic(format.funct3) {
        Some(inst) => Ok(Inst::I(IInst::Mem(inst), format)),
        None => Err(Error::InvalidInstFormat(FormatError::I(format))),
    }
}

/// A word with the opcode of the jump through a register.
pub open spec fn decode_jalr(raw: u32) -> Result<Inst, Error> {
    let format = IFormat::parse(raw);
    if format.funct3 == 0 {
        Ok(Inst::I(IInst::Jalr, format))
    } else {
        Err(Error::InvalidInstFormat(FormatError::I(format)))
    }
}

/// A word with the opcode of stores.
pub open spec fn decode_store(raw: u32) -> Result<Inst, Error> {
    let format = SFormat::parse(raw);
    match store_mnemonic(format.funct3) {
        Some(inst) => Ok(Inst::S(inst, format)),
        None => Err(Error::InvalidInstFormat(FormatError::S(format))),
    }
}

/// A word with the opcode of branches.
pub open spec fn decode_branch(raw: u32) -> Result<Inst, Error> {
    let format = BFormat::parse(raw);
    match branch_mnemonic(format.funct3) {
        Some(inst) => Ok(Inst::B(inst, format)),
        None => Err(Error::InvalidInstFormat(FormatError::B(format))),
    }
}

/// The instruction that a word stands for, or the decode fault. Only a
/// supervisor call looks at the registers.
pub open spec fn decode_word(raw: u32, regs: Seq<u32>) -> Result<Inst, Error> {
    let opcode = opcode_field(raw);
    if opcode == 0b0110011 {
        decode_register(raw)
    } else if opcode == 0b0010011 {
        decode_immediate(raw)
    } else if opcode == 0b0000011 {
        decode_load(raw)
    } else if opcode == 0b1100111 {
        decode_jalr(raw)
    } else if opcode == 0b0100011 {
        decode_store(raw)
    } else if opcode == 0b1100011 {
        decode_branch(raw)
    } else if opcode == 0b1101111 {
        Ok(Inst::J(JFormat::parse(raw)))
    } else if opcode == 0b0110111 {
        Ok(Inst::U(UInst::LUI, UFormat::parse(raw)))
    } else if opcode == 0b0010111 {
        Ok(Inst::U(UInst::AUIPC, UFormat::parse(raw)))
    } else if opcode == 0b1110011 {
        Ok(Inst::SysCall(supervisor_call(regs)))
    } else if opcode == 0b0001111 {
        Ok(Inst::SysCall(SysCall::Nop))
    } else {
        Err(Error::InvalidOpcode(opcode))
    }
}

/// Every instruction that comes out of the decoder names only registers
/// that exist.
pub proof fn lemma_decoded_registers_valid(raw: u32, regs: Seq<u32>)
    ensures
        decode_word(raw, regs) matches Ok(inst) ==> inst.registers_valid(),
{
    lemma_fields_in_range(raw);
}

} // verus!
