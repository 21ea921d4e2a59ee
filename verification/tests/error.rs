use ruscv::error::{Error, FormatError};
use ruscv::inst_format::{BFormat, IFormat, RFormat, SFormat};
use ruscv::memory::MEMSIZE;

#[test]
fn invalid_opcode_message() {
    assert_eq!(Error::InvalidOpcode(0b1111111).message(), "invalid opcode: 1111111");
    assert_eq!(Error::InvalidOpcode(0b101).message(), "invalid opcode: 0000101");
    assert_eq!(Error::InvalidOpcode(0).message(), "invalid opcode: 0000000");
    assert_eq!(Error::InvalidOpcode(0x100).message(), "invalid opcode: 100000000");
}

#[test]
fn invalid_format_messages() {
    let r = RFormat::new(0x0220_9033 | (0x7f << 25));
    assert_eq!(
        Error::InvalidInstFormat(FormatError::R(r)).message(),
        "invalid R-format instruction: funct3: '001', funct7: '1111111'"
    );
    let r = RFormat { rd: 0, funct3: 2, rs1: 0, rs2: 0, funct7: 1 };
    assert_eq!(
        FormatError::R(r).message(),
        "invalid R-format instruction: funct3: '010', funct7: '0000001'"
    );
    let i = IFormat { rd: 0, funct3: 5, rs1: 0, imm: 0 };
    assert_eq!(
        Error::InvalidInstFormat(FormatError::I(i)).message(),
        "invalid I-format instruction: funct3: '101'"
    );
    let s = SFormat { funct3: 3, rs1: 0, rs2: 0, imm: 0 };
    assert_eq!(
        Error::InvalidInstFormat(FormatError::S(s)).message(),
        "invalid S-format instruction: funct3: '011'"
    );
    let b = BFormat { funct3: 0, rs1: 0, rs2: 0, imm: 0 };
    assert_eq!(
        Error::InvalidInstFormat(FormatError::B(b)).message(),
        "invalid B-format instruction: funct3: '000'"
    );
}

#[test]
fn invalid_pc_message() {
    assert_eq!(
        Error::InvalidPC(131069, MEMSIZE).message(),
        "program counter (pc: 131069) bigger than than memory (memsize: 131072B)"
    );
    assert_eq!(
        Error::InvalidPC(u32::MAX, 0).message(),
        "program counter (pc: 4294967295) bigger than than memory (memsize: 0B)"
    );
}

#[test]
fn end_of_instructions_message() {
    assert_eq!(
        Error::EndOfInstructions.message(),
        "program ran out of instructions! Use exit syscall to terminate gracefully."
    );
}

#[test]
fn format_texts() {
    let r = RFormat { rd: 0, funct3: 2, rs1: 0, rs2: 0, funct7: 0x21 };
    assert_eq!(r.to_string(), "invalid R-format instruction: funct3: '10', funct7: '100001'");
    let i = IFormat { rd: 0, funct3: 0, rs1: 0, imm: 0 };
    assert_eq!(i.to_string(), "invalid I-format instruction: funct3: '0'");
    let s = SFormat { funct3: 7, rs1: 0, rs2: 0, imm: 0 };
    assert_eq!(s.to_string(), "invalid S-format instruction: funct3: '111'");
    let b = BFormat { funct3: 1, rs1: 0, rs2: 0, imm: 0 };
    assert_eq!(b.to_string(), "invalid B-format instruction: funct3: '1'");
}
