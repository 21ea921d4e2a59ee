//! The faults that end a run.

use vstd::prelude::*;
use vstd::string::StringExecFns;
use crate::inst_format::{BFormat, IFormat, RFormat, SFormat};
use crate::text::{decimal_digits, padded_binary_digits, push_decimal, push_padded_binary};

verus! {

/// A fault of the fetch-decode-execute loop. Every fault is terminal.
#[derive(Clone, Copy, Debug)]
pub enum Error {
    /// The low seven bits of the word match no known opcode; carries them.
    InvalidOpcode(usize),
    /// The opcode is known, but the minor opcode fields select no
    /// instruction; carries the parsed fields.
    InvalidInstFormat(FormatError),
    /// A fetch would read past the end of memory; carries the program
    /// counter of the attempt and the size of memory.
    InvalidPC(u32, usize),
    /// A zero word was fetched: the program ran off its end.
    EndOfInstructions,
}

/// The format in which a word failed to decode, with its fields.
#[derive(Clone, Copy, Debug)]
pub enum FormatError {
    R(RFormat),
    I(IFormat),
    S(SFormat),
    B(BFormat),
}

impl FormatError {
    /// The diagnostic for the fault: the format, and the minor opcode fields
    /// in binary, at their full width.
    pub open spec fn message_text(self) -> Seq<char> {
        match self {
            FormatError::R(format) => "invalid R-format instruction: funct3: '"@
                + padded_binary_digits(format.funct3 as nat, 3) + "', funct7: '"@
                + padded_binary_digits(format.funct7 as nat, 7) + "'"@,
            FormatError::I(format) => "invalid I-format instruction: funct3: '"@
                + padded_binary_digits(format.funct3 as nat, 3) + "'"@,
            FormatError::S(format) => "invalid S-format instruction: funct3: '"@
                + padded_binary_digits(format.funct3 as nat, 3) + "'"@,
            FormatError::B(format) => "invalid B-format instruction: funct3: '"@
                + padded_binary_digits(format.funct3 as nat, 3) + "'"@,
        }
    }

    /// Writes the diagnostic for the fault.
    pub fn message(&self) -> (text: String)
        ensures
            text@ == self.message_text(),
    {
        match self {
            FormatError::R(format) => {
                let mut text = String::from_str("invalid R-format instruction: funct3: '");
                push_padded_binary(&mut text, format.funct3, 3);
                text.append("', funct7: '");
                push_padded_binary(&mut text, format.funct7, 7);
                text.append("'");
                text
            },
            FormatError::I(format) => {
                let mut text = String::from_str("invalid I-format instruction: funct3: '");
                push_padded_binary(&mut text, format.funct3, 3);
                text.append("'");
                text
            },
            FormatError::S(format) => {
                let mut text = String::from_str("invalid S-format instruction: funct3: '");
                push_padded_binary(&mut text, format.funct3, 3);
                text.append("'");
                text
            },
            FormatError::B(format) => {
                let mut text = String::from_str("invalid B-format instruction: funct3: '");
                push_padded_binary(&mut text, format.funct3, 3);
                text.append("'");
                text
            },
        }
    }
}

impl Error {
    /// The diagnostic for the fault: its kind, with opcodes in binary and
    /// addresses and sizes in decimal.
    pub open spec fn message_text(self) -> Seq<char> {
        match self {
            Error::InvalidOpcode(opcode) => "invalid opcode: "@ + padded_binary_digits(
                opcode as nat,
                7,
            ),
            Error::InvalidInstFormat(kind) => kind.message_text(),
            Error::InvalidPC(pc, memsize) => "program counter (pc: "@ + decimal_digits(pc as nat)
                + ") bigger than than memory (memsize: "@ + decimal_digits(memsize as nat)
                + "B)"@,
            Error::EndOfInstructions =>
                "program ran out of instructions! Use exit syscall to terminate gracefully."@,
        }
    }

    /// Writes the diagnostic for the fault.
    pub fn message(&self) -> (text: String)
        ensures
            text@ == self.message_text(),
    {
        match self {
            Error::InvalidOpcode(opcode) => {
                let mut text = String::from_str("invalid opcode: ");
                push_padded_binary(&mut text, *opcode, 7);
                text
            },
            Error::InvalidInstFormat(kind) => kind.message(),
            Error::InvalidPC(pc, memsize) => {
                let mut text = String::from_str("program counter (pc: ");
                push_decimal(&mut text, *pc as usize);
                text.append(") bigger than than memory (memsize: ");
                push_decimal(&mut text, *memsize);
                text.append("B)");
                text
            },
            Error::EndOfInstructions => String::from_str(
                "program ran out of instructions! Use exit syscall to terminate gracefully.",
            ),
        }
    }
}

} // verus!
