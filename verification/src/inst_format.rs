//! The six instruction formats of the base profile: each parser projects a
//! raw instruction word into its named fields and rebuilds the immediate.

use vstd::prelude::*;
use vstd::string::StringExecFns;
use crate::text::{binary_digits, push_binary};
use crate::bits::{
    bits_signed, bits_unsigned, extend_sign, get_bits, get_bits_extended, lemma_field_bound,
    sign_extend, signed_value,
};

verus! {

/// The destination register field, bits 7 to 11.
pub open spec fn rd_field(raw: u32) -> usize {
    bits_unsigned(raw, 7, 11) as usize
}

/// The minor opcode field, bits 12 to 14.
pub open spec fn funct3_field(raw: u32) -> usize {
    bits_unsigned(raw, 12, 14) as usize
}

/// The first source register field, bits 15 to 19.
pub open spec fn rs1_field(raw: u32) -> usize {
    bits_unsigned(raw, 15, 19) as usize
}

/// The second source register field, bits 20 to 24.
pub open spec fn rs2_field(raw: u32) -> usize {
    bits_unsigned(raw, 20, 24) as usize
}

/// The second minor opcode field, bits 25 to 31.
pub open spec fn funct7_field(raw: u32) -> usize {
    bits_unsigned(raw, 25, 31) as usize
}

/// The I-format immediate: bits 20 to 31, sign-extended.
pub open spec fn i_immediate(raw: u32) -> u32 {
    bits_signed(raw, 20, 31)
}

/// The S-format immediate: bits 25 to 31 above bits 7 to 11, sign-extended
/// from its twelfth bit.
pub open spec fn s_immediate(raw: u32) -> u32 {
    sign_extend((bits_unsigned(raw, 25, 31) << 5) | bits_unsigned(raw, 7, 11), 12)
}

/// The B-format immediate: bit 31, bit 7, bits 25 to 30, bits 8 to 11 and a
/// zero bit, from the top down, sign-extended from its thirteenth bit.
pub open spec fn b_immediate(raw: u32) -> u32 {
    sign_extend(
        (bits_unsigned(raw, 31, 31) << 12) | (bits_unsigned(raw, 7, 7) << 11) | (bits_unsigned(
            raw,
            25,
            30,
        ) << 5) | (bits_unsigned(raw, 8, 11) << 1),
        13,
    )
}

/// The U-format immediate: bits 12 to 31, sign-extended. The executor moves
/// it into the upper twenty bits.
pub open spec fn u_immediate(raw: u32) -> u32 {
    bits_signed(raw, 12, 31)
}

/// The J-format immediate: bit 31, bits 12 to 19, bit 20, bits 21 to 30 and a
/// zero bit, from the top down, sign-extended from its twenty-first bit.
pub open spec fn j_immediate(raw: u32) -> u32 {
    sign_extend(
        (bits_unsigned(raw, 31, 31) << 20) | (bits_unsigned(raw, 12, 19) << 12) | (bits_unsigned(
            raw,
            20,
            20,
        ) << 11) | (bits_unsigned(raw, 21, 30) << 1),
        21,
    )
}

/// Every register field of a raw word names one of the 32 registers, and the
/// minor opcode fields stay within their widths.
pub proof fn lemma_fields_in_range(raw: u32)
    ensures
        rd_field(raw) < 32,
        funct3_field(raw) < 8,
        rs1_field(raw) < 32,
        rs2_field(raw) < 32,
        funct7_field(raw) < 128,
{
    lemma_field_bound(raw, 7, 11);
    lemma_field_bound(raw, 12, 14);
    lemma_field_bound(raw, 15, 19);
    lemma_field_bound(raw, 20, 24);
    lemma_field_bound(raw, 25, 31);
}

/// Branch and jump offsets are even: the lowest bit of a B-format or J-format
/// immediate is never set.
pub proof fn lemma_offsets_even(raw: u32)
    ensures
        b_immediate(raw) % 2 == 0,
        j_immediate(raw) % 2 == 0,
{
    assert(b_immediate(raw) % 2 == 0) by (bit_vector);
    assert(j_immediate(raw) % 2 == 0) by (bit_vector);
}

/// Every immediate fits the width of its format: as signed numbers, the
/// I-format and S-format immediates have twelve bits, the B-format
/// immediate thirteen, the U-format immediate twenty and the J-format
/// immediate twenty-one. The I-format and U-format immediates are the word,
/// read as a signed number, shifted down.
pub proof fn lemma_immediate_ranges(raw: u32)
    ensures
        -0x800 <= signed_value(i_immediate(raw)) < 0x800,
        -0x800 <= signed_value(s_immediate(raw)) < 0x800,
        -0x1000 <= signed_value(b_immediate(raw)) < 0x1000,
        -0x8_0000 <= signed_value(u_immediate(raw)) < 0x8_0000,
        -0x10_0000 <= signed_value(j_immediate(raw)) < 0x10_0000,
        i_immediate(raw) == ((raw as i32) >> 20u32) as u32,
        u_immediate(raw) == ((raw as i32) >> 12u32) as u32,
{
    assert(i_immediate(raw) < 0x800 || i_immediate(raw) >= 0xffff_f800) by (bit_vector);
    assert(s_immediate(raw) < 0x800 || s_immediate(raw) >= 0xffff_f800) by (bit_vector);
    assert(b_immediate(raw) < 0x1000 || b_immediate(raw) >= 0xffff_f000) by (bit_vector);
    assert(u_immediate(raw) < 0x8_0000 || u_immediate(raw) >= 0xfff8_0000) by (bit_vector);
    assert(j_immediate(raw) < 0x10_0000 || j_immediate(raw) >= 0xfff0_0000) by (bit_vector);
    assert(i_immediate(raw) == ((raw as i32) >> 20u32) as u32) by (bit_vector);
    assert(u_immediate(raw) == ((raw as i32) >> 12u32) as u32) by (bit_vector);
}

/// Register-register format.
#[derive(Clone, Copy, Debug)]
pub struct RFormat {
    pub rd: usize,
    pub funct3: usize,
    pub rs1: usize,
    pub rs2: usize,
    pub funct7: usize,
}

impl RFormat {
    /// The fields that a raw word holds when read in this format.
    pub open spec fn parse(raw: u32) -> RFormat {
        RFormat {
            rd: rd_field(raw),
            funct3: funct3_field(raw),
            rs1: rs1_field(raw),
            rs2: rs2_field(raw),
            funct7: funct7_field(raw),
        }
    }

    /// All register fields name one of the 32 registers.
    pub open spec fn registers_valid(&self) -> bool {
        self.rd < 32 && self.rs1 < 32 && self.rs2 < 32
    }

    pub fn new(raw_inst: u32) -> (format: RFormat)
        ensures
            format == RFormat::parse(raw_inst),
            format.registers_valid(),
            format.funct3 < 8,
            format.funct7 < 128,
    {
        proof {
            lemma_fields_in_range(raw_inst);
        }
        RFormat {
            rd: get_bits(raw_inst, 7, 11) as usize,
            funct3: get_bits(raw_inst, 12, 14) as usize,
            rs1: get_bits(raw_inst, 15, 19) as usize,
            rs2: get_bits(raw_inst, 20, 24) as usize,
            funct7: get_bits(raw_inst, 25, 31) as usize,
        }
    }

    /// The text that presents the fields as those of an invalid
    /// instruction: the minor opcode fields in binary.
    pub open spec fn text(&self) -> Seq<char> {
        "invalid R-format instruction: funct3: '"@ + binary_digits(self.funct3 as nat)
            + "', funct7: '"@ + binary_digits(self.funct7 as nat) + "'"@
    }

    /// Writes the fields out as those of an invalid instruction.
    pub fn to_string(&self) -> (text: String)
        ensures
            text@ == self.text(),
    {
        let mut text = String::from_str("invalid R-format instruction: funct3: '");
        push_binary(&mut text, self.funct3);
        text.append("', funct7: '");
        push_binary(&mut text, self.funct7);
        text.append("'");
        text
    }
}

/// Register-immediate format.
#[derive(Clone, Copy, Debug)]
pub struct IFormat {
    pub rd: usize,
    pub funct3: usize,
    pub rs1: usize,
    pub imm: u32,
}

impl IFormat {
    /// The fields that a raw word holds when read in this format.
    pub open spec fn parse(raw: u32) -> IFormat {
        IFormat {
            rd: rd_field(raw),
            funct3: funct3_field(raw),
            rs1: rs1_field(raw),
            imm: i_immediate(raw),
        }
    }

    /// All register fields name one of the 32 registers.
    pub open spec fn registers_valid(&self) -> bool {
        self.rd < 32 && self.rs1 < 32
    }

    pub fn new(raw_inst: u32) -> (format: IFormat)
        ensures
            format == IFormat::parse(raw_inst),
            format.registers_valid(),
            format.funct3 < 8,
    {
        proof {
            lemma_fields_in_range(raw_inst);
        }
        IFormat {
            rd: get_bits(raw_inst, 7, 11) as usize,
            funct3: get_bits(raw_inst, 12, 14) as usize,
            rs1: get_bits(raw_inst, 15, 19) as usize,
            imm: get_bits_extended(raw_inst, 20, 31),
        }
    }

    /// The text that presents the fields as those of an invalid
    /// instruction: the minor opcode fields in binary.
    pub open spec fn text(&self) -> Seq<char> {
        "invalid I-format instruction: funct3: '"@ + binary_digits(self.funct3 as nat) + "'"@
    }

    /// Writes the fields out as those of an invalid instruction.
    pub fn to_string(&self) -> (text: String)
        ensures
            text@ == self.text(),
    {
        let mut text = String::from_str("invalid I-format instruction: funct3: '");
        push_binary(&mut text, self.funct3);
        text.append("'");
        text
    }
}

/// Store format.
#[derive(Clone, Copy, Debug)]
pub struct SFormat {
    pub funct3: usize,
    pub rs1: usize,
    pub rs2: usize,
    pub imm: u32,
}

impl SFormat {
    /// The fields that a raw word holds when read in this format.
    pub open spec fn parse(raw: u32) -> SFormat {
        SFormat {
            funct3: funct3_field(raw),
            rs1: rs1_field(raw),
            rs2: rs2_field(raw),
            imm: s_immediate(raw),
        }
    }

    /// All register fields name one of the 32 registers.
    pub open spec fn registers_valid(&self) -> bool {
        self.rs1 < 32 && self.rs2 < 32
    }

    pub fn new(raw_inst: u32) -> (format: SFormat)
        ensures
            format == SFormat::parse(raw_inst),
            format.registers_valid(),
            format.funct3 < 8,
    {
        proof {
            lemma_fields_in_range(raw_inst);
        }
        let imm_lo: u32 = get_bits(raw_inst, 7, 11);
        let imm_hi: u32 = get_bits(raw_inst, 25, 31);
        SFormat {
            funct3: get_bits(raw_inst, 12, 14) as usize,
            rs1: get_bits(raw_inst, 15, 19) as usize,
            rs2: get_bits(raw_inst, 20, 24) as usize,
            imm: extend_sign((imm_hi << 5) | imm_lo, 12),
        }
    }

    /// The text that presents the fields as those of an invalid
    /// instruction: the minor opcode fields in binary.
    pub open spec fn text(&self) -> Seq<char> {
        "invalid S-format instruction: funct3: '"@ + binary_digits(self.funct3 as nat) + "'"@
    }

    /// Writes the fields out as those of an invalid instruction.
    pub fn to_string(&self) -> (text: String)
        ensures
            text@ == self.text(),
    {
        let mut text = String::from_str("invalid S-format instruction: funct3: '");
        push_binary(&mut text, self.funct3);
        text.append("'");
        text
    }
}

/// Branch format. The twelve encoded bits give an even offset: the lowest bit
/// of the store format's immediate carries a high-order bit here.
#[derive(Clone, Copy, Debug)]
pub struct BFormat {
    pub funct3: usize,
    pub rs1: usize,
    pub rs2: usize,
    pub imm: u32,
}

impl BFormat {
    /// The fields that a raw word holds when read in this format.
    pub open spec fn parse(raw: u32) -> BFormat {
        BFormat {
            funct3: funct3_field(raw),
            rs1: rs1_field(raw),
            rs2: rs2_field(raw),
            imm: b_immediate(raw),
        }
    }

    /// All register fields name one of the 32 registers.
    pub open spec fn registers_valid(&self) -> bool {
        self.rs1 < 32 && self.rs2 < 32
    }

    pub fn new(raw_inst: u32) -> (format: BFormat)
        ensures
            format == BFormat::parse(raw_inst),
            format.registers_valid(),
            format.funct3 < 8,
            format.imm % 2 == 0,
    {
        proof {
            lemma_fields_in_range(raw_inst);
            lemma_offsets_even(raw_inst);
        }
        let imm_lo: u32 = get_bits(raw_inst, 8, 11);
        let imm_11th_bit: u32 = get_bits(raw_inst, 7, 7);
        let imm_hi: u32 = get_bits(raw_inst, 25, 30);
        let imm_12th_bit: u32 = get_bits(raw_inst, 31, 31);
        BFormat {
            funct3: get_bits(raw_inst, 12, 14) as usize,
            rs1: get_bits(raw_inst, 15, 19) as usize,
            rs2: get_bits(raw_inst, 20, 24) as usize,
            imm: extend_sign(
                (imm_12th_bit << 12) | (imm_11th_bit << 11) | (imm_hi << 5) | (imm_lo << 1),
                13,
            ),
        }
    }

    /// The text that presents the fields as those of an invalid
    /// instruction: the minor opcode fields in binary.
    pub open spec fn text(&self) -> Seq<char> {
        "invalid B-format instruction: funct3: '"@ + binary_digits(self.funct3 as nat) + "'"@
    }

    /// Writes the fields out as those of an invalid instruction.
    pub fn to_string(&self) -> (text: String)
        ensures
            text@ == self.text(),
    {
        let mut text = String::from_str("invalid B-format instruction: funct3: '");
        push_binary(&mut text, self.funct3);
        text.append("'");
        text
    }
}

/// Jump format.
#[derive(Clone, Copy, Debug)]
pub struct JFormat {
    pub rd: usize,
    pub imm: u32,
}

impl JFormat {
    /// The fields that a raw word holds when read in this format.
    pub open spec fn parse(raw: u32) -> JFormat {
        JFormat { rd: rd_field(raw), imm: j_immediate(raw) }
    }

    /// The register field names one of the 32 registers.
    pub open spec fn registers_valid(&self) -> bool {
        self.rd < 32
    }

    pub fn new(raw_inst: u32) -> (format: JFormat)
        ensures
            format == JFormat::parse(raw_inst),
            format.registers_valid(),
            format.imm % 2 == 0,
    {
        proof {
            lemma_fields_in_range(raw_inst);
            lemma_offsets_even(raw_inst);
        }
        let imm_hi: u32 = get_bits(raw_inst, 12, 19);
        let imm_11th_bit: u32 = get_bits(raw_inst, 20, 20);
        let imm_lo: u32 = get_bits(raw_inst, 21, 30);
        let imm_20th_bit: u32 = get_bits(raw_inst, 31, 31);
        JFormat {
            rd: get_bits(raw_inst, 7, 11) as usize,
            imm: extend_sign(
                (imm_20th_bit << 20) | (imm_hi << 12) | (imm_11th_bit << 11) | (imm_lo << 1),
                21,
            ),
        }
    }
}

/// Upper-immediate format.
#[derive(Clone, Copy, Debug)]
pub struct UFormat {
    pub rd: usize,
    pub imm: u32,
}

impl UFormat {
    /// The fields that a raw word holds when read in this format.
    pub open spec fn parse(raw: u32) -> UFormat {
        UFormat { rd: rd_field(raw), imm: u_immediate(raw) }
    }

    /// The register field names one of the 32 registers.
    pub open spec fn registers_valid(&self) -> bool {
        self.rd < 32
    }

    pub fn new(raw_inst: u32) -> (format: UFormat)
        ensures
            format == UFormat::parse(raw_inst),
            format.registers_valid(),
    {
        proof {
            lemma_fields_in_range(raw_inst);
        }
        UFormat { rd: get_bits(raw_inst, 7, 11) as usize, imm: get_bits_extended(raw_inst, 12, 31) }
    }
}

} // verus!
