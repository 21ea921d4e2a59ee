use ruscv::bits::{
    add_wrapping, extend_sign, get_bits, get_bits_extended, get_bits_signed,
    shift_right_arithmetic, sub_wrapping, to_signed,
};
use ruscv::inst_format::{BFormat, IFormat, JFormat, RFormat, SFormat, UFormat};

#[test]
fn get_bits_base() {
    assert_eq!(0b1101, get_bits(0b111101101, 0, 3));
    assert_eq!(0b110, get_bits(0b111101101, 4, 6));
}

#[test]
fn get_bits_sign_extended() {
    let n: u32 = 0b11111000000100000000111110010011;
    assert_eq!(-127, get_bits_signed(n, 20, 31));
    assert_eq!(0b011, get_bits_signed(n, 10, 13));
}

#[test]
fn parse_cond_br_imm() {
    // bge x0, x0, -12
    assert_eq!(
        BFormat::new(0b1111_1110_0000_0000_0101_1010_1110_0011).imm as i32,
        -12
    );
}

#[test]
fn get_bits_extended_is_the_bit_pattern() {
    let n: u32 = 0b11111000000100000000111110010011;
    assert_eq!(get_bits_extended(n, 20, 31), (-127i32) as u32);
    assert_eq!(get_bits_extended(n, 0, 31), n);
    assert_eq!(get_bits(n, 0, 31), n);
}

#[test]
fn field_round_trip() {
    // a field placed into a word comes back out, whatever surrounds it
    for word in [0u32, 0xffff_ffff, 0x1234_5678] {
        let fields = [(7u32, 11u32, 0b10101u32), (0, 6, 0x33), (20, 31, 0xf81), (31, 31, 1)];
        for (lo, hi, field) in fields {
            let width = hi - lo + 1;
            let mask = if width == 32 { u32::MAX } else { (1 << width) - 1 };
            let built = (word & !(mask << lo)) | (field << lo);
            assert_eq!(get_bits(built, lo, hi), field);
            let signed = get_bits_extended(built, lo, hi);
            assert_eq!(signed & mask, field);
            assert_eq!(signed, extend_sign(field, width));
        }
    }
}

#[test]
fn sign_extension() {
    assert_eq!(extend_sign(0xf81, 12), 0xffff_ff81);
    assert_eq!(extend_sign(0x781, 12), 0x781);
    assert_eq!(extend_sign(1, 1), 0xffff_ffff);
    assert_eq!(extend_sign(0x8000_0000, 32), 0x8000_0000);
    assert_eq!(to_signed(0xffff_ff81), -127);
    assert_eq!(to_signed(0x7fff_ffff), i32::MAX);
    assert_eq!(to_signed(0x8000_0000), i32::MIN);
}

#[test]
fn wrapping_arithmetic() {
    assert_eq!(add_wrapping(u32::MAX, 5), 4);
    assert_eq!(add_wrapping(3, 5), 8);
    assert_eq!(sub_wrapping(3, 5), 0xffff_fffe);
    assert_eq!(sub_wrapping(5, 3), 2);
    assert_eq!(shift_right_arithmetic(0x8000_0000, 1), 0xc000_0000);
    assert_eq!(shift_right_arithmetic(0x7000_0000, 1), 0x3800_0000);
    assert_eq!(shift_right_arithmetic(0x8000_0000, 0), 0x8000_0000);
}

#[test]
fn parse_register_format() {
    // sub x7, x5, x6
    let format = RFormat::new(0x4062_83b3);
    assert_eq!(
        (format.rd, format.funct3, format.rs1, format.rs2, format.funct7),
        (7, 0, 5, 6, 0x20)
    );
}

#[test]
fn parse_immediate_format() {
    // addi x31, x0, -127
    let format = IFormat::new(0xf810_0f93);
    assert_eq!((format.rd, format.funct3, format.rs1), (31, 0, 0));
    assert_eq!(format.imm as i32, -127);
    // lw x6, 2047(x2)
    let format = IFormat::new(0x7ff1_2303);
    assert_eq!((format.rd, format.funct3, format.rs1, format.imm), (6, 2, 2, 2047));
}

#[test]
fn parse_store_format() {
    // sb x28, -5(x27)
    let format = SFormat::new(0xffcd_8da3);
    assert_eq!((format.funct3, format.rs1, format.rs2), (0, 27, 28));
    assert_eq!(format.imm as i32, -5);
    // sw x1, 36(x2)
    let format = SFormat::new(0x0211_2223);
    assert_eq!((format.funct3, format.rs1, format.rs2, format.imm), (2, 2, 1, 36));
}

#[test]
fn parse_branch_format() {
    // bge x0, x0, -12
    let format = BFormat::new(0xfe00_5ae3);
    assert_eq!((format.funct3, format.rs1, format.rs2), (5, 0, 0));
    assert_eq!(format.imm as i32, -12);
    // beq x1, x2, 2048: only the bit that sits in instruction bit 7
    let format = BFormat::new(0x0020_80e3);
    assert_eq!((format.funct3, format.rs1, format.rs2, format.imm), (0, 1, 2, 2048));
}

#[test]
fn parse_jump_format() {
    // jal x1, -24
    let format = JFormat::new(0xfe9f_f0ef);
    assert_eq!(format.rd, 1);
    assert_eq!(format.imm as i32, -24);
    // jal x0, 2048: only the bit that sits in instruction bit 20
    let format = JFormat::new(0x0010_006f);
    assert_eq!((format.rd, format.imm), (0, 2048));
    // jal x0, 0x7f000: bits 12 to 18
    let format = JFormat::new(0x0007_f06f);
    assert_eq!(format.imm, 0x7f000);
}

#[test]
fn parse_upper_format() {
    // lui x10, 0x12345
    let format = UFormat::new(0x1234_5537);
    assert_eq!((format.rd, format.imm), (10, 0x12345));
    // the immediate is sign-extended from its twentieth bit
    let format = UFormat::new(0x8000_0537);
    assert_eq!(format.imm, 0xfff8_0000);
}

#[test]
fn offsets_are_even() {
    let words = [0u32, 0xffff_ffff, 0xfe00_5ae3, 0x0000_0fe3, 0x8000_0080, 0x0010_006f];
    for raw in words {
        assert_eq!(BFormat::new(raw).imm % 2, 0);
        assert_eq!(JFormat::new(raw).imm % 2, 0);
    }
}
