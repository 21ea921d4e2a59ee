use ruscv::cpu::{Cpu, ProgState};
use ruscv::error::{Error, FormatError};
use ruscv::inst::{ArithIInst, IInst, Inst, RInst, SysCall};
use ruscv::inst_format::IFormat;
use ruscv::memory::{Size, MEMSIZE};

const OP: u32 = 0b0110011;
const OP_IMM: u32 = 0b0010011;
const LOAD: u32 = 0b0000011;
const STORE: u32 = 0b0100011;
const BRANCH: u32 = 0b1100011;
const JALR: u32 = 0b1100111;
const JAL: u32 = 0b1101111;
const LUI: u32 = 0b0110111;
const AUIPC: u32 = 0b0010111;
const ECALL: u32 = 0b1110011;
const FENCE: u32 = 0b0001111;

fn r_type(funct7: u32, rs2: u32, rs1: u32, funct3: u32, rd: u32) -> u32 {
    (funct7 << 25) | (rs2 << 20) | (rs1 << 15) | (funct3 << 12) | (rd << 7) | OP
}

fn i_type(imm: i32, rs1: u32, funct3: u32, rd: u32, opcode: u32) -> u32 {
    (((imm as u32) & 0xfff) << 20) | (rs1 << 15) | (funct3 << 12) | (rd << 7) | opcode
}

fn s_type(imm: i32, rs2: u32, rs1: u32, funct3: u32) -> u32 {
    let imm = imm as u32;
    (((imm >> 5) & 0x7f) << 25) | (rs2 << 20) | (rs1 << 15) | (funct3 << 12) | ((imm & 0x1f) << 7)
        | STORE
}

fn b_type(imm: i32, rs2: u32, rs1: u32, funct3: u32) -> u32 {
    let imm = imm as u32;
    (((imm >> 12) & 1) << 31)
        | (((imm >> 5) & 0x3f) << 25)
        | (rs2 << 20)
        | (rs1 << 15)
        | (funct3 << 12)
        | (((imm >> 1) & 0xf) << 8)
        | (((imm >> 11) & 1) << 7)
        | BRANCH
}

fn u_type(imm: u32, rd: u32, opcode: u32) -> u32 {
    (imm << 12) | (rd << 7) | opcode
}

fn j_type(imm: i32, rd: u32) -> u32 {
    let imm = imm as u32;
    (((imm >> 20) & 1) << 31)
        | (((imm >> 1) & 0x3ff) << 21)
        | (((imm >> 11) & 1) << 20)
        | (((imm >> 12) & 0xff) << 12)
        | (rd << 7)
        | JAL
}

fn addi(rd: u32, rs1: u32, imm: i32) -> u32 {
    i_type(imm, rs1, 0, rd, OP_IMM)
}

fn image(words: &[u32]) -> Vec<u8> {
    let mut bytes = Vec::new();
    for word in words {
        bytes.extend_from_slice(&word.to_le_bytes());
    }
    bytes
}

#[test]
fn x0_hardwired() {
    // addi x0, x0, -127
    let program = image(&[addi(0, 0, -127)]);
    let mut cpu = Cpu::new(false);
    cpu.mem.load_program(program);

    assert!(cpu.emulate_cycle().is_ok());
    assert_eq!(0, cpu.regs.read(0));
}

#[test]
fn negative_assign() {
    // addi x31, x0, -127
    let program = image(&[addi(31, 0, -127)]);
    assert_eq!(program, vec![0x93, 0x0f, 0x10, 0xf8]);
    let mut cpu = Cpu::new(false);
    cpu.mem.load_program(program);

    assert!(cpu.emulate_cycle().is_ok());
    let n = -127;
    assert_eq!(n as u32, cpu.regs.read(31));
    assert_eq!(0, cpu.regs.read(0));
}

#[test]
fn auipc_copy() {
    // auipc x10, 0
    let program = image(&[u_type(0, 10, AUIPC)]);
    let mut cpu = Cpu::new(false);

    assert!(matches!(cpu.run(program), Err(Error::EndOfInstructions)));
    assert_eq!(cpu.regs.read(10), 0);
}

#[test]
fn auipc_offset() {
    // addi x11, x0, 12
    // auipc x10, 4
    let program = image(&[addi(11, 0, 12), u_type(4, 10, AUIPC)]);
    let mut cpu = Cpu::new(false);

    assert!(matches!(cpu.run(program), Err(Error::EndOfInstructions)));
    assert_eq!(cpu.regs.read(10), 16388);
    assert_eq!(cpu.regs.read(11), 12);
}

#[test]
fn x0_stays_zero_through_a_run() {
    // addi x0, x0, -127, then the end of the stream
    let mut cpu = Cpu::new(false);
    let outcome = cpu.run(image(&[addi(0, 0, -127)]));
    assert!(matches!(outcome, Err(Error::EndOfInstructions)));
    assert_eq!(cpu.regs.read(0), 0);
    assert_eq!(cpu.pc.get(), 8);
}

#[test]
fn destination_x0_leaves_registers_alone() {
    let mut cpu = Cpu::new(false);
    cpu.regs.write(5, 77);
    cpu.regs.write(6, 11);
    let before: Vec<u32> = (0..32).map(|i| cpu.regs.read(i)).collect();
    // add x0, x5, x6; lui x0, 0xfffff; jal x0, 4; lw x0, 0(x0)
    let program = image(&[
        r_type(0, 6, 5, 0, 0),
        u_type(0xfffff, 0, LUI),
        j_type(4, 0),
        i_type(0, 0, 2, 0, LOAD),
    ]);
    cpu.mem.load_program(program);
    for cycle in 0..4 {
        assert!(matches!(cpu.emulate_cycle(), Ok(ProgState::Continue)));
        let after: Vec<u32> = (0..32).map(|i| cpu.regs.read(i)).collect();
        assert_eq!(before, after);
        assert_eq!(cpu.pc.get(), 4 * (cycle + 1));
    }
}

#[test]
fn addi_zero_is_a_no_op() {
    let mut cpu = Cpu::new(false);
    cpu.regs.write(9, 0xdead_beef);
    let inst = Inst::I(
        IInst::Arith(ArithIInst::ADDI),
        IFormat { rd: 9, funct3: 0, rs1: 9, imm: 0 },
    );
    inst.execute(&mut cpu);
    assert_eq!(cpu.regs.read(9), 0xdead_beef);
    let copy = Inst::I(
        IInst::Arith(ArithIInst::ADDI),
        IFormat { rd: 0, funct3: 0, rs1: 9, imm: 0 },
    );
    copy.execute(&mut cpu);
    assert_eq!(cpu.regs.read(0), 0);
}

#[test]
fn zero_memory_ends_at_once() {
    let mut cpu = Cpu::new(false);
    assert!(matches!(cpu.emulate_cycle(), Err(Error::EndOfInstructions)));
    assert_eq!(cpu.pc.get(), 4);

    let mut cpu = Cpu::new(false);
    assert!(matches!(cpu.run(Vec::new()), Err(Error::EndOfInstructions)));
    let mut cpu = Cpu::new(false);
    assert!(matches!(
        cpu.run_bounded(Vec::new(), 1),
        Some(Err(Error::EndOfInstructions))
    ));
}

#[test]
fn new_machine_state() {
    let cpu = Cpu::new(true);
    assert!(cpu.print_debug);
    assert_eq!(cpu.pc.get(), 0);
    for i in 0..32 {
        let expected = if i == 2 { MEMSIZE as u32 } else { 0 };
        assert_eq!(cpu.regs.read(i), expected);
    }
    assert_eq!(cpu.mem.read(Size::Word, 0, true), 0);
    assert_eq!(cpu.mem.read(Size::Word, (MEMSIZE - 4) as u32, true), 0);
}

#[test]
fn signed_branch_is_taken() {
    // addi x20, x0, -1; addi x21, x0, 1; blt x20, x21, +8; addi x20, x0, 5
    let program = image(&[
        addi(20, 0, -1),
        addi(21, 0, 1),
        b_type(8, 21, 20, 4),
        addi(20, 0, 5),
    ]);
    let mut cpu = Cpu::new(false);
    assert!(matches!(cpu.run(program), Err(Error::EndOfInstructions)));
    assert_eq!(cpu.regs.read(20) as i32, -1);
    assert_eq!(cpu.regs.read(21), 1);
}

#[test]
fn signed_branch_not_taken_on_greater() {
    // addi x20, x0, -1; addi x21, x0, 1; bge x20, x21, +8; addi x22, x0, 5
    let program = image(&[
        addi(20, 0, -1),
        addi(21, 0, 1),
        b_type(8, 21, 20, 5),
        addi(22, 0, 5),
    ]);
    let mut cpu = Cpu::new(false);
    assert!(matches!(cpu.run(program), Err(Error::EndOfInstructions)));
    assert_eq!(cpu.regs.read(22), 5);
}

#[test]
fn strict_branch_on_equal_operands() {
    // blt and bltu fall through on equal operands; bge and bgeu jump
    let cases = [(4u32, false), (6, false), (5, true), (7, true), (0, true), (1, false)];
    for (funct3, taken) in cases {
        let program = image(&[
            addi(20, 0, 7),
            addi(21, 0, 7),
            b_type(8, 21, 20, funct3),
            addi(22, 0, 1),
        ]);
        let mut cpu = Cpu::new(false);
        assert!(matches!(cpu.run(program), Err(Error::EndOfInstructions)));
        assert_eq!(cpu.regs.read(22), if taken { 0 } else { 1 });
    }
}

#[test]
fn unsigned_branch_loop_ends_on_equality() {
    // addi x20, x0, 0; addi x21, x0, 100; loop: addi x20, x20, 1; bltu x20, x21, loop
    let program = image(&[
        addi(20, 0, 0),
        addi(21, 0, 100),
        addi(20, 20, 1),
        b_type(-4, 21, 20, 6),
    ]);
    let mut cpu = Cpu::new(false);
    assert!(matches!(cpu.run(program), Err(Error::EndOfInstructions)));
    assert_eq!(cpu.regs.read(20), 100);
    assert_eq!(cpu.regs.read(21), 100);
}

#[test]
fn unsigned_branch_treats_minus_one_as_large() {
    // addi x20, x0, -1; addi x21, x0, 1; bltu x20, x21, +8; addi x22, x0, 5
    let program = image(&[
        addi(20, 0, -1),
        addi(21, 0, 1),
        b_type(8, 21, 20, 6),
        addi(22, 0, 5),
    ]);
    let mut cpu = Cpu::new(false);
    assert!(matches!(cpu.run(program), Err(Error::EndOfInstructions)));
    assert_eq!(cpu.regs.read(22), 5);
}

#[test]
fn store_with_negative_offset() {
    // addi x28, x0, 60; addi x27, x0, 261; sb x28, -5(x27)
    let program = image(&[addi(28, 0, 60), addi(27, 0, 261), s_type(-5, 28, 27, 0)]);
    let mut cpu = Cpu::new(false);
    assert!(matches!(cpu.run(program), Err(Error::EndOfInstructions)));
    assert_eq!(cpu.regs.read(27), 261);
    assert_eq!(cpu.regs.read(28), 60);
    assert_eq!(cpu.mem.read(Size::Byte, 256, true), 60);
    assert_eq!(cpu.mem.read(Size::Byte, 255, true), 0);
    assert_eq!(cpu.mem.read(Size::Byte, 257, true), 0);
}

#[test]
fn negative_offset_load() {
    // addi x28, x0, 60; sb x28, 20(x0); addi x27, x0, 21; lb x30, -1(x27)
    let program = image(&[
        addi(28, 0, 60),
        s_type(20, 28, 0, 0),
        addi(27, 0, 21),
        i_type(-1, 27, 0, 30, LOAD),
    ]);
    let mut cpu = Cpu::new(false);
    assert!(matches!(cpu.run(program), Err(Error::EndOfInstructions)));
    assert_eq!(cpu.regs.read(27), 21);
    assert_eq!(cpu.regs.read(30), 60);
    assert_eq!(cpu.mem.read(Size::Byte, 20, true), 60);
}

fn fibonacci_program() -> Vec<u8> {
    let (ra, sp, t0, t1, a0, a7) = (1, 2, 5, 6, 10, 17);
    image(&[
        addi(a0, 0, 10),               // 0
        j_type(12, ra),                // 1: jal ra, fib
        addi(a7, 0, 93),               // 2
        ECALL,                         // 3
        addi(t0, 0, 2),                // 4: fib
        b_type(56, t0, a0, 4),         // 5: blt a0, t0, done
        addi(sp, sp, -12),             // 6
        s_type(0, ra, sp, 2),          // 7: sw ra, 0(sp)
        s_type(4, a0, sp, 2),          // 8: sw a0, 4(sp)
        addi(a0, a0, -1),              // 9
        j_type(-24, ra),               // 10: jal ra, fib
        s_type(8, a0, sp, 2),          // 11: sw a0, 8(sp)
        i_type(4, sp, 2, a0, LOAD),    // 12: lw a0, 4(sp)
        addi(a0, a0, -2),              // 13
        j_type(-40, ra),               // 14: jal ra, fib
        i_type(8, sp, 2, t1, LOAD),    // 15: lw t1, 8(sp)
        r_type(0, t1, a0, 0, a0),      // 16: add a0, a0, t1
        i_type(0, sp, 2, ra, LOAD),    // 17: lw ra, 0(sp)
        addi(sp, sp, 12),              // 18
        i_type(0, ra, 0, 0, JALR),     // 19: done: jalr x0, ra, 0
    ])
}

#[test]
fn fibonacci_with_exit_call() {
    let mut cpu = Cpu::new(false);
    let outcome = cpu.run(fibonacci_program());
    assert!(matches!(outcome, Ok(55)));
    assert_eq!(cpu.regs.read(10), 55);
    assert_eq!(cpu.regs.read(2), MEMSIZE as u32);
    assert_eq!(cpu.regs.read(0), 0);
}

#[test]
fn fibonacci_bounded() {
    let mut cpu = Cpu::new(false);
    assert!(matches!(cpu.run_bounded(fibonacci_program(), 1_000_000), Some(Ok(55))));
    assert_eq!(cpu.regs.read(10), 55);

    // too few cycles: the run is cut off
    let mut cpu = Cpu::new(false);
    assert!(cpu.run_bounded(fibonacci_program(), 10).is_none());
    // the tenth cycle is the first instruction of the second call
    assert_eq!(cpu.pc.get(), 20);
    assert_eq!(cpu.regs.read(10), 9);
}

#[test]
fn exit_code_is_low_byte() {
    // lui a0, 1; addi a0, a0, 0x137; addi a7, x0, 93; ecall
    let program = image(&[u_type(1, 10, LUI), addi(10, 10, 0x137), addi(17, 0, 93), ECALL]);
    let mut cpu = Cpu::new(false);
    assert!(matches!(cpu.run(program), Ok(0x37)));
    assert_eq!(cpu.regs.read(10), 0x1137);
}

#[test]
fn other_supervisor_calls_and_fence_do_nothing() {
    // addi a7, x0, 64; ecall; fence; addi x5, x0, 1
    let program = image(&[addi(17, 0, 64), ECALL, FENCE, addi(5, 0, 1)]);
    let mut cpu = Cpu::new(false);
    assert!(matches!(cpu.run(program), Err(Error::EndOfInstructions)));
    assert_eq!(cpu.regs.read(5), 1);
    assert_eq!(cpu.pc.get(), 20);
}

#[test]
fn decode_supervisor_call() {
    let mut cpu = Cpu::new(false);
    assert!(matches!(cpu.decode(ECALL), Ok(Inst::SysCall(SysCall::Nop))));
    cpu.regs.write(17, 93);
    cpu.regs.write(10, 0x2ff);
    assert!(matches!(cpu.decode(ECALL), Ok(Inst::SysCall(SysCall::Exit(0xff)))));
    assert!(matches!(cpu.decode(FENCE), Ok(Inst::SysCall(SysCall::Nop))));
}

#[test]
fn decode_register_table() {
    let cpu = Cpu::new(false);
    let cases = [
        (0x0, 0x00, "ADD"),
        (0x0, 0x20, "SUB"),
        (0x4, 0x00, "XOR"),
        (0x6, 0x00, "OR"),
        (0x7, 0x00, "AND"),
        (0x1, 0x00, "SLL"),
        (0x5, 0x00, "SRL"),
        (0x5, 0x20, "SRA"),
        (0x2, 0x00, "SLT"),
        (0x3, 0x00, "SLTU"),
    ];
    for (funct3, funct7, name) in cases {
        match cpu.decode(r_type(funct7, 3, 2, funct3, 1)) {
            Ok(Inst::R(inst, format)) => {
                assert_eq!(format!("{:?}", inst), name);
                assert_eq!((format.rd, format.rs1, format.rs2), (1, 2, 3));
                assert_eq!((format.funct3, format.funct7), (funct3 as usize, funct7 as usize));
            }
            _ => panic!("{} does not decode", name),
        }
    }
}

#[test]
fn decode_immediate_table() {
    let cpu = Cpu::new(false);
    let cases = [
        (0x0, -1, "ADDI"),
        (0x4, -1, "XORI"),
        (0x6, -1, "ORI"),
        (0x7, -1, "ANDI"),
        (0x1, 3, "SLLI"),
        (0x5, 3, "SRLI"),
        (0x5, 0x403, "SRAI"),
        (0x2, -1, "SLTI"),
        (0x3, -1, "SLTIU"),
    ];
    for (funct3, imm, name) in cases {
        match cpu.decode(i_type(imm, 2, funct3, 1, OP_IMM)) {
            Ok(Inst::I(IInst::Arith(inst), format)) => {
                assert_eq!(format!("{:?}", inst), name);
                assert_eq!(format.imm, imm as u32);
            }
            _ => panic!("{} does not decode", name),
        }
    }
}

#[test]
fn decode_other_tables() {
    let cpu = Cpu::new(false);
    for (funct3, name) in [(0, "LB"), (1, "LH"), (2, "LW"), (4, "LBU"), (5, "LHU")] {
        match cpu.decode(i_type(8, 2, funct3, 1, LOAD)) {
            Ok(Inst::I(IInst::Mem(inst), _)) => assert_eq!(format!("{:?}", inst), name),
            _ => panic!("{} does not decode", name),
        }
    }
    for (funct3, name) in [(0, "SB"), (1, "SH"), (2, "SW")] {
        match cpu.decode(s_type(-8, 3, 2, funct3)) {
            Ok(Inst::S(inst, format)) => {
                assert_eq!(format!("{:?}", inst), name);
                assert_eq!(format.imm, (-8i32) as u32);
            }
            _ => panic!("{} does not decode", name),
        }
    }
    let branches = [(0, "BEQ"), (1, "BNE"), (4, "BLT"), (5, "BGE"), (6, "BLTU"), (7, "BGEU")];
    for (funct3, name) in branches {
        match cpu.decode(b_type(-4096, 3, 2, funct3)) {
            Ok(Inst::B(inst, format)) => {
                assert_eq!(format!("{:?}", inst), name);
                assert_eq!(format.imm, (-4096i32) as u32);
            }
            _ => panic!("{} does not decode", name),
        }
    }
    match cpu.decode(j_type(-1048576, 1)) {
        Ok(Inst::J(format)) => assert_eq!((format.rd, format.imm), (1, (-1048576i32) as u32)),
        _ => panic!("JAL does not decode"),
    }
    match cpu.decode(j_type(0xff7fe, 1)) {
        Ok(Inst::J(format)) => assert_eq!(format.imm, 0xff7fe),
        _ => panic!("JAL does not decode"),
    }
    assert!(matches!(cpu.decode(i_type(4, 2, 0, 1, JALR)), Ok(Inst::I(IInst::Jalr, _))));
    match cpu.decode(u_type(0x80001, 7, LUI)) {
        Ok(Inst::U(inst, format)) => {
            assert_eq!(format!("{:?}", inst), "LUI");
            assert_eq!((format.rd, format.imm), (7, 0xfff8_0001));
        }
        _ => panic!("LUI does not decode"),
    }
    match cpu.decode(u_type(0x12345, 7, AUIPC)) {
        Ok(Inst::U(inst, format)) => {
            assert_eq!(format!("{:?}", inst), "AUIPC");
            assert_eq!((format.rd, format.imm), (7, 0x12345));
        }
        _ => panic!("AUIPC does not decode"),
    }
}

#[test]
fn decode_faults() {
    let cpu = Cpu::new(false);
    assert!(matches!(cpu.decode(0x0000_007f), Err(Error::InvalidOpcode(0x7f))));
    assert!(matches!(cpu.decode(0xffff_ff80), Err(Error::InvalidOpcode(0))));
    match cpu.decode(r_type(0x01, 3, 2, 0, 1)) {
        Err(Error::InvalidInstFormat(FormatError::R(format))) => {
            assert_eq!((format.funct3, format.funct7), (0, 1));
        }
        _ => panic!("an unknown funct7 decodes"),
    }
    assert!(matches!(
        cpu.decode(r_type(0x20, 3, 2, 4, 1)),
        Err(Error::InvalidInstFormat(FormatError::R(_)))
    ));
    // shifts by immediate with a wrong upper immediate
    for (funct3, imm) in [(1, 0x403), (5, 0x203), (5, -1), (1, 0x023)] {
        match cpu.decode(i_type(imm, 2, funct3, 1, OP_IMM)) {
            Err(Error::InvalidInstFormat(FormatError::I(format))) => {
                assert_eq!(format.funct3, funct3 as usize);
            }
            _ => panic!("a wrong shift decodes"),
        }
    }
    for funct3 in [3, 6, 7] {
        assert!(matches!(
            cpu.decode(i_type(0, 2, funct3, 1, LOAD)),
            Err(Error::InvalidInstFormat(FormatError::I(_)))
        ));
    }
    assert!(matches!(
        cpu.decode(i_type(0, 2, 1, 1, JALR)),
        Err(Error::InvalidInstFormat(FormatError::I(_)))
    ));
    for funct3 in [3, 4, 5, 6, 7] {
        assert!(matches!(
            cpu.decode(s_type(0, 3, 2, funct3)),
            Err(Error::InvalidInstFormat(FormatError::S(_)))
        ));
    }
    for funct3 in [2, 3] {
        assert!(matches!(
            cpu.decode(b_type(8, 3, 2, funct3)),
            Err(Error::InvalidInstFormat(FormatError::B(_)))
        ));
    }
}

#[test]
fn faults_end_a_run() {
    let mut cpu = Cpu::new(false);
    assert!(matches!(
        cpu.run(image(&[addi(5, 0, 1), 0x0000_007f])),
        Err(Error::InvalidOpcode(0x7f))
    ));
    assert_eq!(cpu.regs.read(5), 1);
    assert_eq!(cpu.pc.get(), 8);
}

#[test]
fn fetch_past_memory_end() {
    let mut cpu = Cpu::new(false);
    cpu.pc.set((MEMSIZE - 3) as u32);
    match cpu.fetch() {
        Err(Error::InvalidPC(pc, size)) => {
            assert_eq!(pc as usize, MEMSIZE - 3);
            assert_eq!(size, MEMSIZE);
        }
        _ => panic!("a fetch past the end of memory went through"),
    }
    assert_eq!(cpu.pc.get() as usize, MEMSIZE + 1);

    let mut cpu = Cpu::new(false);
    cpu.mem.write(Size::Word, (MEMSIZE - 4) as u32, addi(5, 0, 9));
    cpu.pc.set((MEMSIZE - 4) as u32);
    assert!(matches!(cpu.emulate_cycle(), Ok(ProgState::Continue)));
    assert_eq!(cpu.regs.read(5), 9);
    assert!(matches!(cpu.emulate_cycle(), Err(Error::InvalidPC(_, _))));

    let mut cpu = Cpu::new(false);
    cpu.pc.set(u32::MAX - 1);
    assert!(matches!(cpu.fetch(), Err(Error::InvalidPC(_, _))));
    assert_eq!(cpu.pc.get(), 2);
}

#[test]
fn next_instruction_looks_ahead() {
    let mut cpu = Cpu::new(false);
    assert!(cpu.next_instruction().is_none());
    cpu.mem.load_program(vec![0x78, 0x56, 0x34, 0x12]);
    assert!(matches!(cpu.next_instruction(), Some(0x1234_5678)));
    assert_eq!(cpu.pc.get(), 0);
    cpu.pc.set(1);
    assert!(matches!(cpu.next_instruction(), Some(0x0012_3456)));
    cpu.pc.set((MEMSIZE - 3) as u32);
    assert!(cpu.next_instruction().is_none());
}

#[test]
fn fetch_reads_little_endian() {
    let mut cpu = Cpu::new(false);
    cpu.mem.load_program(vec![0x78, 0x56, 0x34, 0x12]);
    assert!(matches!(cpu.fetch(), Ok(0x1234_5678)));
    assert_eq!(cpu.pc.get(), 4);
}

#[test]
fn a_run_that_jumps_out_of_memory_faults() {
    // jalr x0, x2, 0 jumps to the initial stack pointer, one past memory
    let mut cpu = Cpu::new(false);
    match cpu.run(image(&[i_type(0, 2, 0, 0, JALR)])) {
        Err(Error::InvalidPC(pc, size)) => {
            assert_eq!(pc as usize, MEMSIZE);
            assert_eq!(size, MEMSIZE);
        }
        _ => panic!("the run went on"),
    }
}

#[test]
fn bounded_run_stops_before_an_access_outside_memory() {
    // addi x5, x0, 1; lw x6, 0(x2) reads at the initial stack pointer
    let program = image(&[addi(5, 0, 1), i_type(0, 2, 2, 6, LOAD)]);
    let mut cpu = Cpu::new(false);
    assert!(cpu.run_bounded(program, 100).is_none());
    assert_eq!(cpu.regs.read(5), 1);
    assert_eq!(cpu.pc.get(), 4);
    assert!(!cpu.can_cycle());
    assert!(cpu.try_cycle().is_none());
    assert_eq!(cpu.pc.get(), 4);
}

#[test]
fn bounded_run_cuts_an_endless_loop() {
    // jal x0, 0
    let mut cpu = Cpu::new(false);
    assert!(cpu.run_bounded(image(&[j_type(0, 0)]), 1000).is_none());
    assert_eq!(cpu.pc.get(), 0);
    assert!(cpu.can_cycle());
}

#[test]
fn can_execute_checks_registers_and_addresses() {
    let cpu = Cpu::new(false);
    let good = Inst::R(
        RInst::ADD,
        ruscv::inst_format::RFormat { rd: 1, funct3: 0, rs1: 2, rs2: 3, funct7: 0 },
    );
    assert!(good.can_execute(&cpu));
    let bad = Inst::R(
        RInst::ADD,
        ruscv::inst_format::RFormat { rd: 32, funct3: 0, rs1: 2, rs2: 3, funct7: 0 },
    );
    assert!(!bad.can_execute(&cpu));
    let load = |imm: i32| {
        Inst::I(
            IInst::Mem(ruscv::inst::MemIInst::LW),
            IFormat { rd: 1, funct3: 2, rs1: 2, imm: imm as u32 },
        )
    };
    assert!(load(-4).can_execute(&cpu));
    assert!(!load(-3).can_execute(&cpu));
    assert!(!load(0).can_execute(&cpu));
}

#[test]
fn load_program_cuts_and_clears() {
    let mut cpu = Cpu::new(false);
    cpu.mem.write(Size::Word, 100, 0xffff_ffff);
    cpu.mem.load_program(vec![1, 2, 3]);
    assert_eq!(cpu.mem.read(Size::Word, 0, true), 0x0003_0201);
    assert_eq!(cpu.mem.read(Size::Word, 100, true), 0);
    cpu.mem.load_program(vec![0xab; MEMSIZE + 10]);
    assert_eq!(cpu.mem.read(Size::Byte, (MEMSIZE - 1) as u32, true), 0xab);
}

#[test]
fn dump_state_text() {
    let mut cpu = Cpu::new(false);
    cpu.regs.write(1, 0xffff_ffff);
    cpu.regs.write(31, 42);
    cpu.pc.set(28);
    let text = cpu.dump_state(7);
    let mut expected = String::from("CPU dump at cycle 7:\nPC: 28\n");
    for i in 0..32 {
        let value: i64 = match i {
            1 => -1,
            2 => MEMSIZE as i64,
            31 => 42,
            _ => 0,
        };
        expected.push_str(&format!("R{}: {}\n", i, value));
    }
    assert_eq!(text, expected);

    cpu.regs.write(3, 0x8000_0000);
    assert!(cpu.dump_state(0).contains("R3: -2147483648\n"));
}
