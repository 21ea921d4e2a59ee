//! Decoded instructions and what executing one does to the machine.

use vstd::prelude::*;
use crate::bits::{
    add_wrapping, arithmetic_shift_right, shift_right_arithmetic, signed_value, sub_wrapping,
    to_signed, wrapping_difference, wrapping_sum,
};
use crate::cpu::Cpu;
use crate::inst_format::{BFormat, IFormat, JFormat, RFormat, SFormat, UFormat};
use crate::memory::{
    in_range, is_in_range, lemma_store_load_word, load_value, store_bytes, Memory, Size,
};
use crate::pc::INSTSIZE_BYTES;
use crate::state::CpuState;

verus! {

/// A decoded instruction: one arm for each of the six formats, each with its
/// mnemonic and fields, and one for supervisor calls.
#[derive(Clone, Copy, Debug)]
pub enum Inst {
    R(RInst, RFormat),
    I(IInst, IFormat),
    S(SInst, SFormat),
    B(BInst, BFormat),
    J(JFormat),
    U(UInst, UFormat),
    /// No instruction of the profile: it stands for `ecall` and `fence`, of
    /// which only the exit call has an effect.
    SysCall(SysCall),
}

#[derive(Clone, Copy, Debug)]
pub enum SysCall {
    /// The exit call, with the exit code.
    Exit(u8),
    Nop,
}

#[derive(Clone, Copy, Debug)]
pub enum RInst {
    ADD,
    SUB,
    XOR,
    OR,
    AND,
    SLL,
    SRL,
    SRA,
    SLT,
    SLTU,
}

#[derive(Clone, Copy, Debug)]
pub enum ArithIInst {
    ADDI,
    XORI,
    ORI,
    ANDI,
    SLLI,
    SRLI,
    SRAI,
    SLTI,
    SLTIU,
}

#[derive(Clone, Copy, Debug)]
pub enum MemIInst {
    LB,
    LH,
    LW,
    LBU,
    LHU,
}

#[derive(Clone, Copy, Debug)]
pub enum IInst {
    Arith(ArithIInst),
    Mem(MemIInst),
    Jalr,
}

#[derive(Clone, Copy, Debug)]
pub enum SInst {
    SB,
    SH,
    SW,
}

#[derive(Clone, Copy, Debug)]
pub enum BInst {
    BEQ,
    BNE,
    BLT,
    BGE,
    BLTU,
    BGEU,
}

#[derive(Clone, Copy, Debug)]
pub enum UInst {
    LUI,
    AUIPC,
}

/// The low five bits of an operand: the amount of a shift.
pub open spec fn shift_amount(operand: u32) -> u32 {
    operand & 0x1f
}

/// The target of a jump through a register: the sum of base and offset with
/// its lowest bit cleared.
pub open spec fn jump_target(base: u32, offset: u32) -> u32 {
    wrapping_sum(base, offset) & 0xffff_fffe
}

/// The target of a branch or jump relative to the instruction that holds
/// it, given the program counter after the fetch, which points one
/// instruction further.
pub open spec fn relative_target(advanced_pc: u32, offset: u32) -> u32 {
    wrapping_sum(advanced_pc, wrapping_difference(offset, 4))
}

impl RInst {
    /// The result of the operation on two operands.
    pub open spec fn result(self, rs1: u32, rs2: u32) -> u32 {
        match self {
            RInst::ADD => wrapping_sum(rs1, rs2),
            RInst::SUB => wrapping_difference(rs1, rs2),
            RInst::XOR => rs1 ^ rs2,
            RInst::OR => rs1 | rs2,
            RInst::AND => rs1 & rs2,
            RInst::SLL => rs1 << shift_amount(rs2),
            RInst::SRL => rs1 >> shift_amount(rs2),
            RInst::SRA => arithmetic_shift_right(rs1, shift_amount(rs2)),
            RInst::SLT => if signed_value(rs1) < signed_value(rs2) {
                1
            } else {
                0
            },
            RInst::SLTU => if rs1 < rs2 {
                1
            } else {
                0
            },
        }
    }

    /// The register-register operation that an immediate operation performs
    /// on its register and its immediate.
    pub open spec fn of_immediate(value: ArithIInst) -> RInst {
        match value {
            ArithIInst::ADDI => RInst::ADD,
            ArithIInst::XORI => RInst::XOR,
            ArithIInst::ORI => RInst::OR,
            ArithIInst::ANDI => RInst::AND,
            ArithIInst::SLLI => RInst::SLL,
            ArithIInst::SRLI => RInst::SRL,
            ArithIInst::SRAI => RInst::SRA,
            ArithIInst::SLTI => RInst::SLT,
            ArithIInst::SLTIU => RInst::SLTU,
        }
    }

    /// Computes the operation on two operands.
    pub fn op(self, rs1: u32, rs2: u32) -> (value: u32)
        ensures
            value == self.result(rs1, rs2),
    {
        let amount: u32 = rs2 & 0x1f;
        assert(rs2 & 0x1f < 32) by (bit_vector);
        match self {
            RInst::ADD => add_wrapping(rs1, rs2),
            RInst::SUB => sub_wrapping(rs1, rs2),
            RInst::XOR => rs1 ^ rs2,
            RInst::OR => rs1 | rs2,
            RInst::AND => rs1 & rs2,
            RInst::SLL => rs1 << amount,
            RInst::SRL => rs1 >> amount,
            RInst::SRA => shift_right_arithmetic(rs1, amount),
            RInst::SLT => if to_signed(rs1) < to_signed(rs2) {
                1
            } else {
                0
            },
            RInst::SLTU => if rs1 < rs2 {
                1
            } else {
                0
            },
        }
    }
}

impl From<ArithIInst> for RInst {
    fn from(value: ArithIInst) -> (inst: RInst) {
        match value {
            ArithIInst::ADDI => RInst::ADD,
            ArithIInst::XORI => RInst::XOR,
            ArithIInst::ORI => RInst::OR,
            ArithIInst::ANDI => RInst::AND,
            ArithIInst::SLLI => RInst::SLL,
            ArithIInst::SRLI => RInst::SRL,
            ArithIInst::SRAI => RInst::SRA,
            ArithIInst::SLTI => RInst::SLT,
            ArithIInst::SLTIU => RInst::SLTU,
        }
    }
}

impl vstd::std_specs::convert::FromSpecImpl<ArithIInst> for RInst {
    open spec fn obeys_from_spec() -> bool {
        true
    }

    open spec fn from_spec(value: ArithIInst) -> RInst {
        RInst::of_immediate(value)
    }
}

impl MemIInst {
    /// The width of the load.
    pub open spec fn size(self) -> Size {
        match self {
            MemIInst::LB | MemIInst::LBU => Size::Byte,
            MemIInst::LH | MemIInst::LHU => Size::HalfWord,
            MemIInst::LW => Size::Word,
        }
    }

    /// Whether the load zero-extends what it reads.
    pub open spec fn is_unsigned(self) -> bool {
        match self {
            MemIInst::LBU | MemIInst::LHU | MemIInst::LW => true,
            MemIInst::LB | MemIInst::LH => false,
        }
    }

    /// Loads from the address `rs1 + imm` and widens the value to 32 bits.
    pub fn op(self, mem: &Memory, rs1: u32, imm: u32) -> (value: u32)
        requires
            in_range(wrapping_sum(rs1, imm), self.size()),
        ensures
            value == load_value(
                mem@,
                self.size(),
                wrapping_sum(rs1, imm) as int,
                self.is_unsigned(),
            ),
    {
        let from: u32 = add_wrapping(rs1, imm);
        match self {
            MemIInst::LBU => mem.read(Size::Byte, from, true),
            MemIInst::LHU => mem.read(Size::HalfWord, from, true),
            MemIInst::LW => mem.read(Size::Word, from, true),
            MemIInst::LB => mem.read(Size::Byte, from, false),
            MemIInst::LH => mem.read(Size::HalfWord, from, false),
        }
    }
}

impl From<MemIInst> for Size {
    fn from(value: MemIInst) -> (size: Size) {
        match value {
            MemIInst::LB | MemIInst::LBU => Size::Byte,
            MemIInst::LH | MemIInst::LHU => Size::HalfWord,
            MemIInst::LW => Size::Word,
        }
    }
}

impl vstd::std_specs::convert::FromSpecImpl<MemIInst> for Size {
    open spec fn obeys_from_spec() -> bool {
        true
    }

    open spec fn from_spec(value: MemIInst) -> Size {
        value.size()
    }
}

impl From<SInst> for Size {
    fn from(value: SInst) -> (size: Size) {
        match value {
            SInst::SB => Size::Byte,
            SInst::SH => Size::HalfWord,
            SInst::SW => Size::Word,
        }
    }
}

impl vstd::std_specs::convert::FromSpecImpl<SInst> for Size {
    open spec fn obeys_from_spec() -> bool {
        true
    }

    open spec fn from_spec(value: SInst) -> Size {
        value.size()
    }
}

impl SInst {
    /// The width of the store.
    pub open spec fn size(self) -> Size {
        match self {
            SInst::SB => Size::Byte,
            SInst::SH => Size::HalfWord,
            SInst::SW => Size::Word,
        }
    }

    /// Stores the low bytes of `rs2` at the address `rs1 + imm`.
    pub fn op(self, mem: &mut Memory, rs1: u32, rs2: u32, imm: u32)
        requires
            in_range(wrapping_sum(rs1, imm), self.size()),
        ensures
            final(mem)@ == store_bytes(
                old(mem)@,
                self.size(),
                wrapping_sum(rs1, imm) as int,
                rs2,
            ),
    {
        let base: u32 = add_wrapping(rs1, imm);
        mem.write(Size::from(self), base, rs2);
    }
}

impl BInst {
    /// Whether the branch is taken on the two operands.
    pub open spec fn taken(self, rs1: u32, rs2: u32) -> bool {
        match self {
            BInst::BEQ => rs1 == rs2,
            BInst::BNE => rs1 != rs2,
            BInst::BLT => signed_value(rs1) < signed_value(rs2),
            BInst::BGE => signed_value(rs1) >= signed_value(rs2),
            BInst::BLTU => rs1 < rs2,
            BInst::BGEU => rs1 >= rs2,
        }
    }

    /// Decides whether the branch is taken on the two operands.
    pub fn op(self, rs1: u32, rs2: u32) -> (branch: bool)
        ensures
            branch == self.taken(rs1, rs2),
    {
        match self {
            BInst::BEQ => rs1 == rs2,
            BInst::BNE => rs1 != rs2,
            BInst::BLT => to_signed(rs1) < to_signed(rs2),
            BInst::BGE => to_signed(rs1) >= to_signed(rs2),
            BInst::BLTU => rs1 < rs2,
            BInst::BGEU => rs1 >= rs2,
        }
    }
}

impl UInst {
    /// The value that the instruction puts into its register, given the
    /// program counter after the fetch.
    pub open spec fn result(self, pc: u32, imm: u32) -> u32 {
        match self {
            UInst::LUI => imm << 12,
            UInst::AUIPC => wrapping_sum(wrapping_difference(pc, 4), imm << 12),
        }
    }

    /// Computes the value for the destination register. `pc` is the program
    /// counter after the fetch: the instruction's own address is four less.
    pub fn op(self, pc: u32, imm: u32) -> (value: u32)
        ensures
            value == self.result(pc, imm),
    {
        match self {
            UInst::LUI => imm << 12,
            UInst::AUIPC => add_wrapping(sub_wrapping(pc, INSTSIZE_BYTES as u32), imm << 12),
        }
    }
}

impl IInst {
    /// The state after the instruction, without the write to the destination
    /// register: a jump moves the program counter.
    pub open spec fn state_after(self, state: CpuState, rs1: u32, imm: u32) -> CpuState {
        match self {
            IInst::Jalr => state.with_pc(jump_target(rs1, imm)),
            _ => state,
        }
    }

    /// The value that the instruction puts into its register.
    pub open spec fn result(self, state: CpuState, rs1: u32, imm: u32) -> u32 {
        match self {
            IInst::Arith(inst) => RInst::of_immediate(inst).result(rs1, imm),
            IInst::Mem(inst) => load_value(
                state.mem,
                inst.size(),
                wrapping_sum(rs1, imm) as int,
                inst.is_unsigned(),
            ),
            IInst::Jalr => state.pc,
        }
    }

    /// Whether the instruction can run on these operands: a load has to stay
    /// within memory.
    pub open spec fn defined_on(self, rs1: u32, imm: u32) -> bool {
        match self {
            IInst::Mem(inst) => in_range(wrapping_sum(rs1, imm), inst.size()),
            _ => true,
        }
    }

    /// Computes the value for the destination register; a jump also moves
    /// the program counter.
    pub fn op(self, cpu: &mut Cpu, rs1: u32, imm: u32) -> (value: u32)
        requires
            self.defined_on(rs1, imm),
        ensures
            value == self.result(old(cpu)@, rs1, imm),
            final(cpu)@ == self.state_after(old(cpu)@, rs1, imm),
            final(cpu).print_debug == old(cpu).print_debug,
    {
        match self {
            IInst::Arith(inst) => RInst::from(inst).op(rs1, imm),
            IInst::Mem(inst) => inst.op(&cpu.mem, rs1, imm),
            IInst::Jalr => {
                let link: u32 = cpu.pc.get();
                cpu.pc.set(add_wrapping(rs1, imm) & 0xffff_fffe);
                link
            },
        }
    }
}

impl Inst {
    /// Every register field of the instruction names one of the 32
    /// registers.
    pub open spec fn registers_valid(self) -> bool {
        match self {
            Inst::R(_, format) => format.registers_valid(),
            Inst::I(_, format) => format.registers_valid(),
            Inst::S(_, format) => format.registers_valid(),
            Inst::B(_, format) => format.registers_valid(),
            Inst::J(format) => format.registers_valid(),
            Inst::U(_, format) => format.registers_valid(),
            Inst::SysCall(_) => true,
        }
    }

    /// Whether the instruction can be executed in a state: its register
    /// fields are valid, and a load or store stays within memory.
    pub open spec fn executable(self, state: CpuState) -> bool {
        &&& self.registers_valid()
        &&& match self {
            Inst::I(inst, format) => inst.defined_on(state.regs[format.rs1 as int], format.imm),
            Inst::S(inst, format) => in_range(
                wrapping_sum(state.regs[format.rs1 as int], format.imm),
                inst.size(),
            ),
            _ => true,
        }
    }

    /// Decides whether the instruction can be executed on a machine.
    pub fn can_execute(&self, cpu: &Cpu) -> (possible: bool)
        ensures
            possible == self.executable(cpu@),
    {
        match *self {
            Inst::R(_, format) => format.rd < 32 && format.rs1 < 32 && format.rs2 < 32,
            Inst::I(inst, format) => {
                if format.rd < 32 && format.rs1 < 32 {
                    match inst {
                        IInst::Mem(load) => is_in_range(
                            add_wrapping(cpu.regs.read(format.rs1), format.imm),
                            Size::from(load),
                        ),
                        _ => true,
                    }
                } else {
                    false
                }
            },
            Inst::S(inst, format) => {
                if format.rs1 < 32 && format.rs2 < 32 {
                    is_in_range(
                        add_wrapping(cpu.regs.read(format.rs1), format.imm),
                        Size::from(inst),
                    )
                } else {
                    false
                }
            },
            Inst::B(_, format) => format.rs1 < 32 && format.rs2 < 32,
            Inst::J(format) => format.rd < 32,
            Inst::U(_, format) => format.rd < 32,
            Inst::SysCall(_) => true,
        }
    }

    /// The destination register of the instruction, if its format has one.
    pub open spec fn destination(self) -> Option<usize> {
        match self {
            Inst::R(_, format) => Some(format.rd),
            Inst::I(_, format) => Some(format.rd),
            Inst::J(format) => Some(format.rd),
            Inst::U(_, format) => Some(format.rd),
            _ => None,
        }
    }

    /// The state after the instruction has been executed in `state`, whose
    /// program counter has already been advanced past the instruction.
    pub open spec fn effect(self, state: CpuState) -> CpuState {
        match self {
            Inst::R(inst, format) => state.with_register(
                format.rd,
                inst.result(state.regs[format.rs1 as int], state.regs[format.rs2 as int]),
            ),
            Inst::I(inst, format) => {
                let rs1 = state.regs[format.rs1 as int];
                inst.state_after(state, rs1, format.imm).with_register(
                    format.rd,
                    inst.result(state, rs1, format.imm),
                )
            },
            Inst::S(inst, format) => state.with_memory(
                store_bytes(
                    state.mem,
                    inst.size(),
                    wrapping_sum(state.regs[format.rs1 as int], format.imm) as int,
                    state.regs[format.rs2 as int],
                ),
            ),
            Inst::B(inst, format) => if inst.taken(
                state.regs[format.rs1 as int],
                state.regs[format.rs2 as int],
            ) {
                state.with_pc(relative_target(state.pc, format.imm))
            } else {
                state
            },
            Inst::J(format) => state.with_register(format.rd, state.pc).with_pc(
                relative_target(state.pc, format.imm),
            ),
            Inst::U(inst, format) => state.with_register(
                format.rd,
                inst.result(state.pc, format.imm),
            ),
            Inst::SysCall(_) => state,
        }
    }

    /// Executes the instruction on a machine whose program counter has
    /// already been advanced past it.
    pub fn execute(self, cpu: &mut Cpu)
        requires
            self.executable(old(cpu)@),
        ensures
            final(cpu)@ == self.effect(old(cpu)@),
            final(cpu)@.regs[0] == 0,
            final(cpu).print_debug == old(cpu).print_debug,
    {
        match self {
            Inst::R(inst, format) => {
                let result: u32 = inst.op(cpu.regs.read(format.rs1), cpu.regs.read(format.rs2));
                cpu.regs.write(format.rd, result);
            },
            Inst::I(inst, format) => {
                let rs1: u32 = cpu.regs.read(format.rs1);
                let result: u32 = inst.op(cpu, rs1, format.imm);
                cpu.regs.write(format.rd, result);
            },
            Inst::S(inst, format) => {
                let rs1: u32 = cpu.regs.read(format.rs1);
                let rs2: u32 = cpu.regs.read(format.rs2);
                inst.op(&mut cpu.mem, rs1, rs2, format.imm);
            },
            Inst::B(inst, format) => {
                let rs1: u32 = cpu.regs.read(format.rs1);
                let rs2: u32 = cpu.regs.read(format.rs2);
                if inst.op(rs1, rs2) {
                    let target: u32 = add_wrapping(
                        cpu.pc.get(),
                        sub_wrapping(format.imm, INSTSIZE_BYTES as u32),
                    );
                    cpu.pc.set(target);
                }
            },
            Inst::J(format) => {
                let pc: u32 = cpu.pc.get();
                cpu.regs.write(format.rd, pc);
                cpu.pc.set(add_wrapping(pc, sub_wrapping(format.imm, INSTSIZE_BYTES as u32)));
            },
            Inst::U(inst, format) => {
                let result: u32 = inst.op(cpu.pc.get(), format.imm);
                cpu.regs.write(format.rd, result);
            },
            Inst::SysCall(_) => {},
        }
        proof {
            cpu.regs.lemma_zero_register();
        }
    }
}

/// Executing an instruction keeps the machine well formed: register 0 still
/// reads as 0, and registers and memory keep their sizes.
pub proof fn lemma_effect_well_formed(inst: Inst, state: CpuState)
    requires
        state.well_formed(),
        inst.executable(state),
    ensures
        inst.effect(state).well_formed(),
{
}

/// An instruction whose destination is register 0, or whose format has no
/// destination, leaves every register as it was. With register 0 as its
/// destination it leaves memory alone as well: only the program counter can
/// differ.
pub proof fn lemma_no_destination_keeps_registers(inst: Inst, state: CpuState)
    requires
        inst.destination() == Some(0usize) || inst.destination().is_none(),
    ensures
        inst.effect(state).regs == state.regs,
        inst.destination() == Some(0usize) ==> inst.effect(state).mem == state.mem,
{
}

/// A word stored by `sw` is the word that an `lw` from the same address
/// loads right after it.
pub proof fn lemma_store_then_load_word(store: SFormat, load: IFormat, state: CpuState)
    requires
        state.well_formed(),
        Inst::S(SInst::SW, store).executable(state),
        load.registers_valid(),
        load.rd != 0,
        wrapping_sum(state.regs[load.rs1 as int], load.imm) == wrapping_sum(
            state.regs[store.rs1 as int],
            store.imm,
        ),
    ensures
        ({
            let stored = Inst::S(SInst::SW, store).effect(state);
            let loaded = Inst::I(IInst::Mem(MemIInst::LW), load).effect(stored);
            &&& Inst::I(IInst::Mem(MemIInst::LW), load).executable(stored)
            &&& loaded.regs[load.rd as int] == state.regs[store.rs2 as int]
            &&& loaded.mem == stored.mem
        }),
{
    lemma_store_load_word(
        state.mem,
        wrapping_sum(state.regs[store.rs1 as int], store.imm) as int,
        state.regs[store.rs2 as int],
        true,
    );
}

/// An add-immediate with immediate 0 copies its source register: a
/// destination other than register 0 then holds what the source held, and
/// where source and destination are the same register, the machine is left
/// as it was.
pub proof fn lemma_add_zero_immediate(format: IFormat, state: CpuState)
    requires
        state.well_formed(),
        format.registers_valid(),
        format.imm == 0,
    ensures
        ({
            let after = Inst::I(IInst::Arith(ArithIInst::ADDI), format).effect(state);
            &&& after.pc == state.pc
            &&& after.mem == state.mem
            &&& format.rd != 0 ==> after.regs[format.rd as int] == state.regs[format.rs1 as int]
            &&& forall|i: int| 0 <= i < 32 && i != format.rd ==> after.regs[i] == state.regs[i]
            &&& format.rd == format.rs1 ==> after == state
        }),
{
    let after = Inst::I(IInst::Arith(ArithIInst::ADDI), format).effect(state);
    if format.rd == format.rs1 {
        assert(after.regs =~= state.regs);
    }
}

} // verus!
