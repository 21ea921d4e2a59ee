//! The machine: program counter, registers and memory, and the
//! fetch-decode-execute loop over them.

use vstd::prelude::*;
use vstd::string::StringExecFns;
use crate::bits::{get_bits, signed_value, to_signed, wrapping_sum};
use crate::decode::{
    decode_word, lemma_decoded_registers_valid, SYSCALL_ARGUMENT_REGISTER, SYSCALL_EXIT,
    SYSCALL_NUMBER_REGISTER,
};
use crate::error::{Error, FormatError};
use crate::inst::{
    lemma_effect_well_formed, lemma_no_destination_keeps_registers, ArithIInst, BInst, IInst, Inst,
    MemIInst, RInst, SInst, SysCall, UInst,
};
use crate::inst_format::{BFormat, IFormat, JFormat, RFormat, SFormat, UFormat};
use crate::memory::{
    in_range, lemma_empty_image, word_at, zeroed_memory, Memory, Size, MEMSIZE,
};
use crate::pc::{fetchable, next_address, ProgramCounter};
use crate::regs::{initial_registers, Registers};
use crate::state::CpuState;
use crate::text::{decimal_digits, push_decimal, push_signed_decimal, signed_decimal_digits};

verus! {

/// How a cycle that raised no fault ended.
#[derive(Clone, Copy, Debug)]
pub enum ProgState {
    /// The instruction was executed; the machine runs on.
    Continue,
    /// The exit call was met, with this exit code.
    Exit(u8),
}

/// The machine. It owns its program counter, registers and memory.
pub struct Cpu {
    pub pc: ProgramCounter,
    pub regs: Registers,
    pub mem: Memory,
    /// Whether the caller wants the state dumped after every cycle.
    pub print_debug: bool,
}

impl View for Cpu {
    type V = CpuState;

    open spec fn view(&self) -> CpuState {
        CpuState { pc: self.pc@, regs: self.regs@, mem: self.mem@ }
    }
}

/// The state of a machine right after construction.
pub open spec fn initial_state() -> CpuState {
    CpuState { pc: 0, regs: initial_registers(), mem: zeroed_memory() }
}

/// The state after the fetch stage: the program counter has advanced.
pub open spec fn fetch_state(state: CpuState) -> CpuState {
    state.with_pc(next_address(state.pc))
}

/// What the fetch stage yields: the word at the program counter, or a fault
/// when the program counter is within four bytes of the end of memory.
pub open spec fn fetch_result(state: CpuState) -> Result<u32, Error> {
    if fetchable(state.pc) {
        Ok(word_at(state.mem, state.pc as int))
    } else {
        Err(Error::InvalidPC(state.pc, MEMSIZE))
    }
}

/// The instruction that the next cycle decodes, or the fault that ends it
/// before: a failed fetch, a zero word, or a word that does not decode.
pub open spec fn cycle_instruction(state: CpuState) -> Result<Inst, Error> {
    match fetch_result(state) {
        Err(e) => Err(e),
        Ok(raw) => if raw == 0 {
            Err(Error::EndOfInstructions)
        } else {
            decode_word(raw, state.regs)
        },
    }
}

/// Whether the next cycle can run: the instruction it decodes, if any, must
/// be executable, so a load or store must stay within memory.
pub open spec fn cycle_defined(state: CpuState) -> bool {
    match cycle_instruction(state) {
        Ok(inst) => inst.executable(fetch_state(state)),
        Err(_) => true,
    }
}

/// How the next cycle ends.
pub open spec fn cycle_result(state: CpuState) -> Result<ProgState, Error> {
    match cycle_instruction(state) {
        Err(e) => Err(e),
        Ok(Inst::SysCall(SysCall::Exit(code))) => Ok(ProgState::Exit(code)),
        Ok(_) => Ok(ProgState::Continue),
    }
}

/// The state after the next cycle. A fault leaves the machine as the fetch
/// stage left it.
pub open spec fn cycle_state(state: CpuState) -> CpuState {
    match cycle_instruction(state) {
        Ok(inst) => inst.effect(fetch_state(state)),
        Err(_) => fetch_state(state),
    }
}

/// The lines of a state dump for the registers below `count`: for each its
/// label, `R` and the index, and its value as a signed decimal number.
pub open spec fn register_lines(regs: Seq<u32>, count: nat) -> Seq<char>
    decreases count,
{
    if count == 0 {
        Seq::empty()
    } else {
        register_lines(regs, (count - 1) as nat) + "R"@ + decimal_digits((count - 1) as nat)
            + ": "@ + signed_decimal_digits(signed_value(regs[count - 1])) + "\n"@
    }
}

/// The text of a state dump: a line with the number of the cycle, a line
/// with the program counter, and a line for each of the 32 registers.
pub open spec fn dump_text(state: CpuState, cycle_count: nat) -> Seq<char> {
    "CPU dump at cycle "@ + decimal_digits(cycle_count) + ":\nPC: "@ + decimal_digits(
        state.pc as nat,
    ) + "\n"@ + register_lines(state.regs, 32)
}

/// The state after `cycles` cycles from `state`.
pub open spec fn state_after(state: CpuState, cycles: nat) -> CpuState
    decreases cycles,
{
    if cycles == 0 {
        state
    } else {
        cycle_state(state_after(state, (cycles - 1) as nat))
    }
}

/// Whether the machine runs through its first `cycles` cycles from `state`:
/// each of them can run and ends with the machine running on.
pub open spec fn runs_for(state: CpuState, cycles: nat) -> bool
    decreases cycles,
{
    cycles == 0 || {
        let before = state_after(state, (cycles - 1) as nat);
        &&& runs_for(state, (cycles - 1) as nat)
        &&& cycle_defined(before)
        &&& cycle_result(before) == Ok::<ProgState, Error>(ProgState::Continue)
    }
}

/// Whether the machine stops in the cycle that follows its first `cycles`
/// cycles from `state`: it runs through those, and the next one can run and
/// ends with the exit call or a fault.
pub open spec fn stops_after(state: CpuState, cycles: nat) -> bool {
    let last = state_after(state, cycles);
    &&& runs_for(state, cycles)
    &&& cycle_defined(last)
    &&& cycle_result(last) != Ok::<ProgState, Error>(ProgState::Continue)
}

/// Whether the machine is stuck after its first `cycles` cycles from `state`:
/// it runs through those, and the next one cannot run.
pub open spec fn stuck_after(state: CpuState, cycles: nat) -> bool {
    runs_for(state, cycles) && !cycle_defined(state_after(state, cycles))
}

/// Whether a run from `start` that returns `outcome` and leaves the machine
/// in the state `end` has stopped in the cycle after its first `cycles`
/// cycles: the outcome is the exit code or the fault of that cycle, and the
/// state is the one that cycle left.
pub open spec fn run_ends(
    start: CpuState,
    cycles: nat,
    outcome: Result<u8, Error>,
    end: CpuState,
) -> bool {
    &&& stops_after(start, cycles)
    &&& match cycle_result(state_after(start, cycles)) {
        Ok(ProgState::Exit(code)) => outcome == Ok::<u8, Error>(code),
        Ok(ProgState::Continue) => false,
        Err(e) => outcome == Err::<u8, Error>(e),
    }
    &&& end == state_after(start, cycles + 1)
}

/// Whether a run from `start` of at most `max_cycles` cycles that returns
/// `outcome` and leaves the machine in the state `end` has gone through
/// `cycles` cycles before it stopped, ran out of cycles or got stuck.
pub open spec fn bounded_run_ends(
    start: CpuState,
    max_cycles: nat,
    cycles: nat,
    outcome: Option<Result<u8, Error>>,
    end: CpuState,
) -> bool {
    match outcome {
        Some(result) => cycles < max_cycles && run_ends(start, cycles, result, end),
        None => {
            &&& cycles <= max_cycles
            &&& runs_for(start, cycles)
            &&& cycles == max_cycles || stuck_after(start, cycles)
            &&& end == state_after(start, cycles)
        },
    }
}

/// A machine that runs through some number of cycles runs through every
/// smaller number of them.
pub proof fn lemma_runs_for_fewer(state: CpuState, cycles: nat, fewer: nat)
    requires
        runs_for(state, cycles),
        fewer <= cycles,
    ensures
        runs_for(state, fewer),
    decreases cycles,
{
    if fewer < cycles {
        lemma_runs_for_fewer(state, (cycles - 1) as nat, fewer);
    }
}

/// The cycle in which a machine stops is unique, and the machine is never
/// stuck before it.
pub proof fn lemma_stop_unique(state: CpuState, first: nat, second: nat)
    requires
        stops_after(state, first),
        stops_after(state, second) || stuck_after(state, second),
    ensures
        first == second,
{
    if first < second {
        lemma_runs_for_fewer(state, second, first + 1);
    } else if second < first {
        lemma_runs_for_fewer(state, first, second + 1);
    }
}

/// The one thing that keeps a cycle from running is a load or store outside
/// memory: every other instruction that the decoder yields can be executed.
pub proof fn lemma_cycle_defined(state: CpuState)
    ensures
        cycle_defined(state) <==> match cycle_instruction(state) {
            Ok(Inst::I(IInst::Mem(inst), format)) => in_range(
                wrapping_sum(state.regs[format.rs1 as int], format.imm),
                inst.size(),
            ),
            Ok(Inst::S(inst, format)) => in_range(
                wrapping_sum(state.regs[format.rs1 as int], format.imm),
                inst.size(),
            ),
            _ => true,
        },
{
    if let Ok(raw) = fetch_result(state) {
        lemma_decoded_registers_valid(raw, state.regs);
    }
}

/// A cycle keeps the machine well formed; in particular, register 0 reads
/// as 0 after any cycle.
pub proof fn lemma_cycle_well_formed(state: CpuState)
    requires
        state.well_formed(),
        cycle_defined(state),
    ensures
        cycle_state(state).well_formed(),
        cycle_state(state).regs[0] == 0,
{
    if let Ok(inst) = cycle_instruction(state) {
        lemma_effect_well_formed(inst, fetch_state(state));
    }
}

/// However many cycles the machine runs through, it stays well formed, and
/// register 0 reads as 0.
pub proof fn lemma_run_well_formed(state: CpuState, cycles: nat)
    requires
        state.well_formed(),
        runs_for(state, cycles),
    ensures
        state_after(state, cycles).well_formed(),
        state_after(state, cycles).regs[0] == 0,
    decreases cycles,
{
    if cycles > 0 {
        lemma_run_well_formed(state, (cycles - 1) as nat);
        lemma_cycle_well_formed(state_after(state, (cycles - 1) as nat));
    }
}

/// A cycle whose instruction has register 0 as its destination, or has no
/// destination at all, and a cycle that ends in a fault, leave every
/// register as it was: only the program counter and memory can differ.
pub proof fn lemma_cycle_without_destination(state: CpuState)
    requires
        cycle_instruction(state) matches Ok(inst) ==> inst.destination() == Some(0usize)
            || inst.destination().is_none(),
    ensures
        cycle_state(state).regs == state.regs,
        cycle_instruction(state) matches Ok(inst) && inst.destination() == Some(0usize)
            ==> cycle_state(state).mem == state.mem,
{
    if let Ok(inst) = cycle_instruction(state) {
        lemma_no_destination_keeps_registers(inst, fetch_state(state));
    }
}

/// Where the four bytes at the program counter are zero, the cycle reports
/// the end of the instruction stream.
pub proof fn lemma_zero_word_ends(state: CpuState)
    requires
        fetchable(state.pc),
        forall|i: int| state.pc <= i < state.pc + 4 ==> state.mem[i] == 0,
    ensures
        cycle_defined(state),
        cycle_result(state) == Err::<ProgState, Error>(Error::EndOfInstructions),
{
    assert((0u8 as u32) | ((0u8 as u32) << 8) | ((0u8 as u32) << 16) | ((0u8 as u32) << 24) == 0)
        by (bit_vector);
}

/// A machine fresh from construction, with its zero-filled memory, reports
/// the end of the instruction stream in its first cycle, and so does one that
/// has loaded an empty program.
pub proof fn lemma_fresh_machine_ends()
    ensures
        stops_after(initial_state(), 0),
        cycle_result(initial_state()) == Err::<ProgState, Error>(Error::EndOfInstructions),
        initial_state().with_program(Seq::empty()) == initial_state(),
{
    lemma_zero_word_ends(initial_state());
    lemma_empty_image();
}

impl Cpu {
    /// The state of a machine is always well formed: 32 registers, the first
    /// of them zero, and a memory of the fixed size.
    pub proof fn lemma_well_formed(&self)
        ensures
            self@.well_formed(),
    {
        self.regs.lemma_zero_register();
        self.mem.lemma_size();
    }

    pub fn new(print_debug: bool) -> (cpu: Cpu)
        ensures
            cpu@ == initial_state(),
            cpu.print_debug == print_debug,
    {
        Cpu { print_debug, pc: ProgramCounter::new(), regs: Registers::new(), mem: Memory::new() }
    }

    /// Writes the state dump that follows the cycle with the given number.
    pub fn dump_state(&self, cycle_count: usize) -> (text: String)
        ensures
            text@ == dump_text(self@, cycle_count as nat),
    {
        let mut text = String::from_str("CPU dump at cycle ");
        push_decimal(&mut text, cycle_count);
        text.append(":\nPC: ");
        push_decimal(&mut text, self.pc.get() as usize);
        text.append("\n");
        let ghost head = text@;
        let mut i: usize = 0;
        while i < 32
            invariant
                i <= 32,
                text@ == head + register_lines(self@.regs, i as nat),
            decreases 32 - i,
        {
            text.append("R");
            push_decimal(&mut text, i);
            text.append(": ");
            push_signed_decimal(&mut text, to_signed(self.regs.read(i)));
            text.append("\n");
            i += 1;
            assert(text@ =~= head + register_lines(self@.regs, i as nat));
        }
        text
    }

    /// Fetches the next instruction word from memory and advances the
    /// program counter.
    pub fn fetch(&mut self) -> (fetched: Result<u32, Error>)
        ensures
            fetched == fetch_result(old(self)@),
            final(self)@ == fetch_state(old(self)@),
            final(self).print_debug == old(self).print_debug,
    {
        match self.pc.inc() {
            Ok(pc) => Ok(self.mem.read(Size::Word, pc, true)),
            Err(e) => Err(e),
        }
    }

    /// Decodes a raw instruction word into a typed instruction.
    pub fn decode(&self, raw_inst: u32) -> (decoded: Result<Inst, Error>)
        ensures
            decoded == decode_word(raw_inst, self@.regs),
            decoded matches Ok(inst) ==> inst.registers_valid(),
    {
        let opcode: usize = get_bits(raw_inst, 0, 6) as usize;
        let inst = match opcode {
            0b0110011 => {
                let r_format = RFormat::new(raw_inst);
                let inst = match (r_format.funct3, r_format.funct7) {
                    (0x0, 0x00) => RInst::ADD,
                    (0x0, 0x20) => RInst::SUB,
                    (0x4, 0x00) => RInst::XOR,
                    (0x6, 0x00) => RInst::OR,
                    (0x7, 0x00) => RInst::AND,
                    (0x1, 0x00) => RInst::SLL,
                    (0x5, 0x00) => RInst::SRL,
                    (0x5, 0x20) => RInst::SRA,
                    (0x2, 0x00) => RInst::SLT,
                    (0x3, 0x00) => RInst::SLTU,
                    _ => return Err(Error::InvalidInstFormat(FormatError::R(r_format))),
                };
                Inst::R(inst, r_format)
            },
            0b0010011 => {
                let i_format = IFormat::new(raw_inst);
                let upper_imm: u32 = get_bits(i_format.imm, 5, 11);
                let inst = match (i_format.funct3, upper_imm) {
                    (0x0, _) => ArithIInst::ADDI,
                    (0x4, _) => ArithIInst::XORI,
                    (0x6, _) => ArithIInst::ORI,
                    (0x7, _) => ArithIInst::ANDI,
                    (0x1, 0x00) => ArithIInst::SLLI,
                    (0x5, 0x00) => ArithIInst::SRLI,
                    (0x5, 0x20) => ArithIInst::SRAI,
                    (0x2, _) => ArithIInst::SLTI,
                    (0x3, _) => ArithIInst::SLTIU,
                    _ => return Err(Error::InvalidInstFormat(FormatError::I(i_format))),
                };
                Inst::I(IInst::Arith(inst), i_format)
            },
            0b0000011 => {
                let i_format = IFormat::new(raw_inst);
                let inst = match i_format.funct3 {
                    0x0 => MemIInst::LB,
                    0x1 => MemIInst::LH,
                    0x2 => MemIInst::LW,
                    0x4 => MemIInst::LBU,
                    0x5 => MemIInst::LHU,
                    _ => return Err(Error::InvalidInstFormat(FormatError::I(i_format))),
                };
                Inst::I(IInst::Mem(inst), i_format)
            },
            0b1100111 => {
                let i_format = IFormat::new(raw_inst);
                if i_format.funct3 == 0x0 {
                    Inst::I(IInst::Jalr, i_format)
                } else {
                    return Err(Error::InvalidInstFormat(FormatError::I(i_format)));
                }
            },
            0b0100011 => {
                let s_format = SFormat::new(raw_inst);
                let inst = match s_format.funct3 {
                    0x0 => SInst::SB,
                    0x1 => SInst::SH,
                    0x2 => SInst::SW,
                    _ => return Err(Error::InvalidInstFormat(FormatError::S(s_format))),
                };
                Inst::S(inst, s_format)
            },
            0b1100011 => {
                let b_format = BFormat::new(raw_inst);
                let inst = match b_format.funct3 {
                    0x0 => BInst::BEQ,
                    0x1 => BInst::BNE,
                    0x4 => BInst::BLT,
                    0x5 => BInst::BGE,
                    0x6 => BInst::BLTU,
                    0x7 => BInst::BGEU,
                    _ => return Err(Error::InvalidInstFormat(FormatError::B(b_format))),
                };
                Inst::B(inst, b_format)
            },
            0b1101111 => Inst::J(JFormat::new(raw_inst)),
            0b0110111 => Inst::U(UInst::LUI, UFormat::new(raw_inst)),
            0b0010111 => Inst::U(UInst::AUIPC, UFormat::new(raw_inst)),
            0b1110011 => {
                let call = if self.regs.read(SYSCALL_NUMBER_REGISTER) == SYSCALL_EXIT {
                    let argument: u32 = self.regs.read(SYSCALL_ARGUMENT_REGISTER);
                    assert(argument & 0xff == argument % 256) by (bit_vector);
                    SysCall::Exit((argument & 0xff) as u8)
                } else {
                    SysCall::Nop
                };
                Inst::SysCall(call)
            },
            0b0001111 => Inst::SysCall(SysCall::Nop),
            _ => return Err(Error::InvalidOpcode(opcode)),
        };
        Ok(inst)
    }

    /// Runs one cycle: fetch, decode, execute.
    pub fn emulate_cycle(&mut self) -> (ended: Result<ProgState, Error>)
        requires
            cycle_defined(old(self)@),
        ensures
            ended == cycle_result(old(self)@),
            final(self)@ == cycle_state(old(self)@),
            final(self)@.regs[0] == 0,
            final(self).print_debug == old(self).print_debug,
    {
        proof {
            self.regs.lemma_zero_register();
        }
        let raw_inst: u32 = match self.fetch() {
            Ok(raw_inst) => raw_inst,
            Err(e) => {
                return Err(e);
            },
        };
        if raw_inst == 0 {
            return Err(Error::EndOfInstructions);
        }
        let inst = match self.decode(raw_inst) {
            Ok(inst) => inst,
            Err(e) => {
                return Err(e);
            },
        };
        if let Inst::SysCall(SysCall::Exit(code)) = inst {
            return Ok(ProgState::Exit(code));
        }
        inst.execute(self);
        Ok(ProgState::Continue)
    }

    /// The word that the next cycle will decode: none where the fetch fails
    /// or meets a zero word.
    pub fn next_instruction(&self) -> (word: Option<u32>)
        ensures
            match fetch_result(self@) {
                Ok(raw) => word == if raw == 0 {
                    None
                } else {
                    Some(raw)
                },
                Err(_) => word.is_none(),
            },
    {
        let pc: u32 = self.pc.get();
        if pc > (MEMSIZE - 4) as u32 {
            return None;
        }
        let raw_inst: u32 = self.mem.read(Size::Word, pc, true);
        if raw_inst == 0 {
            None
        } else {
            Some(raw_inst)
        }
    }

    /// Decides whether the next cycle can run: whether the instruction it
    /// would execute, if any, stays within memory.
    pub fn can_cycle(&self) -> (possible: bool)
        ensures
            possible == cycle_defined(self@),
    {
        match self.next_instruction() {
            Some(raw_inst) => match self.decode(raw_inst) {
                Ok(inst) => inst.can_execute(self),
                Err(_) => true,
            },
            None => true,
        }
    }

    /// Runs one cycle if it can run, and leaves the machine untouched if it
    /// cannot.
    pub fn try_cycle(&mut self) -> (ended: Option<Result<ProgState, Error>>)
        ensures
            cycle_defined(old(self)@) ==> ended == Some(cycle_result(old(self)@)) && final(self)@
                == cycle_state(old(self)@),
            !cycle_defined(old(self)@) ==> ended.is_none() && final(self)@ == old(self)@,
            final(self)@.regs[0] == 0,
            final(self).print_debug == old(self).print_debug,
    {
        proof {
            self.regs.lemma_zero_register();
        }
        if self.can_cycle() {
            Some(self.emulate_cycle())
        } else {
            None
        }
    }

    /// Loads a program image and runs it until the exit call or a fault;
    /// returns the exit code or the fault.
    ///
    /// The program has to come to a stop, and none of its loads and stores
    /// may leave memory; `run_bounded` accepts every program. Nothing is
    /// printed here: a caller that wants a dump after every cycle runs the
    /// cycles itself, with `try_cycle` and `dump_state`.
    pub fn run(&mut self, program: Vec<u8>) -> (outcome: Result<u8, Error>)
        requires
            exists|cycles: nat| stops_after(old(self)@.with_program(program@), cycles),
        ensures
            exists|cycles: nat|
                run_ends(old(self)@.with_program(program@), cycles, outcome, final(self)@),
            final(self).print_debug == old(self).print_debug,
    {
        self.mem.load_program(program);
        let ghost start = self@;
        let ghost last: nat = choose|cycles: nat| stops_after(start, cycles);
        let ghost cycle: nat = 0;
        loop
            invariant
                start == old(self)@.with_program(program@),
                stops_after(start, last),
                runs_for(start, cycle),
                cycle <= last,
                self@ == state_after(start, cycle),
                self.print_debug == old(self).print_debug,
            decreases last - cycle,
        {
            proof {
                if cycle < last {
                    lemma_runs_for_fewer(start, last, cycle + 1);
                }
            }
            let ghost before = self@;
            let ended = self.emulate_cycle();
            proof {
                assert(state_after(start, cycle + 1) == cycle_state(before));
            }
            match ended {
                Ok(ProgState::Exit(code)) => {
                    assert(run_ends(start, cycle, Ok(code), self@));
                    return Ok(code);
                },
                Err(e) => {
                    assert(run_ends(start, cycle, Err(e), self@));
                    return Err(e);
                },
                Ok(ProgState::Continue) => {},
            }
            proof {
                cycle = cycle + 1;
            }
        }
    }

    /// Loads a program image and runs it for at most `max_cycles` cycles.
    ///
    /// Returns the exit code or the fault when the program stops within
    /// them. Returns `None`, with the machine as it was before the cycle
    /// that did not run, when the cycles are used up or when a load or store
    /// would leave memory.
    pub fn run_bounded(&mut self, program: Vec<u8>, max_cycles: u64) -> (outcome: Option<
        Result<u8, Error>,
    >)
        ensures
            exists|cycles: nat|
                bounded_run_ends(
                    old(self)@.with_program(program@),
                    max_cycles as nat,
                    cycles,
                    outcome,
                    final(self)@,
                ),
            final(self).print_debug == old(self).print_debug,
    {
        self.mem.load_program(program);
        let ghost start = self@;
        let mut cycle: u64 = 0;
        while cycle < max_cycles
            invariant
                start == old(self)@.with_program(program@),
                cycle <= max_cycles,
                runs_for(start, cycle as nat),
                self@ == state_after(start, cycle as nat),
                self.print_debug == old(self).print_debug,
            decreases max_cycles - cycle,
        {
            let ghost before = self@;
            let ended = self.try_cycle();
            proof {
                assert(state_after(start, (cycle + 1) as nat) == cycle_state(before));
            }
            match ended {
                None => {
                    assert(bounded_run_ends(
                        start,
                        max_cycles as nat,
                        cycle as nat,
                        None,
                        self@,
                    ));
                    return None;
                },
                Some(Ok(ProgState::Exit(code))) => {
                    assert(bounded_run_ends(
                        start,
                        max_cycles as nat,
                        cycle as nat,
                        Some(Ok(code)),
                        self@,
                    ));
                    return Some(Ok(code));
                },
                Some(Err(e)) => {
                    assert(bounded_run_ends(
                        start,
                        max_cycles as nat,
                        cycle as nat,
                        Some(Err(e)),
                        self@,
                    ));
                    return Some(Err(e));
                },
                Some(Ok(ProgState::Continue)) => {},
            }
            cycle += 1;
        }
        assert(bounded_run_ends(start, max_cycles as nat, cycle as nat, None, self@));
        None
    }
}

} // verus!
