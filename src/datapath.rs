//! The staged MIPS64 datapath.
//!
//! Only one instruction is in flight at any time, so this is a
//! "pseudo-single-cycle" datapath: an instruction passes through
//! instruction fetch, instruction decode, execute, memory access and
//! write-back, and [`MipsDatapath::execute_stage`] runs one stage at a time
//! so that each can be observed.
//!
//! Unlike the MIPS64 architecture, this datapath raises no exceptions:
//! arithmetic wraps, a division by zero yields 0, and an instruction with
//! no defined meaning stops the datapath with a [`DatapathError`].
//! 32-bit instructions use only the low 32 bits of their registers.

use vstd::prelude::*;

use crate::alu::{alu_operation, alu_result, at_width, sign_extend_word, wrap64};
use crate::control_signals::{
    control_signals_for, signals_of, AluSrc, ControlSignals, ImmShift, MemRead, MemToReg,
    MemWrite, MemWriteSrc, RegDst, RegWidth, RegWrite,
};
use crate::coprocessor::{DataWrite, MipsFpCoprocessor};
use crate::error::DatapathError;
use crate::instruction::{decoded, Instruction, RType};
use crate::memory::{
    double_word_at, double_word_bytes, fits, word_at, word_bytes, written, Memory, MemoryError,
};
use crate::registers::{read_reg, register_value, GpRegisterType, GpRegisters};
use crate::stage::{next_stage, stages_left, Stage};
use crate::traditional_core::{trad_effect, TradCore};

verus! {

/// The data lines between the stages. A new instruction starts with all of
/// them cleared but the instruction word.
#[derive(Clone, Copy, Debug, PartialEq, Eq, Structural)]
pub struct DatapathState {
    /// The raw instruction word, set in instruction fetch.
    pub instruction: u32,
    pub rs: u32,
    pub rt: u32,
    pub rd: u32,
    pub shamt: u32,
    pub funct: u32,
    pub imm: u32,
    /// The register named by `rs`, read in instruction decode.
    pub read_data_1: u64,
    /// The register named by `rt`, read in instruction decode.
    pub read_data_2: u64,
    /// The immediate sign-extended to 64 bits.
    pub sign_extend: u64,
    /// The ALU's result, set in execute.
    pub alu_result: u64,
    /// The data loaded from memory, set in memory access.
    pub memory_data: u64,
    /// The value chosen between the ALU result and the loaded data.
    pub data_result: u64,
    /// The value for the destination register, after the choice between
    /// the primary unit and the coprocessor.
    pub register_write_data: u64,
}

/// Which execution strategy runs the next instruction.
#[derive(Clone, Copy, Debug, PartialEq, Eq, Structural)]
pub enum CoreSelect {
    /// The staged datapath.
    DatapathCore,
    /// The direct interpreter of [`TradCore`](crate::traditional_core::TradCore).
    TradCore,
}

/// Everything the datapath holds, as mathematical values.
pub struct DatapathModel {
    /// The 32 general-purpose registers.
    pub gpr: Seq<u64>,
    pub pc: u64,
    /// The bytes of memory.
    pub memory: Seq<u8>,
    pub coprocessor: MipsFpCoprocessor,
    pub instruction: Instruction,
    pub signals: ControlSignals,
    pub state: DatapathState,
    pub stage: Stage,
}

/// The data lines of a new instruction.
pub open spec fn cleared_state(word: u32) -> DatapathState {
    DatapathState {
        instruction: word,
        rs: 0,
        rt: 0,
        rd: 0,
        shamt: 0,
        funct: 0,
        imm: 0,
        read_data_1: 0,
        read_data_2: 0,
        sign_extend: 0,
        alu_result: 0,
        memory_data: 0,
        data_result: 0,
        register_write_data: 0,
    }
}

/// The word fetched at `pc`; a failed fetch reads as zero.
pub open spec fn fetch_word(mem: Seq<u8>, pc: u64) -> u32 {
    if fits(mem, pc, 4) {
        word_at(mem, pc)
    } else {
        0
    }
}

/// A 16-bit immediate read as a two's-complement number.
pub open spec fn signed_low16(imm: u32) -> int {
    let v = imm % 0x1_0000;
    if v < 0x8000 {
        v as int
    } else {
        v - 0x1_0000
    }
}

/// The low 16 bits of the immediate line, sign-extended to 64 bits.
pub open spec fn sign_extend16(imm: u32) -> u64 {
    wrap64(signed_low16(imm))
}

/// The data lines after the fields of `instr` are copied onto them.
pub open spec fn decoded_state(s: DatapathState, instr: Instruction) -> DatapathState {
    match instr {
        Instruction::RType(r) => DatapathState {
            rs: r.rs as u32,
            rt: r.rt as u32,
            rd: r.rd as u32,
            shamt: r.shamt as u32,
            funct: r.funct as u32,
            ..s
        },
        Instruction::IType(i) => DatapathState {
            rs: i.rs as u32,
            rt: i.rt as u32,
            rd: 0,
            imm: i.immediate as u32,
            ..s
        },
        _ => s,
    }
}

/// A register as an operand of the given width: a word operation sees only
/// the low 32 bits.
pub open spec fn register_operand(width: RegWidth, x: u64) -> u64 {
    match width {
        RegWidth::Word => x % 0x1_0000_0000,
        RegWidth::DoubleWord => x,
    }
}

/// The data lines after the two source registers are read.
pub open spec fn with_operands(gpr: Seq<u64>, s: DatapathState, width: RegWidth) -> DatapathState {
    DatapathState {
        read_data_1: register_operand(width, read_reg(gpr, s.rs as int)),
        read_data_2: register_operand(width, read_reg(gpr, s.rt as int)),
        ..s
    }
}

/// The immediate operand, shifted as the signal asks.
pub open spec fn shifted_immediate(x: u64, shift: ImmShift) -> u64 {
    match shift {
        ImmShift::Shift0 => x,
        ImmShift::Shift16 => x << 16u64,
        ImmShift::Shift32 => x << 32u64,
        ImmShift::Shift48 => x << 48u64,
    }
}

/// The ALU's second operand.
pub open spec fn alu_input2(signals: ControlSignals, s: DatapathState) -> u64 {
    match signals.alu_src {
        AluSrc::ReadRegister2 => s.read_data_2,
        AluSrc::SignExtendedImmediate => shifted_immediate(s.sign_extend, signals.imm_shift),
        AluSrc::ZeroExtendedImmediate => s.imm as u64,
    }
}

/// The data a load brings; a failed load reads as zero.
pub open spec fn loaded(mem: Seq<u8>, address: u64, width: RegWidth) -> u64 {
    match width {
        RegWidth::Word => if fits(mem, address, 4) {
            word_at(mem, address) as u64
        } else {
            0
        },
        RegWidth::DoubleWord => if fits(mem, address, 8) {
            double_word_at(mem, address)
        } else {
            0
        },
    }
}

/// Memory after a store; a failed store leaves it unchanged.
pub open spec fn stored(mem: Seq<u8>, address: u64, data: u64, width: RegWidth) -> Seq<u8> {
    match width {
        RegWidth::Word => if fits(mem, address, 4) {
            written(mem, address, word_bytes(data as u32))
        } else {
            mem
        },
        RegWidth::DoubleWord => if fits(mem, address, 8) {
            written(mem, address, double_word_bytes(data))
        } else {
            mem
        },
    }
}

/// The register number the destination signal selects.
pub open spec fn destination(reg_dst: RegDst, s: DatapathState) -> int {
    match reg_dst {
        RegDst::Reg1 => s.rs as int,
        RegDst::Reg2 => s.rt as int,
        RegDst::Reg3 => s.rd as int,
    }
}

/// Instruction fetch: the word at the program counter becomes the current
/// instruction, and the coprocessor is handed it.
pub open spec fn fetch_work(m: DatapathModel) -> DatapathModel {
    let word = fetch_word(m.memory, m.pc);
    DatapathModel {
        state: cleared_state(word),
        coprocessor: (MipsFpCoprocessor { instruction: word, ..m.coprocessor }).advanced(),
        ..m
    }
}

/// Instruction decode: the word is decoded, its control signals derived and
/// its source registers read; it fails on an encoding with no meaning.
pub open spec fn decode_work(m: DatapathModel) -> Result<DatapathModel, DatapathError> {
    match decoded(m.state.instruction) {
        Err(e) => Err(e),
        Ok(instr) => match signals_of(instr) {
            Err(e) => Err(e),
            Ok(signals) => {
                let s1 = decoded_state(m.state, instr);
                let s2 = DatapathState { sign_extend: sign_extend16(s1.imm), ..s1 };
                let s3 = with_operands(m.gpr, s2, signals.reg_width);
                Ok(
                    DatapathModel {
                        instruction: instr,
                        signals,
                        state: s3,
                        coprocessor: MipsFpCoprocessor {
                            data_from_main_processor: s3.read_data_2,
                            ..m.coprocessor.advanced()
                        },
                        ..m
                    },
                )
            },
        },
    }
}

/// Execute: the ALU runs.
pub open spec fn execute_work(m: DatapathModel) -> DatapathModel {
    let s = m.state;
    let result = alu_result(
        m.signals.alu_control,
        m.signals.reg_width,
        s.read_data_1,
        alu_input2(m.signals, s),
    );
    DatapathModel {
        state: DatapathState { alu_result: result, ..s },
        coprocessor: m.coprocessor.advanced(),
        ..m
    }
}

/// Memory access: a load or a store at the ALU result, and the choice of
/// the value to write back.
pub open spec fn memory_work(m: DatapathModel) -> DatapathModel {
    let s = m.state;
    let address = s.alu_result;
    let width = m.signals.reg_width;
    let memory_data = if m.signals.mem_read == MemRead::YesRead {
        loaded(m.memory, address, width)
    } else {
        s.memory_data
    };
    let store_data = match m.signals.mem_write_src {
        MemWriteSrc::PrimaryUnit => s.read_data_2,
        MemWriteSrc::FloatingPointUnit => m.coprocessor.data,
    };
    let memory = if m.signals.mem_write == MemWrite::YesWrite {
        stored(m.memory, address, store_data, width)
    } else {
        m.memory
    };
    let data_result = match m.signals.mem_to_reg {
        MemToReg::UseAlu => s.alu_result,
        MemToReg::UseMemory => memory_data,
    };
    DatapathModel {
        memory,
        state: DatapathState { memory_data, data_result, ..s },
        coprocessor: m.coprocessor.advanced(),
        ..m
    }
}

/// Write-back: the coprocessor is handed the value, the value (or the
/// coprocessor's, where it claims the write) goes to the destination
/// register, and the program counter moves on by 4.
pub open spec fn writeback_work(m: DatapathModel) -> DatapathModel {
    let s = m.state;
    let c = MipsFpCoprocessor { fp_register_data_from_main_processor: s.data_result, ..m.coprocessor };
    let chosen = match c.signals.data_write {
        DataWrite::NoWrite => s.data_result,
        DataWrite::YesWrite => c.data,
    };
    let value = at_width(m.signals.reg_width, chosen);
    let d = destination(m.signals.reg_dst, s);
    let gpr = if m.signals.reg_write == RegWrite::YesWrite && 0 < d < 32 {
        m.gpr.update(d, value)
    } else {
        m.gpr
    };
    DatapathModel {
        gpr,
        pc: wrap64(m.pc + 4),
        state: DatapathState { register_write_data: value, ..s },
        coprocessor: c.advanced(),
        ..m
    }
}

/// One stage: the current stage's work, then the next stage.
pub open spec fn stage_step(m: DatapathModel) -> Result<DatapathModel, DatapathError> {
    let after = match m.stage {
        Stage::InstructionFetch => Ok(fetch_work(m)),
        Stage::InstructionDecode => decode_work(m),
        Stage::Execute => Ok(execute_work(m)),
        Stage::Memory => Ok(memory_work(m)),
        Stage::WriteBack => Ok(writeback_work(m)),
    };
    match after {
        Ok(n) => Ok(DatapathModel { stage: next_stage(m.stage), ..n }),
        Err(e) => Err(e),
    }
}

/// Up to `n` stages, stopping at the first that fails: the model reached,
/// and the failure if there was one.
pub open spec fn run_stages(m: DatapathModel, n: nat) -> (DatapathModel, Option<DatapathError>)
    decreases n,
{
    if n == 0 {
        (m, None)
    } else {
        match stage_step(m) {
            Ok(next) => run_stages(next, (n - 1) as nat),
            Err(e) => (m, Some(e)),
        }
    }
}

/// How many stages complete the instruction in flight; none from
/// instruction fetch, where no instruction is in flight.
pub open spec fn stages_to_finish(s: Stage) -> nat {
    if s == Stage::InstructionFetch {
        0
    } else {
        stages_left(s)
    }
}

/// The failure a result reports.
pub open spec fn failure_of(r: Result<(), DatapathError>) -> Option<DatapathError> {
    match r {
        Ok(_) => None,
        Err(e) => Some(e),
    }
}

/// One instruction run by the direct interpreter: the word at the program
/// counter is fetched and decoded, then applied, and register 0 is cleared.
/// An encoding that cannot be decoded leaves the registers and memory as
/// they were; one that the interpreter does not support only has register
/// 0 cleared, which reads as zero in any case.
pub open spec fn trad_step(m: DatapathModel) -> (DatapathModel, Option<DatapathError>) {
    let word = fetch_word(m.memory, m.pc);
    let fetched = DatapathModel { state: DatapathState { instruction: word, ..m.state }, ..m };
    match decoded(word) {
        Err(e) => (fetched, Some(e)),
        Ok(instr) => match trad_effect(instr, m.gpr, m.memory) {
            Ok((gpr, memory)) => (
                DatapathModel {
                    gpr: gpr.update(0, 0),
                    pc: wrap64(m.pc + 4),
                    memory,
                    instruction: instr,
                    ..fetched
                },
                None,
            ),
            Err(e) => (
                DatapathModel { gpr: m.gpr.update(0, 0), instruction: instr, ..fetched },
                Some(e),
            ),
        },
    }
}

/// One instruction run by the chosen strategy: the model reached, and the
/// failure if there was one.
pub open spec fn select_step(m: DatapathModel, core: CoreSelect) -> (
    DatapathModel,
    Option<DatapathError>,
) {
    match core {
        CoreSelect::DatapathCore => run_stages(m, stages_left(m.stage)),
        CoreSelect::TradCore => trad_step(m),
    }
}

/// The address of the `i`th word of a loaded program.
pub open spec fn program_address(i: int) -> int {
    4 + 4 * i
}

/// How many words of a program fit in a memory of `len` bytes.
pub open spec fn program_capacity(len: nat) -> nat {
    if len < 8 {
        0
    } else {
        ((len - 8) / 4 + 1) as nat
    }
}

/// Memory with the words of a program stored one after another from
/// address 4 on.
pub open spec fn with_program(mem: Seq<u8>, words: Seq<u32>) -> Seq<u8>
    decreases words.len(),
{
    if words.len() == 0 {
        mem
    } else {
        let k = words.len() - 1;
        written(with_program(mem, words.take(k)), program_address(k) as u64, word_bytes(words[k]))
    }
}

/// A MIPS64 datapath: registers, memory, the coprocessor, and the state of
/// the instruction in flight.
pub struct MipsDatapath {
    pub registers: GpRegisters,
    pub memory: Memory,
    pub coprocessor: MipsFpCoprocessor,
    pub instruction: Instruction,
    pub signals: ControlSignals,
    pub state: DatapathState,
    /// The stage that runs next.
    pub current_stage: Stage,
    /// The direct interpreter, for [`CoreSelect::TradCore`].
    pub traditional_core: TradCore,
}

/// The datapath seen as a [`DatapathModel`]: its general-purpose
/// registers, program counter, memory bytes, coprocessor, decoded
/// instruction, control signals, data lines and current stage.
impl View for MipsDatapath {
    type V = DatapathModel;

    open spec fn view(&self) -> DatapathModel {
        DatapathModel {
            gpr: self.registers.gpr@,
            pc: self.registers.pc,
            memory: self.memory@,
            coprocessor: self.coprocessor,
            instruction: self.instruction,
            signals: self.signals,
            state: self.state,
            stage: self.current_stage,
        }
    }
}

/// A stage that succeeds moves the datapath to the next stage; only
/// instruction decode can fail.
pub proof fn lemma_stage_step_advances(m: DatapathModel)
    ensures
        stage_step(m) is Ok ==> stage_step(m)->Ok_0.stage == next_stage(m.stage),
        m.stage != Stage::InstructionDecode ==> stage_step(m) is Ok,
{
}

/// Running `n + 1` stages is one stage, then `n` more.
pub proof fn lemma_run_stages_unfold(m: DatapathModel, n: nat)
    ensures
        run_stages(m, n + 1) == match stage_step(m) {
            Ok(next) => run_stages(next, n),
            Err(e) => (m, Some(e)),
        },
{
}

impl DatapathState {
    /// All data lines cleared but the instruction word.
    pub fn cleared(instruction: u32) -> (s: DatapathState)
        ensures
            s == cleared_state(instruction),
    {
        DatapathState {
            instruction,
            rs: 0,
            rt: 0,
            rd: 0,
            shamt: 0,
            funct: 0,
            imm: 0,
            read_data_1: 0,
            read_data_2: 0,
            sign_extend: 0,
            alu_result: 0,
            memory_data: 0,
            data_result: 0,
            register_write_data: 0,
        }
    }
}

impl Default for DatapathState {
    fn default() -> (s: DatapathState)
        ensures
            s == cleared_state(0),
    {
        DatapathState::cleared(0)
    }
}

pub(crate) proof fn lemma_sign_extend16(imm: u32)
    ensures
        ((imm as i16) as i64) as u64 == sign_extend16(imm),
{
    let v = imm % 0x1_0000u32;
    if v < 0x8000 {
        assert((imm % 0x1_0000u32) < 0x8000 ==> ((imm as i16) as i64) as u64 == (imm
            % 0x1_0000u32) as u64) by (bit_vector);
    } else {
        assert((imm % 0x1_0000u32) >= 0x8000 ==> ((imm as i16) as i64) as u64 == (imm
            % 0x1_0000u32) as u64 + 0xffff_ffff_ffff_0000u64) by (bit_vector);
        vstd::arithmetic::div_mod::lemma_mod_multiples_vanish(
            -1,
            v - 0x1_0000int + 0x1_0000_0000_0000_0000int,
            0x1_0000_0000_0000_0000int,
        );
    }
}

proof fn lemma_low32(x: u64)
    ensures
        (x as u32) as u64 == x % 0x1_0000_0000,
{
    assert((x as u32) as u64 == x % 0x1_0000_0000) by (bit_vector);
}

impl MipsDatapath {
    /// A datapath with zeroed registers and memory, in instruction fetch.
    pub fn new() -> (d: MipsDatapath)
        ensures
            d@.stage == Stage::InstructionFetch,
            d@.coprocessor.stage == Stage::InstructionFetch,
            d@.pc == 0,
            forall|i: int| 0 <= i < 32 ==> #[trigger] d@.gpr[i] == 0,
            d@.memory == Seq::new(crate::memory::CAPACITY_BYTES as nat, |i: int| 0u8),
    {
        MipsDatapath {
            registers: GpRegisters::new(),
            memory: Memory::new(),
            coprocessor: MipsFpCoprocessor::new(),
            instruction: Instruction::RType(
                RType { op: 0, rs: 0, rt: 0, rd: 0, shamt: 0, funct: 0 },
            ),
            signals: crate::control_signals::idle_signals(),
            state: DatapathState::cleared(0),
            current_stage: Stage::InstructionFetch,
            traditional_core: TradCore::new(),
        }
    }

    /// The stage that runs next.
    pub fn current_stage(&self) -> (s: Stage)
        ensures
            s == self@.stage,
    {
        self.current_stage
    }

    /// Loads the word at the program counter onto the instruction line; a
    /// failed load gives the word 0.
    fn instruction_fetch(&mut self)
        ensures
            final(self)@ == (DatapathModel {
                state: DatapathState {
                    instruction: fetch_word(old(self)@.memory, old(self)@.pc),
                    ..old(self)@.state
                },
                ..old(self)@
            }),
    {
        self.state.instruction = match self.memory.load_word(self.registers.pc) {
            Ok(data) => data,
            Err(_) => 0,
        };
    }

    /// Stage 1 of 5: instruction fetch.
    fn stage_instruction_fetch(&mut self)
        ensures
            final(self)@ == fetch_work(old(self)@),
    {
        self.state = DatapathState::cleared(0);
        self.instruction_fetch();
        self.coprocessor.set_instruction(self.state.instruction);
    }

    /// Copies the fields of the decoded instruction onto the data lines.
    fn instruction_decode(&mut self)
        ensures
            final(self)@ == (DatapathModel {
                state: decoded_state(old(self)@.state, old(self)@.instruction),
                ..old(self)@
            }),
    {
        match self.instruction {
            Instruction::RType(r) => {
                self.state.rs = r.rs as u32;
                self.state.rt = r.rt as u32;
                self.state.rd = r.rd as u32;
                self.state.shamt = r.shamt as u32;
                self.state.funct = r.funct as u32;
            },
            Instruction::IType(i) => {
                self.state.rs = i.rs as u32;
                self.state.rt = i.rt as u32;
                self.state.rd = 0;
                self.state.imm = i.immediate as u32;
            },
            _ => {},
        }
    }

    /// Extends the sign of the 16-bit immediate to 64 bits.
    fn sign_extend(&mut self)
        ensures
            final(self)@ == (DatapathModel {
                state: DatapathState {
                    sign_extend: sign_extend16(old(self)@.state.imm),
                    ..old(self)@.state
                },
                ..old(self)@
            }),
    {
        proof {
            lemma_sign_extend16(self.state.imm);
        }
        self.state.sign_extend = self.state.imm as i16 as i64 as u64;
    }

    /// Reads the two source registers; a word operation keeps only their
    /// low 32 bits.
    fn read_registers(&mut self)
        ensures
            final(self)@ == (DatapathModel {
                state: with_operands(old(self)@.gpr, old(self)@.state, old(self)@.signals.reg_width),
                ..old(self)@
            }),
    {
        let mut data1 = self.registers.read(self.state.rs as usize);
        let mut data2 = self.registers.read(self.state.rt as usize);
        if let RegWidth::Word = self.signals.reg_width {
            proof {
                lemma_low32(data1);
                lemma_low32(data2);
            }
            data1 = data1 as u32 as u64;
            data2 = data2 as u32 as u64;
        }
        self.state.read_data_1 = data1;
        self.state.read_data_2 = data2;
    }

    /// Stage 2 of 5: instruction decode. Fails, changing nothing, on an
    /// encoding with no defined meaning.
    fn stage_instruction_decode(&mut self) -> (r: Result<(), DatapathError>)
        ensures
            match decode_work(old(self)@) {
                Ok(m) => r is Ok && final(self)@ == m,
                Err(e) => r == Err::<(), DatapathError>(e) && final(self)@ == old(self)@,
            },
    {
        let instruction = match Instruction::decode(self.state.instruction) {
            Ok(i) => i,
            Err(e) => return Err(e),
        };
        let signals = match control_signals_for(&instruction) {
            Ok(s) => s,
            Err(e) => return Err(e),
        };
        self.instruction = instruction;
        self.instruction_decode();
        self.sign_extend();
        self.signals = signals;
        self.read_registers();
        self.coprocessor.stage_instruction_decode();
        self.coprocessor.set_data_from_main_processor(self.state.read_data_2);
        Ok(())
    }

    /// Runs the ALU on the first register and the operand the `AluSrc`
    /// signal selects.
    fn alu(&mut self)
        ensures
            final(self)@ == (DatapathModel {
                state: DatapathState {
                    alu_result: alu_result(
                        old(self)@.signals.alu_control,
                        old(self)@.signals.reg_width,
                        old(self)@.state.read_data_1,
                        alu_input2(old(self)@.signals, old(self)@.state),
                    ),
                    ..old(self)@.state
                },
                ..old(self)@
            }),
    {
        let immediate = match self.signals.imm_shift {
            ImmShift::Shift0 => self.state.sign_extend,
            ImmShift::Shift16 => self.state.sign_extend << 16u64,
            ImmShift::Shift32 => self.state.sign_extend << 32u64,
            ImmShift::Shift48 => self.state.sign_extend << 48u64,
        };
        let input2 = match self.signals.alu_src {
            AluSrc::ReadRegister2 => self.state.read_data_2,
            AluSrc::SignExtendedImmediate => immediate,
            AluSrc::ZeroExtendedImmediate => self.state.imm as u64,
        };
        self.state.alu_result = alu_operation(
            self.signals.alu_control,
            self.signals.reg_width,
            self.state.read_data_1,
            input2,
        );
    }

    /// Stage 3 of 5: execute.
    fn stage_execute(&mut self)
        ensures
            final(self)@ == execute_work(old(self)@),
    {
        self.alu();
        self.coprocessor.stage_execute();
    }

    /// Loads from memory at the ALU result, sized by the register width; a
    /// failed load gives 0.
    fn memory_read(&mut self)
        ensures
            final(self)@ == (DatapathModel {
                state: DatapathState {
                    memory_data: loaded(
                        old(self)@.memory,
                        old(self)@.state.alu_result,
                        old(self)@.signals.reg_width,
                    ),
                    ..old(self)@.state
                },
                ..old(self)@
            }),
    {
        let address = self.state.alu_result;
        self.state.memory_data = match self.signals.reg_width {
            RegWidth::Word => match self.memory.load_word(address) {
                Ok(w) => w as u64,
                Err(_) => 0,
            },
            RegWidth::DoubleWord => match self.memory.load_double_word(address) {
                Ok(d) => d,
                Err(_) => 0,
            },
        };
    }

    /// Stores at the ALU result, sized by the register width, the value of
    /// the unit that `MemWriteSrc` selects; a failed store changes nothing.
    fn memory_write(&mut self)
        ensures
            final(self)@ == (DatapathModel {
                memory: stored(
                    old(self)@.memory,
                    old(self)@.state.alu_result,
                    match old(self)@.signals.mem_write_src {
                        MemWriteSrc::PrimaryUnit => old(self)@.state.read_data_2,
                        MemWriteSrc::FloatingPointUnit => old(self)@.coprocessor.data,
                    },
                    old(self)@.signals.reg_width,
                ),
                ..old(self)@
            }),
    {
        let address = self.state.alu_result;
        let data = match self.signals.mem_write_src {
            MemWriteSrc::PrimaryUnit => self.state.read_data_2,
            MemWriteSrc::FloatingPointUnit => self.coprocessor.get_data_register(),
        };
        match self.signals.reg_width {
            RegWidth::Word => {
                let _ = self.memory.store_word(address, #[verifier::truncate] (data as u32));
            },
            RegWidth::DoubleWord => {
                let _ = self.memory.store_double_word(address, data);
            },
        }
    }

    /// Stage 4 of 5: memory access.
    fn stage_memory(&mut self)
        ensures
            final(self)@ == memory_work(old(self)@),
    {
        if let MemRead::YesRead = self.signals.mem_read {
            self.memory_read();
        }
        if let MemWrite::YesWrite = self.signals.mem_write {
            self.memory_write();
        }
        self.state.data_result = match self.signals.mem_to_reg {
            MemToReg::UseAlu => self.state.alu_result,
            MemToReg::UseMemory => self.state.memory_data,
        };
        self.coprocessor.stage_memory();
    }

    /// Writes the chosen value to the destination register, if `RegWrite`
    /// is set: the coprocessor's value where it claims the write, else the
    /// primary unit's. A word is sign-extended first, and register 0 is
    /// never written.
    fn register_write(&mut self)
        ensures
            ({
                let m = old(self)@;
                let chosen = match m.coprocessor.signals.data_write {
                    DataWrite::NoWrite => m.state.data_result,
                    DataWrite::YesWrite => m.coprocessor.data,
                };
                let value = at_width(m.signals.reg_width, chosen);
                let d = destination(m.signals.reg_dst, m.state);
                final(self)@ == DatapathModel {
                    gpr: if m.signals.reg_write == RegWrite::YesWrite && 0 < d < 32 {
                        m.gpr.update(d, value)
                    } else {
                        m.gpr
                    },
                    state: DatapathState { register_write_data: value, ..m.state },
                    ..m
                }
            }),
    {
        let chosen = match self.coprocessor.signals.data_write {
            DataWrite::NoWrite => self.state.data_result,
            DataWrite::YesWrite => self.coprocessor.get_data_register(),
        };
        self.state.register_write_data = match self.signals.reg_width {
            RegWidth::Word => sign_extend_word(chosen),
            RegWidth::DoubleWord => chosen,
        };
        if let RegWrite::NoWrite = self.signals.reg_write {
            return ;
        }
        let destination = match self.signals.reg_dst {
            RegDst::Reg1 => self.state.rs,
            RegDst::Reg2 => self.state.rt,
            RegDst::Reg3 => self.state.rd,
        };
        if destination == 0 || destination >= 32 {
            return ;
        }
        self.registers.gpr[destination as usize] = self.state.register_write_data;
    }

    /// Moves the program counter on by 4.
    fn set_pc(&mut self)
        ensures
            final(self)@ == (DatapathModel { pc: wrap64(old(self)@.pc + 4), ..old(self)@ }),
    {
        self.registers.pc = self.registers.pc.wrapping_add(4);
    }

    /// Stage 5 of 5: write-back.
    fn stage_writeback(&mut self)
        ensures
            final(self)@ == writeback_work(old(self)@),
    {
        self.coprocessor.set_fp_register_data_from_main_processor(self.state.data_result);
        self.register_write();
        self.set_pc();
        self.coprocessor.stage_writeback();
    }

    /// Runs the current stage, then moves to the next one. A stage that
    /// fails (instruction decode, on an encoding with no meaning) changes
    /// nothing.
    pub fn execute_stage(&mut self) -> (r: Result<(), DatapathError>)
        ensures
            old(self).registers.gpr[0] == 0 ==> final(self).registers.gpr[0] == 0,
            match stage_step(old(self)@) {
                Ok(m) => r is Ok && final(self)@ == m,
                Err(e) => r == Err::<(), DatapathError>(e) && final(self)@ == old(self)@,
            },
    {
        proof {
            if self.registers.gpr[0] == 0 {
                crate::theorems::lemma_stages_keep_zero_register(self@, 1);
            }
            lemma_run_stages_unfold(self@, 0);
        }
        match self.current_stage {
            Stage::InstructionFetch => self.stage_instruction_fetch(),
            Stage::InstructionDecode => {
                if let Err(e) = self.stage_instruction_decode() {
                    return Err(e);
                }
            },
            Stage::Execute => self.stage_execute(),
            Stage::Memory => self.stage_memory(),
            Stage::WriteBack => self.stage_writeback(),
        }
        self.current_stage = Stage::get_next_stage(self.current_stage);
        Ok(())
    }

    /// Runs stages until instruction fetch comes round again; from
    /// instruction fetch there is nothing to finish.
    fn finish_instruction(&mut self) -> (r: Result<(), DatapathError>)
        ensures
            (final(self)@, failure_of(r)) == run_stages(
                old(self)@,
                stages_to_finish(old(self)@.stage),
            ),
    {
        while self.current_stage != Stage::InstructionFetch
            invariant
                run_stages(self@, stages_to_finish(self@.stage)) == run_stages(
                    old(self)@,
                    stages_to_finish(old(self)@.stage),
                ),
            decreases stages_to_finish(self@.stage),
        {
            let ghost before = self@;
            proof {
                lemma_stage_step_advances(before);
                lemma_run_stages_unfold(before, (stages_to_finish(before.stage) - 1) as nat);
            }
            if let Err(e) = self.execute_stage() {
                return Err(e);
            }
        }
        Ok(())
    }

    /// Runs one instruction with the staged datapath. From instruction
    /// fetch, all five stages run; in the middle of an instruction, only
    /// the stages that finish it run, and no new instruction starts. Stops
    /// at a stage that fails, which changes nothing.
    pub fn execute_instruction(&mut self) -> (r: Result<(), DatapathError>)
        ensures
            old(self).registers.gpr[0] == 0 ==> final(self).registers.gpr[0] == 0,
            (final(self)@, failure_of(r)) == run_stages(old(self)@, stages_left(old(self)@.stage)),
    {
        proof {
            if self.registers.gpr[0] == 0 {
                crate::theorems::lemma_stages_keep_zero_register(self@, stages_left(self@.stage));
            }
        }
        if self.current_stage == Stage::InstructionFetch {
            proof {
                lemma_stage_step_advances(self@);
                lemma_run_stages_unfold(self@, 4);
            }
            let _ = self.execute_stage();
        }
        self.finish_instruction()
    }

    /// Runs one instruction with the chosen strategy: the staged datapath,
    /// as [`MipsDatapath::execute_instruction`], or the direct interpreter,
    /// which fetches the word at the program counter and applies it without
    /// touching the stages.
    pub fn execute_instruction_select(&mut self, core_preference: CoreSelect) -> (r: Result<
        (),
        DatapathError,
    >)
        ensures
            (final(self)@, failure_of(r)) == select_step(old(self)@, core_preference),
            old(self).registers.gpr[0] == 0 ==> final(self).registers.gpr[0] == 0,
    {
        match core_preference {
            CoreSelect::DatapathCore => self.execute_instruction(),
            CoreSelect::TradCore => {
                self.instruction_fetch();
                let instruction = match Instruction::decode(self.state.instruction) {
                    Ok(i) => i,
                    Err(e) => return Err(e),
                };
                self.instruction = instruction;
                self.traditional_core.execute_instruction(
                    &instruction,
                    &mut self.memory,
                    &mut self.registers,
                )
            },
        }
    }

    /// Reads a register by name; register 0 reads as zero.
    pub fn get_register_by_enum(&self, register: GpRegisterType) -> (r: u64)
        ensures
            r == register_value(self@.gpr, self@.pc, register),
    {
        self.registers.get(register)
    }

    /// The whole memory, for reading.
    pub fn get_memory(&self) -> (m: &Memory)
        ensures
            m@ == self@.memory,
    {
        &self.memory
    }

    /// Stores a program in memory, word `i` at address `4 + 4 * i`. Fails
    /// when a word does not fit; the words before it are then stored.
    pub fn load_instructions(&mut self, instructions: Vec<u32>) -> (r: Result<(), MemoryError>)
        ensures
            ({
                let n = instructions@.len();
                let k = program_capacity(old(self)@.memory.len());
                &&& r is Ok <==> n <= k
                &&& r is Ok ==> final(self)@ == (DatapathModel {
                    memory: with_program(old(self)@.memory, instructions@),
                    ..old(self)@
                })
                &&& r is Err ==> r == Err::<(), MemoryError>(
                    MemoryError::OutOfBounds { address: program_address(k as int) as u64 },
                ) && final(self)@ == (DatapathModel {
                    memory: with_program(old(self)@.memory, instructions@.take(k as int)),
                    ..old(self)@
                })
            }),
    {
        let ghost m0 = self@;
        let ghost len = m0.memory.len();
        let memory_len = self.memory.memory.len();
        assert(len == memory_len);
        let mut i: usize = 0;
        while i < instructions.len()
            invariant
                i <= instructions@.len(),
                i <= program_capacity(len),
                self.memory@.len() == len,
                len == m0.memory.len(),
                m0 == old(self)@,
                len <= usize::MAX,
                self@ == (DatapathModel {
                    memory: with_program(m0.memory, instructions@.take(i as int)),
                    ..m0
                }),
            decreases instructions@.len() - i,
        {
            let address = 4 + 4 * (i as u64);
            match self.memory.store_word(address, instructions[i]) {
                Ok(()) => {},
                Err(e) => {
                    assert(i == program_capacity(len));
                    return Err(e);
                },
            }
            proof {
                assert(instructions@.take(i + 1).take(i as int) =~= instructions@.take(i as int));
            }
            i = i + 1;
        }
        proof {
            assert(instructions@.take(i as int) =~= instructions@);
        }
        Ok(())
    }
}

impl Default for MipsDatapath {
    fn default() -> (d: MipsDatapath)
        ensures
            d@.stage == Stage::InstructionFetch,
            d@.coprocessor.stage == Stage::InstructionFetch,
            d@.pc == 0,
            forall|i: int| 0 <= i < 32 ==> #[trigger] d@.gpr[i] == 0,
            d@.memory == Seq::new(crate::memory::CAPACITY_BYTES as nat, |i: int| 0u8),
    {
        MipsDatapath::new()
    }
}

} // verus!
