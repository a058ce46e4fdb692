//! Laws of the datapath that relate several of its operations.

use vstd::prelude::*;

use crate::alu::{
    alu_result, lemma_add_sub_wrap, lemma_at_width_idempotent, lemma_multiply_truncates,
    lemma_word_operands, sign_extend32, signed64, wrap64,
};
use crate::constants::{
    ENC_MUL, ENC_MULU, FUNCT_ADD, FUNCT_DADD, FUNCT_DSUB, FUNCT_SOP30, FUNCT_SOP31, FUNCT_SOP34,
    FUNCT_SOP35, FUNCT_SUB, OPCODE_LW, OPCODE_ORI, OPCODE_SW,
};
use crate::control_signals::signals_of;
use crate::coprocessor::DataWrite;
use crate::datapath::{
    fetch_word, run_stages, select_step, stage_step, trad_step, CoreSelect, DatapathModel,
};
use crate::error::DatapathError;
use crate::instruction::{decoded, lemma_decoded_in_range, IType, Instruction, RType};
use crate::registers::read_reg;
use crate::stage::{stages_left, Stage};
use crate::traditional_core::trad_operation;

verus! {

/// The datapath after one call of `execute_stage`: the stage's result, or,
/// when the stage fails, the datapath unchanged.
pub open spec fn after_stage(m: DatapathModel) -> DatapathModel {
    match stage_step(m) {
        Ok(next) => next,
        Err(_) => m,
    }
}

/// From instruction fetch, five calls of `execute_stage` leave the datapath
/// exactly where one call of `execute_instruction` leaves it: registers,
/// memory and program counter included. When decode fails, both stop after
/// the fetch, and the fifth call fails as the whole instruction does.
pub proof fn lemma_five_stages_make_one_instruction(m: DatapathModel)
    requires
        m.stage == Stage::InstructionFetch,
    ensures
        after_stage(after_stage(after_stage(after_stage(after_stage(m))))) == run_stages(
            m,
            stages_left(m.stage),
        ).0,
        stage_step(after_stage(after_stage(after_stage(after_stage(m))))) is Err <==> run_stages(
            m,
            stages_left(m.stage),
        ).1 is Some,
{
    reveal_with_fuel(run_stages, 6);
}

/// Register 0 holds zero after any number of stages from a datapath where
/// it holds zero: no write-back targets it.
pub proof fn lemma_stages_keep_zero_register(m: DatapathModel, n: nat)
    requires
        m.gpr.len() == 32,
        m.gpr[0] == 0,
    ensures
        run_stages(m, n).0.gpr.len() == 32,
        run_stages(m, n).0.gpr[0] == 0,
    decreases n,
{
    if n > 0 {
        if let Ok(next) = stage_step(m) {
            lemma_stages_keep_zero_register(next, (n - 1) as nat);
        }
    }
}

/// Instructions run one after another, each by the strategy chosen for it.
pub open spec fn run_selected(m: DatapathModel, cores: Seq<CoreSelect>) -> DatapathModel
    decreases cores.len(),
{
    if cores.len() == 0 {
        m
    } else {
        run_selected(select_step(m, cores[0]).0, cores.drop_first())
    }
}

/// Register 0 reads as zero after any sequence of instructions run by
/// either strategy, also right after one whose destination is register 0;
/// and it holds zero whenever it held zero at the start.
pub proof fn lemma_zero_register(m: DatapathModel, cores: Seq<CoreSelect>)
    requires
        m.gpr.len() == 32,
        m.gpr[0] == 0,
    ensures
        run_selected(m, cores).gpr.len() == 32,
        run_selected(m, cores).gpr[0] == 0,
        read_reg(run_selected(m, cores).gpr, 0) == 0,
    decreases cores.len(),
{
    if cores.len() > 0 {
        let next = select_step(m, cores[0]).0;
        match cores[0] {
            CoreSelect::DatapathCore => lemma_stages_keep_zero_register(m, stages_left(m.stage)),
            CoreSelect::TradCore => {
                let t = trad_step(m);
                if t.1 is None {
                    assert(next.gpr.len() == 32);
                }
            },
        }
        lemma_zero_register(next, cores.drop_first());
    }
}

/// The instruction at the program counter is the register-register
/// instruction `r`.
pub open spec fn fetches_rtype(m: DatapathModel, r: RType) -> bool {
    decoded(fetch_word(m.memory, m.pc)) == Ok::<Instruction, DatapathError>(Instruction::RType(r))
}

/// A register-register ALU instruction, run whole by the staged datapath
/// from instruction fetch, writes its ALU result (of the full source
/// registers) to `rd` unless `rd` is register 0, leaves memory alone and
/// moves the program counter on by 4. The coprocessor does not claim the
/// write.
pub proof fn lemma_rtype_writes_alu_result(m: DatapathModel, r: RType)
    requires
        m.stage == Stage::InstructionFetch,
        m.gpr.len() == 32,
        m.coprocessor.signals.data_write == DataWrite::NoWrite,
        fetches_rtype(m, r),
        signals_of(Instruction::RType(r)) is Ok,
    ensures
        ({
            let (after, failure) = run_stages(m, 5);
            let signals = signals_of(Instruction::RType(r))->Ok_0;
            let v = alu_result(
                signals.alu_control,
                signals.reg_width,
                read_reg(m.gpr, r.rs as int),
                read_reg(m.gpr, r.rt as int),
            );
            &&& failure is None
            &&& after.gpr == if r.rd == 0 {
                m.gpr
            } else {
                m.gpr.update(r.rd as int, v)
            }
            &&& after.pc == wrap64(m.pc + 4)
            &&& after.memory == m.memory
        }),
{
    reveal_with_fuel(run_stages, 6);
    lemma_decoded_in_range(fetch_word(m.memory, m.pc));
    let signals = signals_of(Instruction::RType(r))->Ok_0;
    let a = read_reg(m.gpr, r.rs as int);
    let b = read_reg(m.gpr, r.rt as int);
    lemma_word_operands(signals.alu_control, a, b);
    let v = alu_result(signals.alu_control, signals.reg_width, a, b);
    lemma_at_width_idempotent(
        signals.reg_width,
        crate::alu::operation(
            signals.alu_control,
            crate::alu::operand_of(signals.alu_control, signals.reg_width, a),
            crate::alu::operand_of(signals.alu_control, signals.reg_width, b),
        ),
    );
}

/// What an add or subtract stores: for `add` and `sub` the low 32 bits of
/// the exact result, sign-extended; for `dadd` and `dsub` its low 64 bits.
pub open spec fn wrapped_add_sub(funct: u8, a: u64, b: u64) -> u64 {
    if funct == FUNCT_ADD {
        sign_extend32(wrap64(a + b))
    } else if funct == FUNCT_SUB {
        sign_extend32(wrap64(a - b))
    } else if funct == FUNCT_DADD {
        wrap64(a + b)
    } else {
        wrap64(a - b)
    }
}

/// An add or subtract, run by either strategy, stores the wrapped result:
/// the 32-bit wraparound, sign-extended, for `add` and `sub`, and the
/// 64-bit wraparound for `dadd` and `dsub`.
pub proof fn lemma_add_sub_stores_wrapped(m: DatapathModel, r: RType, core: CoreSelect)
    requires
        m.stage == Stage::InstructionFetch,
        m.gpr.len() == 32,
        m.coprocessor.signals.data_write == DataWrite::NoWrite,
        fetches_rtype(m, r),
        r.funct == FUNCT_ADD || r.funct == FUNCT_SUB || r.funct == FUNCT_DADD || r.funct
            == FUNCT_DSUB,
        r.rd != 0,
    ensures
        select_step(m, core).1 is None,
        select_step(m, core).0.gpr[r.rd as int] == wrapped_add_sub(
            r.funct,
            read_reg(m.gpr, r.rs as int),
            read_reg(m.gpr, r.rt as int),
        ),
{
    let a = read_reg(m.gpr, r.rs as int);
    let b = read_reg(m.gpr, r.rt as int);
    lemma_add_sub_wrap(a, b);
    lemma_decoded_in_range(fetch_word(m.memory, m.pc));
    match core {
        CoreSelect::DatapathCore => lemma_rtype_writes_alu_result(m, r),
        CoreSelect::TradCore => {},
    }
}

/// What a multiply stores: for `mul` and `mulu` the low 32 bits of the
/// exact product, sign-extended; for `dmul` the low 64 bits of the product
/// of the signed operands; for `dmulu` the low 64 bits of the product.
pub open spec fn truncated_product(funct: u8, a: u64, b: u64) -> u64 {
    if funct == FUNCT_SOP30 || funct == FUNCT_SOP31 {
        sign_extend32(wrap64(a * b))
    } else if funct == FUNCT_SOP34 {
        wrap64(signed64(a) * signed64(b))
    } else {
        wrap64(a * b)
    }
}

/// A multiply, run by either strategy, stores only the low bits of the
/// exact product: 32 of them, sign-extended, at word width, and 64 at
/// doubleword width, whether the operands are signed or unsigned.
pub proof fn lemma_multiply_stores_truncated(m: DatapathModel, r: RType, core: CoreSelect)
    requires
        m.stage == Stage::InstructionFetch,
        m.gpr.len() == 32,
        m.coprocessor.signals.data_write == DataWrite::NoWrite,
        fetches_rtype(m, r),
        (r.funct == FUNCT_SOP30 || r.funct == FUNCT_SOP34) && r.shamt == ENC_MUL || (r.funct
            == FUNCT_SOP31 || r.funct == FUNCT_SOP35) && r.shamt == ENC_MULU,
        r.rd != 0,
    ensures
        select_step(m, core).1 is None,
        select_step(m, core).0.gpr[r.rd as int] == truncated_product(
            r.funct,
            read_reg(m.gpr, r.rs as int),
            read_reg(m.gpr, r.rt as int),
        ),
{
    let a = read_reg(m.gpr, r.rs as int);
    let b = read_reg(m.gpr, r.rt as int);
    lemma_multiply_truncates(a, b);
    lemma_decoded_in_range(fetch_word(m.memory, m.pc));
    match core {
        CoreSelect::DatapathCore => lemma_rtype_writes_alu_result(m, r),
        CoreSelect::TradCore => {},
    }
}

/// On a register-register instruction that the direct interpreter
/// supports, the two strategies agree: both succeed, and they leave the
/// same registers, program counter and memory.
pub proof fn lemma_strategies_agree_on_rtype(m: DatapathModel, r: RType)
    requires
        m.stage == Stage::InstructionFetch,
        m.gpr.len() == 32,
        m.gpr[0] == 0,
        m.coprocessor.signals.data_write == DataWrite::NoWrite,
        fetches_rtype(m, r),
        trad_operation(r) is Some,
    ensures
        select_step(m, CoreSelect::DatapathCore).1 is None,
        select_step(m, CoreSelect::TradCore).1 is None,
        select_step(m, CoreSelect::DatapathCore).0.gpr == select_step(m, CoreSelect::TradCore).0.gpr,
        select_step(m, CoreSelect::DatapathCore).0.pc == select_step(m, CoreSelect::TradCore).0.pc,
        select_step(m, CoreSelect::DatapathCore).0.memory == select_step(
            m,
            CoreSelect::TradCore,
        ).0.memory,
{
    lemma_decoded_in_range(fetch_word(m.memory, m.pc));
    let signals = signals_of(Instruction::RType(r))->Ok_0;
    assert(signals_of(Instruction::RType(r)) is Ok);
    assert((signals.alu_control, signals.reg_width) == trad_operation(r)->Some_0);
    lemma_rtype_writes_alu_result(m, r);
    let staged = select_step(m, CoreSelect::DatapathCore).0;
    let direct = select_step(m, CoreSelect::TradCore).0;
    assert(staged.gpr =~= direct.gpr);
}

/// Five stages that all succeed, step by step.
proof fn lemma_run_stages_five(m: DatapathModel)
    requires
        stage_step(m) is Ok,
        stage_step(stage_step(m)->Ok_0) is Ok,
        stage_step(stage_step(stage_step(m)->Ok_0)->Ok_0) is Ok,
        stage_step(stage_step(stage_step(stage_step(m)->Ok_0)->Ok_0)->Ok_0) is Ok,
        stage_step(stage_step(stage_step(stage_step(stage_step(m)->Ok_0)->Ok_0)->Ok_0)->Ok_0) is Ok,
    ensures
        run_stages(m, 5) == (
            stage_step(
                stage_step(stage_step(stage_step(stage_step(m)->Ok_0)->Ok_0)->Ok_0)->Ok_0,
            )->Ok_0,
            None::<DatapathError>,
        ),
{
    reveal_with_fuel(run_stages, 6);
}

/// On `ori`, `lw` and `sw` the two strategies agree: both succeed, and
/// they leave the same registers, program counter and memory. Loads and
/// stores use the same address, and a loaded word is sign-extended by both.
#[verifier::rlimit(100)]
pub proof fn lemma_strategies_agree_on_immediate(m: DatapathModel, i: IType)
    requires
        m.stage == Stage::InstructionFetch,
        m.gpr.len() == 32,
        m.gpr[0] == 0,
        m.coprocessor.signals.data_write == DataWrite::NoWrite,
        decoded(fetch_word(m.memory, m.pc)) == Ok::<Instruction, DatapathError>(
            Instruction::IType(i),
        ),
        i.op == OPCODE_ORI || i.op == OPCODE_LW || i.op == OPCODE_SW,
    ensures
        select_step(m, CoreSelect::DatapathCore).1 is None,
        select_step(m, CoreSelect::TradCore).1 is None,
        select_step(m, CoreSelect::DatapathCore).0.gpr == select_step(m, CoreSelect::TradCore).0.gpr,
        select_step(m, CoreSelect::DatapathCore).0.pc == select_step(m, CoreSelect::TradCore).0.pc,
        select_step(m, CoreSelect::DatapathCore).0.memory == select_step(
            m,
            CoreSelect::TradCore,
        ).0.memory,
{
    lemma_decoded_in_range(fetch_word(m.memory, m.pc));
    let base = read_reg(m.gpr, i.rs as int);
    assert((base % 0x1_0000_0000) % 0x1_0000_0000 == base % 0x1_0000_0000);
    let m1 = stage_step(m)->Ok_0;
    let m2 = stage_step(m1)->Ok_0;
    let m3 = stage_step(m2)->Ok_0;
    let m4 = stage_step(m3)->Ok_0;
    let m5 = stage_step(m4)->Ok_0;
    assert(stage_step(m1) is Ok);
    assert(m2.signals == crate::control_signals::itype_signals(i)->Ok_0);
    assert(m2.state.rs == i.rs && m2.state.rt == i.rt);
    assert(m3.state.alu_result == if i.op == OPCODE_ORI {
        base | (i.immediate as u64)
    } else {
        crate::traditional_core::effective_address(m.gpr, i)
    });
    assert(m4.gpr == m.gpr && m4.pc == m.pc);
    lemma_run_stages_five(m);
    let direct = select_step(m, CoreSelect::TradCore).0;
    assert(m5.gpr =~= direct.gpr);
}

} // verus!
