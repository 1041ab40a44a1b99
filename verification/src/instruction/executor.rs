//! The result of an instruction and the executor that produces it.

use vstd::prelude::*;
use crate::instruction::arithmetic::{
    adc_model, dec_model, dex_model, dey_model, execute_adc, execute_dec, execute_dex,
    execute_dey, execute_inc, execute_inx, execute_iny, execute_sbc, inc_model, inx_model,
    iny_model, sbc_model,
};
use crate::instruction::bitwise::{
    and_model, asl_model, eor_model, execute_and, execute_asl, execute_eor, execute_lsr,
    execute_ora, execute_rol, execute_ror, lsr_model, ora_model, rol_model, ror_model,
};
use crate::instruction::branch::{
    bcc_model, bcs_model, beq_model, bmi_model, bne_model, bpl_model, bvc_model, bvs_model,
    execute_bcc, execute_bcs, execute_beq, execute_bmi, execute_bne, execute_bpl, execute_bvc,
    execute_bvs, execute_jmp, execute_jsr, execute_rti, execute_rts, jmp_model, jsr_model,
    rti_model, rts_model,
};
use crate::instruction::compare::{
    bit_model, cmp_model, cpx_model, cpy_model, execute_bit, execute_cmp, execute_cpx,
    execute_cpy,
};
use crate::instruction::flag::{
    clc_model, cld_model, cli_model, clv_model, execute_clc, execute_cld, execute_cli,
    execute_clv, execute_sec, execute_sed, execute_sei, sec_model, sed_model, sei_model,
};
use crate::instruction::interrupt::{brk_model, execute_brk};
use crate::instruction::load::{
    execute_lda, execute_ldx, execute_ldy, lda_model, ldx_model, ldy_model,
};
use crate::instruction::nop::{execute_nop, execute_top, nop_model, top_model};
use crate::instruction::stack::{
    execute_pha, execute_php, execute_pla, execute_plp, pha_model, php_model, pla_model,
    plp_model,
};
use crate::instruction::store::{
    execute_sta, execute_stx, execute_sty, sta_model, stx_model, sty_model,
};
use crate::instruction::transfer::{
    execute_tax, execute_tay, execute_tsx, execute_txa, execute_txs, execute_tya, tax_model,
    tay_model, tsx_model, txa_model, txs_model, tya_model,
};
use crate::memory::{MemoryBus, reads_change_nothing};
use crate::opcode::{
    DecodeError, Op, OpAddressMode, OpClass, OpParam, decode_op, lemma_operand_leaves_memory,
    opcode_table, operand_model,
};
use crate::registers::{Registers, RegistersView};

verus! {

/// A write that an instruction asks for: it reaches the memory when the
/// instruction's result is committed.
#[derive(Copy, Clone, Debug, PartialEq, Eq, Structural)]
pub struct Write {
    pub address: u16,
    pub value: u8,
}

impl Write {
    pub fn new(address: u16, value: u8) -> (r: Write)
        ensures
            r == (Write { address: address, value: value }),
    {
        Write { address: address, value: value }
    }
}

/// The model of an instruction's result.
pub struct InstructionResultView {
    pub reg: RegistersView,
    pub writes: Seq<Write>,
    pub cycles: nat,
}

/// What an instruction leaves: the registers after it, the writes that it
/// asks for, in order, and the cycles that it took.
pub struct InstructionResult {
    pub reg: Registers,
    pub writes: Vec<Write>,
    pub cycles: usize,
}

impl View for InstructionResult {
    type V = InstructionResultView;

    open spec fn view(&self) -> InstructionResultView {
        InstructionResultView {
            reg: self.reg@,
            writes: self.writes@,
            cycles: self.cycles as nat,
        }
    }
}

impl InstructionResultView {
    /// The result of an instruction that has done nothing yet.
    pub open spec fn initial() -> InstructionResultView {
        InstructionResultView { reg: RegistersView::initial(), writes: Seq::empty(), cycles: 0 }
    }

    /// The result with other registers.
    pub open spec fn with_reg(self, reg: RegistersView) -> InstructionResultView {
        InstructionResultView { reg: reg, ..self }
    }

    /// The result with one more write behind the others.
    pub open spec fn with_write(self, address: u16, value: u8) -> InstructionResultView {
        InstructionResultView {
            writes: self.writes.push(Write { address: address, value: value }),
            ..self
        }
    }

    /// The result with more cycles.
    pub open spec fn with_cycles(self, more: nat) -> InstructionResultView {
        InstructionResultView { cycles: self.cycles + more, ..self }
    }

    /// The result with one more cycle if a page boundary was crossed.
    pub open spec fn with_penalty(self, page_crossed: bool) -> InstructionResultView {
        self.with_cycles(
            if page_crossed {
                1
            } else {
                0
            },
        )
    }
}

impl InstructionResult {
    pub fn new() -> (r: InstructionResult)
        ensures
            r@ == InstructionResultView::initial(),
    {
        InstructionResult { reg: Registers::new(), writes: Vec::new(), cycles: 0 }
    }

    /// Whether the handlers can still count their cycles: none of them adds
    /// more than two.
    pub open spec fn has_room(&self) -> bool {
        self.cycles + 2 <= usize::MAX
    }

    /// Adds a cycle if a page boundary was crossed.
    pub fn add_penalty(&mut self, page_crossed: bool)
        requires
            old(self).cycles + 1 <= usize::MAX,
        ensures
            final(self)@ == old(self)@.with_penalty(page_crossed),
    {
        if page_crossed {
            self.cycles += 1;
        }
    }
}

/// What an instruction of a class does: the result that its handler leaves,
/// and the memory after the reads that the handler made. `reg` are the
/// registers before the instruction, the program counter behind it already;
/// `result` is what the handler starts from.
pub open spec fn instruction_model<M: MemoryBus>(
    class: OpClass,
    mode: OpAddressMode,
    param: OpParam,
    reg: RegistersView,
    state: M::V,
    result: InstructionResultView,
) -> (InstructionResultView, M::V) {
    match class {
        OpClass::Nop => nop_model::<M>(mode, param, reg, state, result),
        OpClass::Top => top_model::<M>(mode, param, reg, state, result),
        OpClass::Brk => brk_model::<M>(mode, param, reg, state, result),
        OpClass::Clc => clc_model::<M>(mode, param, reg, state, result),
        OpClass::Cld => cld_model::<M>(mode, param, reg, state, result),
        OpClass::Cli => cli_model::<M>(mode, param, reg, state, result),
        OpClass::Clv => clv_model::<M>(mode, param, reg, state, result),
        OpClass::Sec => sec_model::<M>(mode, param, reg, state, result),
        OpClass::Sed => sed_model::<M>(mode, param, reg, state, result),
        OpClass::Sei => sei_model::<M>(mode, param, reg, state, result),
        OpClass::Lda => lda_model::<M>(mode, param, reg, state, result),
        OpClass::Ldx => ldx_model::<M>(mode, param, reg, state, result),
        OpClass::Ldy => ldy_model::<M>(mode, param, reg, state, result),
        OpClass::Sta => sta_model::<M>(mode, param, reg, state, result),
        OpClass::Stx => stx_model::<M>(mode, param, reg, state, result),
        OpClass::Sty => sty_model::<M>(mode, param, reg, state, result),
        OpClass::Pha => pha_model::<M>(mode, param, reg, state, result),
        OpClass::Php => php_model::<M>(mode, param, reg, state, result),
        OpClass::Pla => pla_model::<M>(mode, param, reg, state, result),
        OpClass::Plp => plp_model::<M>(mode, param, reg, state, result),
        OpClass::Tax => tax_model::<M>(mode, param, reg, state, result),
        OpClass::Tay => tay_model::<M>(mode, param, reg, state, result),
        OpClass::Tsx => tsx_model::<M>(mode, param, reg, state, result),
        OpClass::Txa => txa_model::<M>(mode, param, reg, state, result),
        OpClass::Txs => txs_model::<M>(mode, param, reg, state, result),
        OpClass::Tya => tya_model::<M>(mode, param, reg, state, result),
        OpClass::Bit => bit_model::<M>(mode, param, reg, state, result),
        OpClass::Cmp => cmp_model::<M>(mode, param, reg, state, result),
        OpClass::Cpx => cpx_model::<M>(mode, param, reg, state, result),
        OpClass::Cpy => cpy_model::<M>(mode, param, reg, state, result),
        OpClass::Bcc => bcc_model::<M>(mode, param, reg, state, result),
        OpClass::Bcs => bcs_model::<M>(mode, param, reg, state, result),
        OpClass::Beq => beq_model::<M>(mode, param, reg, state, result),
        OpClass::Bmi => bmi_model::<M>(mode, param, reg, state, result),
        OpClass::Bne => bne_model::<M>(mode, param, reg, state, result),
        OpClass::Bpl => bpl_model::<M>(mode, param, reg, state, result),
        OpClass::Bvc => bvc_model::<M>(mode, param, reg, state, result),
        OpClass::Bvs => bvs_model::<M>(mode, param, reg, state, result),
        OpClass::Jmp => jmp_model::<M>(mode, param, reg, state, result),
        OpClass::Jsr => jsr_model::<M>(mode, param, reg, state, result),
        OpClass::Rts => rts_model::<M>(mode, param, reg, state, result),
        OpClass::Rti => rti_model::<M>(mode, param, reg, state, result),
        OpClass::And => and_model::<M>(mode, param, reg, state, result),
        OpClass::Asl => asl_model::<M>(mode, param, reg, state, result),
        OpClass::Lsr => lsr_model::<M>(mode, param, reg, state, result),
        OpClass::Eor => eor_model::<M>(mode, param, reg, state, result),
        OpClass::Ora => ora_model::<M>(mode, param, reg, state, result),
        OpClass::Rol => rol_model::<M>(mode, param, reg, state, result),
        OpClass::Ror => ror_model::<M>(mode, param, reg, state, result),
        OpClass::Adc => adc_model::<M>(mode, param, reg, state, result),
        OpClass::Sbc => sbc_model::<M>(mode, param, reg, state, result),
        OpClass::Dec => dec_model::<M>(mode, param, reg, state, result),
        OpClass::Dex => dex_model::<M>(mode, param, reg, state, result),
        OpClass::Dey => dey_model::<M>(mode, param, reg, state, result),
        OpClass::Inc => inc_model::<M>(mode, param, reg, state, result),
        OpClass::Inx => inx_model::<M>(mode, param, reg, state, result),
        OpClass::Iny => iny_model::<M>(mode, param, reg, state, result),
    }
}

/// Hands one of the instructions that do nothing to its handler.
fn match_no_operation<M: MemoryBus>(
    op_class: OpClass,
    mode: OpAddressMode,
    params: &OpParam,
    reg: &Registers,
    memory: &mut M,
    result: InstructionResult,
) -> (r: InstructionResult)
    requires
        M::valid_model(old(memory)@),
        result.has_room(),
        op_class is Nop || op_class is Top,
    ensures
        (r@, final(memory)@) == instruction_model::<M>(
            op_class,
            mode,
            *params,
            reg@,
            old(memory)@,
            result@,
        ),
        M::valid_model(final(memory)@),
        M::layout_model(final(memory)@) == M::layout_model(old(memory)@),
{
    match op_class {
        OpClass::Nop => execute_nop(mode, params, reg, memory, result),
        OpClass::Top => execute_top(mode, params, reg, memory, result),
        _ => result,
    }
}

/// Hands one of the instructions that clear or set a flag to its handler.
fn match_flag<M: MemoryBus>(
    op_class: OpClass,
    mode: OpAddressMode,
    params: &OpParam,
    reg: &Registers,
    memory: &mut M,
    result: InstructionResult,
) -> (r: InstructionResult)
    requires
        M::valid_model(old(memory)@),
        result.has_room(),
        op_class is Clc || op_class is Cld || op_class is Cli || op_class is Clv ||
            op_class is Sec || op_class is Sed || op_class is Sei,
    ensures
        (r@, final(memory)@) == instruction_model::<M>(
            op_class,
            mode,
            *params,
            reg@,
            old(memory)@,
            result@,
        ),
        M::valid_model(final(memory)@),
        M::layout_model(final(memory)@) == M::layout_model(old(memory)@),
{
    match op_class {
        OpClass::Clc => execute_clc(mode, params, reg, memory, result),
        OpClass::Cld => execute_cld(mode, params, reg, memory, result),
        OpClass::Cli => execute_cli(mode, params, reg, memory, result),
        OpClass::Clv => execute_clv(mode, params, reg, memory, result),
        OpClass::Sec => execute_sec(mode, params, reg, memory, result),
        OpClass::Sed => execute_sed(mode, params, reg, memory, result),
        OpClass::Sei => execute_sei(mode, params, reg, memory, result),
        _ => result,
    }
}

/// Hands one of the loads and stores to its handler.
fn match_load_store<M: MemoryBus>(
    op_class: OpClass,
    mode: OpAddressMode,
    params: &OpParam,
    reg: &Registers,
    memory: &mut M,
    result: InstructionResult,
) -> (r: InstructionResult)
    requires
        M::valid_model(old(memory)@),
        result.has_room(),
        op_class is Lda || op_class is Ldx || op_class is Ldy || op_class is Sta ||
            op_class is Stx || op_class is Sty,
    ensures
        (r@, final(memory)@) == instruction_model::<M>(
            op_class,
            mode,
            *params,
            reg@,
            old(memory)@,
            result@,
        ),
        M::valid_model(final(memory)@),
        M::layout_model(final(memory)@) == M::layout_model(old(memory)@),
{
    match op_class {
        OpClass::Lda => execute_lda(mode, params, reg, memory, result),
        OpClass::Ldx => execute_ldx(mode, params, reg, memory, result),
        OpClass::Ldy => execute_ldy(mode, params, reg, memory, result),
        OpClass::Sta => execute_sta(mode, params, reg, memory, result),
        OpClass::Stx => execute_stx(mode, params, reg, memory, result),
        OpClass::Sty => execute_sty(mode, params, reg, memory, result),
        _ => result,
    }
}

/// Hands one of the stack instructions to its handler.
fn match_stack<M: MemoryBus>(
    op_class: OpClass,
    mode: OpAddressMode,
    params: &OpParam,
    reg: &Registers,
    memory: &mut M,
    result: InstructionResult,
) -> (r: InstructionResult)
    requires
        M::valid_model(old(memory)@),
        result.has_room(),
        op_class is Pha || op_class is Php || op_class is Pla || op_class is Plp,
    ensures
        (r@, final(memory)@) == instruction_model::<M>(
            op_class,
            mode,
            *params,
            reg@,
            old(memory)@,
            result@,
        ),
        M::valid_model(final(memory)@),
        M::layout_model(final(memory)@) == M::layout_model(old(memory)@),
{
    match op_class {
        OpClass::Pha => execute_pha(mode, params, reg, memory, result),
        OpClass::Php => execute_php(mode, params, reg, memory, result),
        OpClass::Pla => execute_pla(mode, params, reg, memory, result),
        OpClass::Plp => execute_plp(mode, params, reg, memory, result),
        _ => result,
    }
}

/// Hands one of the transfers between registers to its handler.
fn match_transfer<M: MemoryBus>(
    op_class: OpClass,
    mode: OpAddressMode,
    params: &OpParam,
    reg: &Registers,
    memory: &mut M,
    result: InstructionResult,
) -> (r: InstructionResult)
    requires
        M::valid_model(old(memory)@),
        result.has_room(),
        op_class is Tax || op_class is Tay || op_class is Tsx || op_class is Txa ||
            op_class is Txs || op_class is Tya,
    ensures
        (r@, final(memory)@) == instruction_model::<M>(
            op_class,
            mode,
            *params,
            reg@,
            old(memory)@,
            result@,
        ),
        M::valid_model(final(memory)@),
        M::layout_model(final(memory)@) == M::layout_model(old(memory)@),
{
    match op_class {
        OpClass::Tax => execute_tax(mode, params, reg, memory, result),
        OpClass::Tay => execute_tay(mode, params, reg, memory, result),
        OpClass::Tsx => execute_tsx(mode, params, reg, memory, result),
        OpClass::Txa => execute_txa(mode, params, reg, memory, result),
        OpClass::Txs => execute_txs(mode, params, reg, memory, result),
        OpClass::Tya => execute_tya(mode, params, reg, memory, result),
        _ => result,
    }
}

/// Hands one of the comparisons to its handler.
fn match_compare<M: MemoryBus>(
    op_class: OpClass,
    mode: OpAddressMode,
    params: &OpParam,
    reg: &Registers,
    memory: &mut M,
    result: InstructionResult,
) -> (r: InstructionResult)
    requires
        M::valid_model(old(memory)@),
        result.has_room(),
        op_class is Bit || op_class is Cmp || op_class is Cpx || op_class is Cpy,
    ensures
        (r@, final(memory)@) == instruction_model::<M>(
            op_class,
            mode,
            *params,
            reg@,
            old(memory)@,
            result@,
        ),
        M::valid_model(final(memory)@),
        M::layout_model(final(memory)@) == M::layout_model(old(memory)@),
{
    match op_class {
        OpClass::Bit => execute_bit(mode, params, reg, memory, result),
        OpClass::Cmp => execute_cmp(mode, params, reg, memory, result),
        OpClass::Cpx => execute_cpx(mode, params, reg, memory, result),
        OpClass::Cpy => execute_cpy(mode, params, reg, memory, result),
        _ => result,
    }
}

/// Hands one of the conditional branches to its handler.
fn match_branch<M: MemoryBus>(
    op_class: OpClass,
    mode: OpAddressMode,
    params: &OpParam,
    reg: &Registers,
    memory: &mut M,
    result: InstructionResult,
) -> (r: InstructionResult)
    requires
        M::valid_model(old(memory)@),
        result.has_room(),
        op_class is Bcc || op_class is Bcs || op_class is Beq || op_class is Bmi ||
            op_class is Bne || op_class is Bpl || op_class is Bvc || op_class is Bvs,
    ensures
        (r@, final(memory)@) == instruction_model::<M>(
            op_class,
            mode,
            *params,
            reg@,
            old(memory)@,
            result@,
        ),
        M::valid_model(final(memory)@),
        M::layout_model(final(memory)@) == M::layout_model(old(memory)@),
{
    match op_class {
        OpClass::Bcc => execute_bcc(mode, params, reg, memory, result),
        OpClass::Bcs => execute_bcs(mode, params, reg, memory, result),
        OpClass::Beq => execute_beq(mode, params, reg, memory, result),
        OpClass::Bmi => execute_bmi(mode, params, reg, memory, result),
        OpClass::Bne => execute_bne(mode, params, reg, memory, result),
        OpClass::Bpl => execute_bpl(mode, params, reg, memory, result),
        OpClass::Bvc => execute_bvc(mode, params, reg, memory, result),
        OpClass::Bvs => execute_bvs(mode, params, reg, memory, result),
        _ => result,
    }
}

/// Hands one of the jumps and returns to its handler.
fn match_jump<M: MemoryBus>(
    op_class: OpClass,
    mode: OpAddressMode,
    params: &OpParam,
    reg: &Registers,
    memory: &mut M,
    result: InstructionResult,
) -> (r: InstructionResult)
    requires
        M::valid_model(old(memory)@),
        result.has_room(),
        op_class is Jmp || op_class is Jsr || op_class is Rts || op_class is Rti,
    ensures
        (r@, final(memory)@) == instruction_model::<M>(
            op_class,
            mode,
            *params,
            reg@,
            old(memory)@,
            result@,
        ),
        M::valid_model(final(memory)@),
        M::layout_model(final(memory)@) == M::layout_model(old(memory)@),
{
    match op_class {
        OpClass::Jmp => execute_jmp(mode, params, reg, memory, result),
        OpClass::Jsr => execute_jsr(mode, params, reg, memory, result),
        OpClass::Rts => execute_rts(mode, params, reg, memory, result),
        OpClass::Rti => execute_rti(mode, params, reg, memory, result),
        _ => result,
    }
}

/// Hands one of the bitwise instructions to its handler.
fn match_bitwise<M: MemoryBus>(
    op_class: OpClass,
    mode: OpAddressMode,
    params: &OpParam,
    reg: &Registers,
    memory: &mut M,
    result: InstructionResult,
) -> (r: InstructionResult)
    requires
        M::valid_model(old(memory)@),
        result.has_room(),
        op_class is And || op_class is Asl || op_class is Lsr || op_class is Eor ||
            op_class is Ora || op_class is Rol || op_class is Ror,
    ensures
        (r@, final(memory)@) == instruction_model::<M>(
            op_class,
            mode,
            *params,
            reg@,
            old(memory)@,
            result@,
        ),
        M::valid_model(final(memory)@),
        M::layout_model(final(memory)@) == M::layout_model(old(memory)@),
{
    match op_class {
        OpClass::And => execute_and(mode, params, reg, memory, result),
        OpClass::Asl => execute_asl(mode, params, reg, memory, result),
        OpClass::Lsr => execute_lsr(mode, params, reg, memory, result),
        OpClass::Eor => execute_eor(mode, params, reg, memory, result),
        OpClass::Ora => execute_ora(mode, params, reg, memory, result),
        OpClass::Rol => execute_rol(mode, params, reg, memory, result),
        OpClass::Ror => execute_ror(mode, params, reg, memory, result),
        _ => result,
    }
}

/// Hands one of the arithmetic instructions to its handler.
fn match_arithmetic<M: MemoryBus>(
    op_class: OpClass,
    mode: OpAddressMode,
    params: &OpParam,
    reg: &Registers,
    memory: &mut M,
    result: InstructionResult,
) -> (r: InstructionResult)
    requires
        M::valid_model(old(memory)@),
        result.has_room(),
        op_class is Adc || op_class is Sbc || op_class is Dec || op_class is Dex ||
            op_class is Dey || op_class is Inc || op_class is Inx || op_class is Iny,
    ensures
        (r@, final(memory)@) == instruction_model::<M>(
            op_class,
            mode,
            *params,
            reg@,
            old(memory)@,
            result@,
        ),
        M::valid_model(final(memory)@),
        M::layout_model(final(memory)@) == M::layout_model(old(memory)@),
{
    match op_class {
        OpClass::Adc => execute_adc(mode, params, reg, memory, result),
        OpClass::Sbc => execute_sbc(mode, params, reg, memory, result),
        OpClass::Dec => execute_dec(mode, params, reg, memory, result),
        OpClass::Dex => execute_dex(mode, params, reg, memory, result),
        OpClass::Dey => execute_dey(mode, params, reg, memory, result),
        OpClass::Inc => execute_inc(mode, params, reg, memory, result),
        OpClass::Inx => execute_inx(mode, params, reg, memory, result),
        OpClass::Iny => execute_iny(mode, params, reg, memory, result),
        _ => result,
    }
}

/// Hands an instruction to the handler of its class.
pub fn match_impl<M: MemoryBus>(
    op_class: OpClass,
    mode: OpAddressMode,
    params: &OpParam,
    reg: &Registers,
    memory: &mut M,
    result: InstructionResult,
) -> (r: InstructionResult)
    requires
        M::valid_model(old(memory)@),
        result.has_room(),
    ensures
        (r@, final(memory)@) == instruction_model::<M>(
            op_class,
            mode,
            *params,
            reg@,
            old(memory)@,
            result@,
        ),
        M::valid_model(final(memory)@),
        M::layout_model(final(memory)@) == M::layout_model(old(memory)@),
{
    match op_class {
        OpClass::Nop | OpClass::Top => match_no_operation(
            op_class,
            mode,
            params,
            reg,
            memory,
            result,
        ),
        OpClass::Brk => execute_brk(mode, params, reg, memory, result),
        OpClass::Clc | OpClass::Cld | OpClass::Cli | OpClass::Clv | OpClass::Sec |
        OpClass::Sed | OpClass::Sei => match_flag(
            op_class,
            mode,
            params,
            reg,
            memory,
            result,
        ),
        OpClass::Lda | OpClass::Ldx | OpClass::Ldy | OpClass::Sta | OpClass::Stx |
        OpClass::Sty => match_load_store(
            op_class,
            mode,
            params,
            reg,
            memory,
            result,
        ),
        OpClass::Pha | OpClass::Php | OpClass::Pla | OpClass::Plp => match_stack(
            op_class,
            mode,
            params,
            reg,
            memory,
            result,
        ),
        OpClass::Tax | OpClass::Tay | OpClass::Tsx | OpClass::Txa | OpClass::Txs |
        OpClass::Tya => match_transfer(
            op_class,
            mode,
            params,
            reg,
            memory,
            result,
        ),
        OpClass::Bit | OpClass::Cmp | OpClass::Cpx | OpClass::Cpy => match_compare(
            op_class,
            mode,
            params,
            reg,
            memory,
            result,
        ),
        OpClass::Bcc | OpClass::Bcs | OpClass::Beq | OpClass::Bmi | OpClass::Bne |
        OpClass::Bpl | OpClass::Bvc | OpClass::Bvs => match_branch(
            op_class,
            mode,
            params,
            reg,
            memory,
            result,
        ),
        OpClass::Jmp | OpClass::Jsr | OpClass::Rts | OpClass::Rti => match_jump(
            op_class,
            mode,
            params,
            reg,
            memory,
            result,
        ),
        OpClass::And | OpClass::Asl | OpClass::Lsr | OpClass::Eor | OpClass::Ora |
        OpClass::Rol | OpClass::Ror => match_bitwise(
            op_class,
            mode,
            params,
            reg,
            memory,
            result,
        ),
        OpClass::Adc | OpClass::Sbc | OpClass::Dec | OpClass::Dex | OpClass::Dey |
        OpClass::Inc | OpClass::Inx | OpClass::Iny => match_arithmetic(
            op_class,
            mode,
            params,
            reg,
            memory,
            result,
        ),
    }
}

/// Where reads change nothing, the instructions that do nothing leave the memory as it was.
proof fn lemma_no_operation_leaves_memory<M: MemoryBus>(
    class: OpClass,
    mode: OpAddressMode,
    param: OpParam,
    reg: RegistersView,
    state: M::V,
    result: InstructionResultView,
)
    requires
        reads_change_nothing::<M>(state),
        class is Nop || class is Top,
    ensures
        instruction_model::<M>(class, mode, param, reg, state, result).1 == state,
{
    lemma_operand_leaves_memory::<M>(mode, param, reg, state);
}

/// Where reads change nothing, the instructions that clear or set a flag leave the memory as it was.
proof fn lemma_flag_leaves_memory<M: MemoryBus>(
    class: OpClass,
    mode: OpAddressMode,
    param: OpParam,
    reg: RegistersView,
    state: M::V,
    result: InstructionResultView,
)
    requires
        reads_change_nothing::<M>(state),
        class is Clc || class is Cld || class is Cli || class is Clv || class is Sec ||
            class is Sed || class is Sei,
    ensures
        instruction_model::<M>(class, mode, param, reg, state, result).1 == state,
{
    lemma_operand_leaves_memory::<M>(mode, param, reg, state);
}

/// Where reads change nothing, the loads and stores leave the memory as it was.
proof fn lemma_load_store_leaves_memory<M: MemoryBus>(
    class: OpClass,
    mode: OpAddressMode,
    param: OpParam,
    reg: RegistersView,
    state: M::V,
    result: InstructionResultView,
)
    requires
        reads_change_nothing::<M>(state),
        class is Lda || class is Ldx || class is Ldy || class is Sta || class is Stx ||
            class is Sty,
    ensures
        instruction_model::<M>(class, mode, param, reg, state, result).1 == state,
{
    lemma_operand_leaves_memory::<M>(mode, param, reg, state);
}

/// Where reads change nothing, the stack instructions leave the memory as it was.
proof fn lemma_stack_leaves_memory<M: MemoryBus>(
    class: OpClass,
    mode: OpAddressMode,
    param: OpParam,
    reg: RegistersView,
    state: M::V,
    result: InstructionResultView,
)
    requires
        reads_change_nothing::<M>(state),
        class is Pha || class is Php || class is Pla || class is Plp,
    ensures
        instruction_model::<M>(class, mode, param, reg, state, result).1 == state,
{
    lemma_operand_leaves_memory::<M>(mode, param, reg, state);
}

/// Where reads change nothing, the transfers between registers leave the memory as it was.
proof fn lemma_transfer_leaves_memory<M: MemoryBus>(
    class: OpClass,
    mode: OpAddressMode,
    param: OpParam,
    reg: RegistersView,
    state: M::V,
    result: InstructionResultView,
)
    requires
        reads_change_nothing::<M>(state),
        class is Tax || class is Tay || class is Tsx || class is Txa || class is Txs ||
            class is Tya,
    ensures
        instruction_model::<M>(class, mode, param, reg, state, result).1 == state,
{
    lemma_operand_leaves_memory::<M>(mode, param, reg, state);
}

/// Where reads change nothing, the comparisons leave the memory as it was.
proof fn lemma_compare_leaves_memory<M: MemoryBus>(
    class: OpClass,
    mode: OpAddressMode,
    param: OpParam,
    reg: RegistersView,
    state: M::V,
    result: InstructionResultView,
)
    requires
        reads_change_nothing::<M>(state),
        class is Bit || class is Cmp || class is Cpx || class is Cpy,
    ensures
        instruction_model::<M>(class, mode, param, reg, state, result).1 == state,
{
    lemma_operand_leaves_memory::<M>(mode, param, reg, state);
}

/// Where reads change nothing, the conditional branches leave the memory as it was.
proof fn lemma_branch_leaves_memory<M: MemoryBus>(
    class: OpClass,
    mode: OpAddressMode,
    param: OpParam,
    reg: RegistersView,
    state: M::V,
    result: InstructionResultView,
)
    requires
        reads_change_nothing::<M>(state),
        class is Bcc || class is Bcs || class is Beq || class is Bmi || class is Bne ||
            class is Bpl || class is Bvc || class is Bvs,
    ensures
        instruction_model::<M>(class, mode, param, reg, state, result).1 == state,
{
    lemma_operand_leaves_memory::<M>(mode, param, reg, state);
}

/// Where reads change nothing, the jumps and returns leave the memory as it was.
proof fn lemma_jump_leaves_memory<M: MemoryBus>(
    class: OpClass,
    mode: OpAddressMode,
    param: OpParam,
    reg: RegistersView,
    state: M::V,
    result: InstructionResultView,
)
    requires
        reads_change_nothing::<M>(state),
        class is Jmp || class is Jsr || class is Rts || class is Rti,
    ensures
        instruction_model::<M>(class, mode, param, reg, state, result).1 == state,
{
    lemma_operand_leaves_memory::<M>(mode, param, reg, state);
}

/// Where reads change nothing, the bitwise instructions leave the memory as it was.
proof fn lemma_bitwise_leaves_memory<M: MemoryBus>(
    class: OpClass,
    mode: OpAddressMode,
    param: OpParam,
    reg: RegistersView,
    state: M::V,
    result: InstructionResultView,
)
    requires
        reads_change_nothing::<M>(state),
        class is And || class is Asl || class is Lsr || class is Eor || class is Ora ||
            class is Rol || class is Ror,
    ensures
        instruction_model::<M>(class, mode, param, reg, state, result).1 == state,
{
    lemma_operand_leaves_memory::<M>(mode, param, reg, state);
}

/// Where reads change nothing, the arithmetic instructions leave the memory as it was.
proof fn lemma_arithmetic_leaves_memory<M: MemoryBus>(
    class: OpClass,
    mode: OpAddressMode,
    param: OpParam,
    reg: RegistersView,
    state: M::V,
    result: InstructionResultView,
)
    requires
        reads_change_nothing::<M>(state),
        class is Adc || class is Sbc || class is Dec || class is Dex || class is Dey ||
            class is Inc || class is Inx || class is Iny,
    ensures
        instruction_model::<M>(class, mode, param, reg, state, result).1 == state,
{
    lemma_operand_leaves_memory::<M>(mode, param, reg, state);
}

/// A handler never writes to memory: where reads change nothing, as in a
/// memory of RAM and ROM, an instruction of any class leaves the memory as it
/// was. What the instruction writes is in its result.
pub proof fn lemma_instruction_leaves_memory<M: MemoryBus>(
    class: OpClass,
    mode: OpAddressMode,
    param: OpParam,
    reg: RegistersView,
    state: M::V,
    result: InstructionResultView,
)
    requires
        reads_change_nothing::<M>(state),
    ensures
        instruction_model::<M>(class, mode, param, reg, state, result).1 == state,
{
    match class {
        OpClass::Nop | OpClass::Top => {
            lemma_no_operation_leaves_memory::<M>(class, mode, param, reg, state, result);
        },
        OpClass::Clc | OpClass::Cld | OpClass::Cli | OpClass::Clv | OpClass::Sec |
        OpClass::Sed | OpClass::Sei => {
            lemma_flag_leaves_memory::<M>(class, mode, param, reg, state, result);
        },
        OpClass::Lda | OpClass::Ldx | OpClass::Ldy | OpClass::Sta | OpClass::Stx |
        OpClass::Sty => {
            lemma_load_store_leaves_memory::<M>(class, mode, param, reg, state, result);
        },
        OpClass::Pha | OpClass::Php | OpClass::Pla | OpClass::Plp => {
            lemma_stack_leaves_memory::<M>(class, mode, param, reg, state, result);
        },
        OpClass::Tax | OpClass::Tay | OpClass::Tsx | OpClass::Txa | OpClass::Txs |
        OpClass::Tya => {
            lemma_transfer_leaves_memory::<M>(class, mode, param, reg, state, result);
        },
        OpClass::Bit | OpClass::Cmp | OpClass::Cpx | OpClass::Cpy => {
            lemma_compare_leaves_memory::<M>(class, mode, param, reg, state, result);
        },
        OpClass::Bcc | OpClass::Bcs | OpClass::Beq | OpClass::Bmi | OpClass::Bne |
        OpClass::Bpl | OpClass::Bvc | OpClass::Bvs => {
            lemma_branch_leaves_memory::<M>(class, mode, param, reg, state, result);
        },
        OpClass::Jmp | OpClass::Jsr | OpClass::Rts | OpClass::Rti => {
            lemma_jump_leaves_memory::<M>(class, mode, param, reg, state, result);
        },
        OpClass::And | OpClass::Asl | OpClass::Lsr | OpClass::Eor | OpClass::Ora |
        OpClass::Rol | OpClass::Ror => {
            lemma_bitwise_leaves_memory::<M>(class, mode, param, reg, state, result);
        },
        OpClass::Adc | OpClass::Sbc | OpClass::Dec | OpClass::Dex | OpClass::Dey |
        OpClass::Inc | OpClass::Inx | OpClass::Iny => {
            lemma_arithmetic_leaves_memory::<M>(class, mode, param, reg, state, result);
        },
        OpClass::Brk => {
            lemma_operand_leaves_memory::<M>(mode, param, reg, state);
        },
    }
}

/// What executing a decoded instruction of `len` bytes leaves: the program
/// counter goes behind the instruction, the cycles start at the base cycles
/// of the opcode, the writes at none, and the handler of the class does the
/// rest.
pub open spec fn execute_op_model<M: MemoryBus>(
    class: OpClass,
    mode: OpAddressMode,
    len: u8,
    base_cycles: u8,
    param: OpParam,
    reg: RegistersView,
    state: M::V,
) -> (InstructionResultView, M::V) {
    let advanced = RegistersView { pc: reg.pc.wrapping_add(len as u16), ..reg };
    let start = InstructionResultView {
        reg: advanced,
        writes: Seq::empty(),
        cycles: base_cycles as nat,
    };
    instruction_model::<M>(class, mode, param, advanced, state, start)
}

/// What executing the instruction at the program counter leaves: the
/// instruction is decoded and executed. Where the byte at the program counter
/// is no opcode, nothing but that byte is read, and the outcome is the error.
pub open spec fn execute_model<M: MemoryBus>(reg: RegistersView, state: M::V) -> (
    Result<InstructionResultView, DecodeError>,
    M::V,
) {
    let (first, s1) = M::read_model(state, reg.pc);
    match opcode_table(first) {
        Some((class, mode, base_cycles)) => {
            let (param, s2) = operand_model::<M>(s1, reg.pc, mode);
            let (result, s3) = execute_op_model::<M>(
                class,
                mode,
                (1 + mode.spec_operand_len()) as u8,
                base_cycles,
                param,
                reg,
                s2,
            );
            (Ok(result), s3)
        },
        None => (Err(DecodeError { pc: reg.pc, opcode: first }), s1),
    }
}

/// Decodes instructions and executes them.
pub struct Executor {}

impl Executor {
    pub fn new() -> Executor {
        Executor {  }
    }

    /// Executes an instruction that was decoded already, whatever table it
    /// was decoded with. The memory is read, never written: the writes of the
    /// instruction are in the result. What `result` held before is of no
    /// account.
    pub fn execute_op<M: MemoryBus>(
        &mut self,
        op: &Op,
        reg: &Registers,
        memory: &mut M,
        result: InstructionResult,
    ) -> (r: InstructionResult)
        requires
            M::valid_model(old(memory)@),
        ensures
            (r@, final(memory)@) == execute_op_model::<M>(
                op.code.class,
                op.code.address_mode,
                op.code.len,
                op.code.base_cycles,
                op.param,
                reg@,
                old(memory)@,
            ),
            M::valid_model(final(memory)@),
            M::layout_model(final(memory)@) == M::layout_model(old(memory)@),
    {
        let mut result = result;
        result.writes.clear();
        result.reg = *reg;
        result.reg.pc = result.reg.pc.wrapping_add(op.code.len as u16);
        result.cycles = op.code.base_cycles as usize;

        let reg = result.reg;
        match_impl(op.code.class, op.code.address_mode, &op.param, &reg, memory, result)
    }

    /// Executes the instruction at the program counter of `reg`. The memory
    /// is read, never written: the writes of the instruction are in the
    /// result. What `result` held before is of no account.
    pub fn execute_instruction<M: MemoryBus>(
        &mut self,
        reg: &Registers,
        memory: &mut M,
        result: InstructionResult,
    ) -> (r: Result<InstructionResult, DecodeError>)
        requires
            M::valid_model(old(memory)@),
        ensures
            match r {
                Ok(done) => execute_model::<M>(reg@, old(memory)@) == (
                    Ok::<InstructionResultView, DecodeError>(done@),
                    final(memory)@,
                ),
                Err(error) => execute_model::<M>(reg@, old(memory)@) == (
                    Err::<InstructionResultView, DecodeError>(error),
                    final(memory)@,
                ),
            },
            M::valid_model(final(memory)@),
            M::layout_model(final(memory)@) == M::layout_model(old(memory)@),
    {
        let op = match decode_op(memory, reg.pc) {
            Ok(op) => op,
            Err(error) => {
                return Err(error);
            },
        };
        Ok(self.execute_op(&op, reg, memory, result))
    }
}

} // verus!
