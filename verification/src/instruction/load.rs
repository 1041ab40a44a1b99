//! The loads: LDA, LDX, LDY.

use vstd::prelude::*;
use crate::instruction::executor::{InstructionResult, InstructionResultView};
use crate::memory::MemoryBus;
use crate::opcode::{OpAddressMode, OpParam, fetch_model};
use crate::registers::{Registers, RegistersView};

verus! {

/// LDA: loads the accumulator. N and Z follow the value; a page crossing costs a cycle.
pub open spec fn lda_model<M: MemoryBus>(
    mode: OpAddressMode,
    param: OpParam,
    reg: RegistersView,
    state: M::V,
    result: InstructionResultView,
) -> (InstructionResultView, M::V) {
    let ((crossed, val), after) = fetch_model::<M>(mode, param, reg, state);
    (result.with_reg(result.reg.with_a(val)).with_penalty(crossed), after)
}

/// LDA: loads the accumulator with the operand.
pub fn execute_lda<M: MemoryBus>(
    mode: OpAddressMode,
    params: &OpParam,
    reg: &Registers,
    memory: &mut M,
    result: InstructionResult,
) -> (r: InstructionResult)
    requires
        M::valid_model(old(memory)@),
        result.has_room(),
    ensures
        (r@, final(memory)@) == lda_model::<M>(mode, *params, reg@, old(memory)@, result@),
        M::valid_model(final(memory)@),
        M::layout_model(final(memory)@) == M::layout_model(old(memory)@),
{
    let mut result = result;
    let (page_boundary, val) = mode.address_and_read_byte(params, reg, memory);
    result.reg.set_reg_a(val);
    result.add_penalty(page_boundary);
    result
}

/// LDX: loads the X register. N and Z follow the value; a page crossing costs a cycle.
pub open spec fn ldx_model<M: MemoryBus>(
    mode: OpAddressMode,
    param: OpParam,
    reg: RegistersView,
    state: M::V,
    result: InstructionResultView,
) -> (InstructionResultView, M::V) {
    let ((crossed, val), after) = fetch_model::<M>(mode, param, reg, state);
    (result.with_reg(result.reg.with_x(val)).with_penalty(crossed), after)
}

/// LDX: loads the X register with the operand.
pub fn execute_ldx<M: MemoryBus>(
    mode: OpAddressMode,
    params: &OpParam,
    reg: &Registers,
    memory: &mut M,
    result: InstructionResult,
) -> (r: InstructionResult)
    requires
        M::valid_model(old(memory)@),
        result.has_room(),
    ensures
        (r@, final(memory)@) == ldx_model::<M>(mode, *params, reg@, old(memory)@, result@),
        M::valid_model(final(memory)@),
        M::layout_model(final(memory)@) == M::layout_model(old(memory)@),
{
    let mut result = result;
    let (page_boundary, val) = mode.address_and_read_byte(params, reg, memory);
    result.reg.set_reg_x(val);
    result.add_penalty(page_boundary);
    result
}

/// LDY: loads the Y register. N and Z follow the value; a page crossing costs a cycle.
pub open spec fn ldy_model<M: MemoryBus>(
    mode: OpAddressMode,
    param: OpParam,
    reg: RegistersView,
    state: M::V,
    result: InstructionResultView,
) -> (InstructionResultView, M::V) {
    let ((crossed, val), after) = fetch_model::<M>(mode, param, reg, state);
    (result.with_reg(result.reg.with_y(val)).with_penalty(crossed), after)
}

/// LDY: loads the Y register with the operand.
pub fn execute_ldy<M: MemoryBus>(
    mode: OpAddressMode,
    params: &OpParam,
    reg: &Registers,
    memory: &mut M,
    result: InstructionResult,
) -> (r: InstructionResult)
    requires
        M::valid_model(old(memory)@),
        result.has_room(),
    ensures
        (r@, final(memory)@) == ldy_model::<M>(mode, *params, reg@, old(memory)@, result@),
        M::valid_model(final(memory)@),
        M::layout_model(final(memory)@) == M::layout_model(old(memory)@),
{
    let mut result = result;
    let (page_boundary, val) = mode.address_and_read_byte(params, reg, memory);
    result.reg.set_reg_y(val);
    result.add_penalty(page_boundary);
    result
}

} // verus!
