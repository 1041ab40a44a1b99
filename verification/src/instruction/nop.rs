//! The instructions that do nothing.

use vstd::prelude::*;
use crate::instruction::executor::{InstructionResult, InstructionResultView};
use crate::memory::MemoryBus;
use crate::opcode::{OpAddressMode, OpParam, address_model};
use crate::registers::{Registers, RegistersView};

verus! {

/// NOP: nothing happens, whatever the operand is.
pub open spec fn nop_model<M: MemoryBus>(
    mode: OpAddressMode,
    param: OpParam,
    reg: RegistersView,
    state: M::V,
    result: InstructionResultView,
) -> (InstructionResultView, M::V) {
    (result, state)
}

/// NOP: does nothing.
pub fn execute_nop<M: MemoryBus>(
    mode: OpAddressMode,
    params: &OpParam,
    reg: &Registers,
    memory: &mut M,
    result: InstructionResult,
) -> (r: InstructionResult)
    requires
        M::valid_model(old(memory)@),
        result.has_room(),
    ensures
        (r@, final(memory)@) == nop_model::<M>(mode, *params, reg@, old(memory)@, result@),
        M::valid_model(final(memory)@),
        M::layout_model(final(memory)@) == M::layout_model(old(memory)@),
{
    result
}

/// The no-operation with an absolute operand: nothing happens but that a
/// page crossing in the address computation costs a cycle.
pub open spec fn top_model<M: MemoryBus>(
    mode: OpAddressMode,
    param: OpParam,
    reg: RegistersView,
    state: M::V,
    result: InstructionResultView,
) -> (InstructionResultView, M::V) {
    let ((crossed, _), after) = address_model::<M>(mode, param, reg, state);
    (result.with_penalty(crossed), after)
}

/// The no-operation with an absolute operand.
pub fn execute_top<M: MemoryBus>(
    mode: OpAddressMode,
    params: &OpParam,
    reg: &Registers,
    memory: &mut M,
    result: InstructionResult,
) -> (r: InstructionResult)
    requires
        M::valid_model(old(memory)@),
        result.has_room(),
    ensures
        (r@, final(memory)@) == top_model::<M>(mode, *params, reg@, old(memory)@, result@),
        M::valid_model(final(memory)@),
        M::layout_model(final(memory)@) == M::layout_model(old(memory)@),
{
    let mut result = result;
    let page_boundary = mode.address(params, reg, memory).0;
    result.add_penalty(page_boundary);
    result
}

} // verus!
