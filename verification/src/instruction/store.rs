//! The stores: STA, STX, STY.

use vstd::prelude::*;
use crate::instruction::executor::{InstructionResult, InstructionResultView, Write};
use crate::memory::MemoryBus;
use crate::opcode::{OpAddressMode, OpParam, address_model};
use crate::registers::{Registers, RegistersView};

verus! {

/// STA: stores the accumulator at the effective address, by a write that the result records.
pub open spec fn sta_model<M: MemoryBus>(
    mode: OpAddressMode,
    param: OpParam,
    reg: RegistersView,
    state: M::V,
    result: InstructionResultView,
) -> (InstructionResultView, M::V) {
    let ((_, addr), after) = address_model::<M>(mode, param, reg, state);
    (result.with_write(addr, reg.a), after)
}

/// STA: stores the accumulator.
pub fn execute_sta<M: MemoryBus>(
    mode: OpAddressMode,
    params: &OpParam,
    reg: &Registers,
    memory: &mut M,
    result: InstructionResult,
) -> (r: InstructionResult)
    requires
        M::valid_model(old(memory)@),
        result.has_room(),
    ensures
        (r@, final(memory)@) == sta_model::<M>(mode, *params, reg@, old(memory)@, result@),
        M::valid_model(final(memory)@),
        M::layout_model(final(memory)@) == M::layout_model(old(memory)@),
{
    let mut result = result;
    let addr: u16 = mode.address(params, reg, memory).1;
    result.writes.push(Write::new(addr, reg.a));
    result
}

/// STX: stores the X register at the effective address, by a write that the result records.
pub open spec fn stx_model<M: MemoryBus>(
    mode: OpAddressMode,
    param: OpParam,
    reg: RegistersView,
    state: M::V,
    result: InstructionResultView,
) -> (InstructionResultView, M::V) {
    let ((_, addr), after) = address_model::<M>(mode, param, reg, state);
    (result.with_write(addr, reg.x), after)
}

/// STX: stores the X register.
pub fn execute_stx<M: MemoryBus>(
    mode: OpAddressMode,
    params: &OpParam,
    reg: &Registers,
    memory: &mut M,
    result: InstructionResult,
) -> (r: InstructionResult)
    requires
        M::valid_model(old(memory)@),
        result.has_room(),
    ensures
        (r@, final(memory)@) == stx_model::<M>(mode, *params, reg@, old(memory)@, result@),
        M::valid_model(final(memory)@),
        M::layout_model(final(memory)@) == M::layout_model(old(memory)@),
{
    let mut result = result;
    let addr: u16 = mode.address(params, reg, memory).1;
    result.writes.push(Write::new(addr, reg.x));
    result
}

/// STY: stores the Y register at the effective address, by a write that the result records.
pub open spec fn sty_model<M: MemoryBus>(
    mode: OpAddressMode,
    param: OpParam,
    reg: RegistersView,
    state: M::V,
    result: InstructionResultView,
) -> (InstructionResultView, M::V) {
    let ((_, addr), after) = address_model::<M>(mode, param, reg, state);
    (result.with_write(addr, reg.y), after)
}

/// STY: stores the Y register.
pub fn execute_sty<M: MemoryBus>(
    mode: OpAddressMode,
    params: &OpParam,
    reg: &Registers,
    memory: &mut M,
    result: InstructionResult,
) -> (r: InstructionResult)
    requires
        M::valid_model(old(memory)@),
        result.has_room(),
    ensures
        (r@, final(memory)@) == sty_model::<M>(mode, *params, reg@, old(memory)@, result@),
        M::valid_model(final(memory)@),
        M::layout_model(final(memory)@) == M::layout_model(old(memory)@),
{
    let mut result = result;
    let addr: u16 = mode.address(params, reg, memory).1;
    result.writes.push(Write::new(addr, reg.y));
    result
}

} // verus!
