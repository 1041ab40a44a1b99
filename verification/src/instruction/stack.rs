//! The stack instructions: PHA, PHP, PLA, PLP.

use vstd::prelude::*;
use crate::instruction::common::{pop, push, stack_address};
use crate::instruction::executor::{InstructionResult, InstructionResultView};
use crate::memory::MemoryBus;
use crate::opcode::{OpAddressMode, OpParam};
use crate::register_status::StatusFlags;
use crate::registers::{Registers, RegistersView};

verus! {

/// PHA: pushes the accumulator.
pub open spec fn pha_model<M: MemoryBus>(
    mode: OpAddressMode,
    param: OpParam,
    reg: RegistersView,
    state: M::V,
    result: InstructionResultView,
) -> (InstructionResultView, M::V) {
    (result.pushed(reg.a), state)
}

/// PHA: pushes the accumulator.
pub fn execute_pha<M: MemoryBus>(
    mode: OpAddressMode,
    params: &OpParam,
    reg: &Registers,
    memory: &mut M,
    result: InstructionResult,
) -> (r: InstructionResult)
    requires
        M::valid_model(old(memory)@),
        result.has_room(),
    ensures
        (r@, final(memory)@) == pha_model::<M>(mode, *params, reg@, old(memory)@, result@),
        M::valid_model(final(memory)@),
        M::layout_model(final(memory)@) == M::layout_model(old(memory)@),
{
    push(result, reg.a)
}

/// PHP: pushes the status word. In the pushed byte bit 4 is set, whatever the
/// BRK flag is.
pub open spec fn php_model<M: MemoryBus>(
    mode: OpAddressMode,
    param: OpParam,
    reg: RegistersView,
    state: M::V,
    result: InstructionResultView,
) -> (InstructionResultView, M::V) {
    (result.pushed((StatusFlags { brk: true, ..reg.status }).byte()), state)
}

/// PHP: pushes the status word.
pub fn execute_php<M: MemoryBus>(
    mode: OpAddressMode,
    params: &OpParam,
    reg: &Registers,
    memory: &mut M,
    result: InstructionResult,
) -> (r: InstructionResult)
    requires
        M::valid_model(old(memory)@),
        result.has_room(),
    ensures
        (r@, final(memory)@) == php_model::<M>(mode, *params, reg@, old(memory)@, result@),
        M::valid_model(final(memory)@),
        M::layout_model(final(memory)@) == M::layout_model(old(memory)@),
{
    // The PHP instruction sets bit 4 when pushing the status register to the stack
    push(result, reg.status.value_with_brk())
}

/// PLA: pulls the accumulator; N and Z follow it.
pub open spec fn pla_model<M: MemoryBus>(
    mode: OpAddressMode,
    param: OpParam,
    reg: RegistersView,
    state: M::V,
    result: InstructionResultView,
) -> (InstructionResultView, M::V) {
    let pulled = result.pulled();
    let (val, after) = M::read_model(state, stack_address(pulled.reg.sp));
    (pulled.with_reg(pulled.reg.with_a(val)), after)
}

/// PLA: pulls the accumulator.
pub fn execute_pla<M: MemoryBus>(
    mode: OpAddressMode,
    params: &OpParam,
    reg: &Registers,
    memory: &mut M,
    result: InstructionResult,
) -> (r: InstructionResult)
    requires
        M::valid_model(old(memory)@),
        result.has_room(),
    ensures
        (r@, final(memory)@) == pla_model::<M>(mode, *params, reg@, old(memory)@, result@),
        M::valid_model(final(memory)@),
        M::layout_model(final(memory)@) == M::layout_model(old(memory)@),
{
    let mut result = result;
    let val: u8 = pop(&mut result, memory);
    result.reg.set_reg_a(val);
    result
}

/// PLP: pulls the status word. The BRK flag stays as it was, and bit 5 stays
/// set, whatever the pulled byte holds.
pub open spec fn plp_model<M: MemoryBus>(
    mode: OpAddressMode,
    param: OpParam,
    reg: RegistersView,
    state: M::V,
    result: InstructionResultView,
) -> (InstructionResultView, M::V) {
    let pulled = result.pulled();
    let (val, after) = M::read_model(state, stack_address(pulled.reg.sp));
    (
        pulled.with_reg(
            RegistersView {
                status: StatusFlags { brk: pulled.reg.status.brk, ..StatusFlags::from_byte(val) },
                ..pulled.reg
            },
        ),
        after,
    )
}

/// PLP: pulls the status word.
pub fn execute_plp<M: MemoryBus>(
    mode: OpAddressMode,
    params: &OpParam,
    reg: &Registers,
    memory: &mut M,
    result: InstructionResult,
) -> (r: InstructionResult)
    requires
        M::valid_model(old(memory)@),
        result.has_room(),
    ensures
        (r@, final(memory)@) == plp_model::<M>(mode, *params, reg@, old(memory)@, result@),
        M::valid_model(final(memory)@),
        M::layout_model(final(memory)@) == M::layout_model(old(memory)@),
{
    let mut result = result;
    let val: u8 = pop(&mut result, memory);
    result.reg.status.set_value(val);
    result
}

} // verus!
