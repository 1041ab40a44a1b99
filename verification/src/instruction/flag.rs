//! The instructions that clear or set one flag: CLC, CLD, CLI, CLV, SEC, SED, SEI.

use vstd::prelude::*;
use crate::instruction::executor::{InstructionResult, InstructionResultView};
use crate::memory::MemoryBus;
use crate::opcode::{OpAddressMode, OpParam};
use crate::register_status::StatusFlags;
use crate::registers::{Registers, RegistersView};

verus! {

/// CLC: clears the carry flag.
pub open spec fn clc_model<M: MemoryBus>(
    mode: OpAddressMode,
    param: OpParam,
    reg: RegistersView,
    state: M::V,
    result: InstructionResultView,
) -> (InstructionResultView, M::V) {
    (
        result.with_reg(
            RegistersView {
                status: StatusFlags { carry: false, ..result.reg.status },
                ..result.reg
            },
        ),
        state,
    )
}

/// CLC: clears the carry flag.
pub fn execute_clc<M: MemoryBus>(
    mode: OpAddressMode,
    params: &OpParam,
    reg: &Registers,
    memory: &mut M,
    result: InstructionResult,
) -> (r: InstructionResult)
    requires
        M::valid_model(old(memory)@),
        result.has_room(),
    ensures
        (r@, final(memory)@) == clc_model::<M>(mode, *params, reg@, old(memory)@, result@),
        M::valid_model(final(memory)@),
        M::layout_model(final(memory)@) == M::layout_model(old(memory)@),
{
    let mut result = result;
    result.reg.status.set_carry(false);
    result
}

/// CLD: clears the decimal flag.
pub open spec fn cld_model<M: MemoryBus>(
    mode: OpAddressMode,
    param: OpParam,
    reg: RegistersView,
    state: M::V,
    result: InstructionResultView,
) -> (InstructionResultView, M::V) {
    (
        result.with_reg(
            RegistersView {
                status: StatusFlags { decimal: false, ..result.reg.status },
                ..result.reg
            },
        ),
        state,
    )
}

/// CLD: clears the decimal flag.
pub fn execute_cld<M: MemoryBus>(
    mode: OpAddressMode,
    params: &OpParam,
    reg: &Registers,
    memory: &mut M,
    result: InstructionResult,
) -> (r: InstructionResult)
    requires
        M::valid_model(old(memory)@),
        result.has_room(),
    ensures
        (r@, final(memory)@) == cld_model::<M>(mode, *params, reg@, old(memory)@, result@),
        M::valid_model(final(memory)@),
        M::layout_model(final(memory)@) == M::layout_model(old(memory)@),
{
    let mut result = result;
    result.reg.status.set_decimal(false);
    result
}

/// CLI: clears the interrupt-inhibit flag.
pub open spec fn cli_model<M: MemoryBus>(
    mode: OpAddressMode,
    param: OpParam,
    reg: RegistersView,
    state: M::V,
    result: InstructionResultView,
) -> (InstructionResultView, M::V) {
    (
        result.with_reg(
            RegistersView {
                status: StatusFlags { interrupt_inhibit: false, ..result.reg.status },
                ..result.reg
            },
        ),
        state,
    )
}

/// CLI: clears the interrupt-inhibit flag.
pub fn execute_cli<M: MemoryBus>(
    mode: OpAddressMode,
    params: &OpParam,
    reg: &Registers,
    memory: &mut M,
    result: InstructionResult,
) -> (r: InstructionResult)
    requires
        M::valid_model(old(memory)@),
        result.has_room(),
    ensures
        (r@, final(memory)@) == cli_model::<M>(mode, *params, reg@, old(memory)@, result@),
        M::valid_model(final(memory)@),
        M::layout_model(final(memory)@) == M::layout_model(old(memory)@),
{
    let mut result = result;
    result.reg.status.set_interrupt_inhibit(false);
    result
}

/// CLV: clears the overflow flag.
pub open spec fn clv_model<M: MemoryBus>(
    mode: OpAddressMode,
    param: OpParam,
    reg: RegistersView,
    state: M::V,
    result: InstructionResultView,
) -> (InstructionResultView, M::V) {
    (
        result.with_reg(
            RegistersView {
                status: StatusFlags { overflow: false, ..result.reg.status },
                ..result.reg
            },
        ),
        state,
    )
}

/// CLV: clears the overflow flag.
pub fn execute_clv<M: MemoryBus>(
    mode: OpAddressMode,
    params: &OpParam,
    reg: &Registers,
    memory: &mut M,
    result: InstructionResult,
) -> (r: InstructionResult)
    requires
        M::valid_model(old(memory)@),
        result.has_room(),
    ensures
        (r@, final(memory)@) == clv_model::<M>(mode, *params, reg@, old(memory)@, result@),
        M::valid_model(final(memory)@),
        M::layout_model(final(memory)@) == M::layout_model(old(memory)@),
{
    let mut result = result;
    result.reg.status.set_overflow(false);
    result
}

/// SEC: sets the carry flag.
pub open spec fn sec_model<M: MemoryBus>(
    mode: OpAddressMode,
    param: OpParam,
    reg: RegistersView,
    state: M::V,
    result: InstructionResultView,
) -> (InstructionResultView, M::V) {
    (
        result.with_reg(
            RegistersView {
                status: StatusFlags { carry: true, ..result.reg.status },
                ..result.reg
            },
        ),
        state,
    )
}

/// SEC: sets the carry flag.
pub fn execute_sec<M: MemoryBus>(
    mode: OpAddressMode,
    params: &OpParam,
    reg: &Registers,
    memory: &mut M,
    result: InstructionResult,
) -> (r: InstructionResult)
    requires
        M::valid_model(old(memory)@),
        result.has_room(),
    ensures
        (r@, final(memory)@) == sec_model::<M>(mode, *params, reg@, old(memory)@, result@),
        M::valid_model(final(memory)@),
        M::layout_model(final(memory)@) == M::layout_model(old(memory)@),
{
    let mut result = result;
    result.reg.status.set_carry(true);
    result
}

/// SED: sets the decimal flag.
pub open spec fn sed_model<M: MemoryBus>(
    mode: OpAddressMode,
    param: OpParam,
    reg: RegistersView,
    state: M::V,
    result: InstructionResultView,
) -> (InstructionResultView, M::V) {
    (
        result.with_reg(
            RegistersView {
                status: StatusFlags { decimal: true, ..result.reg.status },
                ..result.reg
            },
        ),
        state,
    )
}

/// SED: sets the decimal flag.
pub fn execute_sed<M: MemoryBus>(
    mode: OpAddressMode,
    params: &OpParam,
    reg: &Registers,
    memory: &mut M,
    result: InstructionResult,
) -> (r: InstructionResult)
    requires
        M::valid_model(old(memory)@),
        result.has_room(),
    ensures
        (r@, final(memory)@) == sed_model::<M>(mode, *params, reg@, old(memory)@, result@),
        M::valid_model(final(memory)@),
        M::layout_model(final(memory)@) == M::layout_model(old(memory)@),
{
    let mut result = result;
    result.reg.status.set_decimal(true);
    result
}

/// SEI: sets the interrupt-inhibit flag.
pub open spec fn sei_model<M: MemoryBus>(
    mode: OpAddressMode,
    param: OpParam,
    reg: RegistersView,
    state: M::V,
    result: InstructionResultView,
) -> (InstructionResultView, M::V) {
    (
        result.with_reg(
            RegistersView {
                status: StatusFlags { interrupt_inhibit: true, ..result.reg.status },
                ..result.reg
            },
        ),
        state,
    )
}

/// SEI: sets the interrupt-inhibit flag.
pub fn execute_sei<M: MemoryBus>(
    mode: OpAddressMode,
    params: &OpParam,
    reg: &Registers,
    memory: &mut M,
    result: InstructionResult,
) -> (r: InstructionResult)
    requires
        M::valid_model(old(memory)@),
        result.has_room(),
    ensures
        (r@, final(memory)@) == sei_model::<M>(mode, *params, reg@, old(memory)@, result@),
        M::valid_model(final(memory)@),
        M::layout_model(final(memory)@) == M::layout_model(old(memory)@),
{
    let mut result = result;
    result.reg.status.set_interrupt_inhibit(true);
    result
}

} // verus!
