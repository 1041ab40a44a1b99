//! The comparisons: BIT, CMP, CPX, CPY.

use vstd::prelude::*;
use crate::instruction::common::{compare, compared};
use crate::instruction::executor::{InstructionResult, InstructionResultView};
use crate::memory::MemoryBus;
use crate::opcode::{OpAddressMode, OpParam, fetch_model};
use crate::register_status::StatusFlags;
use crate::registers::{Registers, RegistersView};

verus! {

/// Bits 7 and 6 of a byte, in arithmetic.
proof fn lemma_top_bits(val: u8)
    by (bit_vector)
    ensures
        (val & 0x80 > 0) == (val >= 0x80),
        (val & 0x40 > 0) == ((val / 0x40) % 2 == 1),
{
}

/// BIT: tests the byte at the operand's address against the accumulator. N
/// and V take bits 7 and 6 of the byte, Z says that the byte and the
/// accumulator have no bit in common. The accumulator stays.
pub open spec fn bit_model<M: MemoryBus>(
    mode: OpAddressMode,
    param: OpParam,
    reg: RegistersView,
    state: M::V,
    result: InstructionResultView,
) -> (InstructionResultView, M::V) {
    let (mem, after) = M::read_model(state, param.spec_as_u16());
    (
        result.with_reg(
            RegistersView {
                status: StatusFlags {
                    negative: mem >= 0x80,
                    overflow: (mem / 0x40) % 2 == 1,
                    zero: reg.a & mem == 0,
                    ..result.reg.status
                },
                ..result.reg
            },
        ),
        after,
    )
}

/// BIT: tests bits of memory against the accumulator.
pub fn execute_bit<M: MemoryBus>(
    mode: OpAddressMode,
    params: &OpParam,
    reg: &Registers,
    memory: &mut M,
    result: InstructionResult,
) -> (r: InstructionResult)
    requires
        M::valid_model(old(memory)@),
        result.has_room(),
    ensures
        (r@, final(memory)@) == bit_model::<M>(mode, *params, reg@, old(memory)@, result@),
        M::valid_model(final(memory)@),
        M::layout_model(final(memory)@) == M::layout_model(old(memory)@),
{
    let mut result = result;
    let mem: u8 = memory.read_byte(params.as_u16());
    let val: u8 = reg.a & mem;
    proof {
        lemma_top_bits(mem);
    }
    result.reg.status.set_negative((mem & 0x80) > 0);
    result.reg.status.set_overflow((mem & 0x40) > 0);
    result.reg.status.set_zero(val == 0);
    result
}

/// CMP: compares the accumulator against the operand; a page crossing costs a
/// cycle.
pub open spec fn cmp_model<M: MemoryBus>(
    mode: OpAddressMode,
    param: OpParam,
    reg: RegistersView,
    state: M::V,
    result: InstructionResultView,
) -> (InstructionResultView, M::V) {
    let ((crossed, val), after) = fetch_model::<M>(mode, param, reg, state);
    (
        result.with_reg(
            RegistersView { status: compared(result.reg.status, reg.a, val), ..result.reg },
        ).with_penalty(crossed),
        after,
    )
}

/// CMP: compares the accumulator against the operand.
pub fn execute_cmp<M: MemoryBus>(
    mode: OpAddressMode,
    params: &OpParam,
    reg: &Registers,
    memory: &mut M,
    result: InstructionResult,
) -> (r: InstructionResult)
    requires
        M::valid_model(old(memory)@),
        result.has_room(),
    ensures
        (r@, final(memory)@) == cmp_model::<M>(mode, *params, reg@, old(memory)@, result@),
        M::valid_model(final(memory)@),
        M::layout_model(final(memory)@) == M::layout_model(old(memory)@),
{
    let mut result = result;
    let (page_boundary, val) = mode.address_and_read_byte(params, reg, memory);
    compare(&mut result.reg, reg.a, val);
    result.add_penalty(page_boundary);
    result
}

/// CPX: compares X against the operand.
pub open spec fn cpx_model<M: MemoryBus>(
    mode: OpAddressMode,
    param: OpParam,
    reg: RegistersView,
    state: M::V,
    result: InstructionResultView,
) -> (InstructionResultView, M::V) {
    let ((_, val), after) = fetch_model::<M>(mode, param, reg, state);
    (
        result.with_reg(
            RegistersView { status: compared(result.reg.status, reg.x, val), ..result.reg },
        ),
        after,
    )
}

/// CPX: compares X against the operand.
pub fn execute_cpx<M: MemoryBus>(
    mode: OpAddressMode,
    params: &OpParam,
    reg: &Registers,
    memory: &mut M,
    result: InstructionResult,
) -> (r: InstructionResult)
    requires
        M::valid_model(old(memory)@),
        result.has_room(),
    ensures
        (r@, final(memory)@) == cpx_model::<M>(mode, *params, reg@, old(memory)@, result@),
        M::valid_model(final(memory)@),
        M::layout_model(final(memory)@) == M::layout_model(old(memory)@),
{
    let mut result = result;
    let val: u8 = mode.address_and_read_byte(params, reg, memory).1;
    compare(&mut result.reg, reg.x, val);
    result
}

/// CPY: compares Y against the operand.
pub open spec fn cpy_model<M: MemoryBus>(
    mode: OpAddressMode,
    param: OpParam,
    reg: RegistersView,
    state: M::V,
    result: InstructionResultView,
) -> (InstructionResultView, M::V) {
    let ((_, val), after) = fetch_model::<M>(mode, param, reg, state);
    (
        result.with_reg(
            RegistersView { status: compared(result.reg.status, reg.y, val), ..result.reg },
        ),
        after,
    )
}

/// CPY: compares Y against the operand.
pub fn execute_cpy<M: MemoryBus>(
    mode: OpAddressMode,
    params: &OpParam,
    reg: &Registers,
    memory: &mut M,
    result: InstructionResult,
) -> (r: InstructionResult)
    requires
        M::valid_model(old(memory)@),
        result.has_room(),
    ensures
        (r@, final(memory)@) == cpy_model::<M>(mode, *params, reg@, old(memory)@, result@),
        M::valid_model(final(memory)@),
        M::layout_model(final(memory)@) == M::layout_model(old(memory)@),
{
    let mut result = result;
    let val: u8 = mode.address_and_read_byte(params, reg, memory).1;
    compare(&mut result.reg, reg.y, val);
    result
}

} // verus!
