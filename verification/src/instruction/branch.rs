//! The instructions that change the program counter: the branches, JMP, JSR,
//! RTS and RTI.

use vstd::prelude::*;
use crate::instruction::common::{
    branch, branched, high_byte, low_byte, pop, push, spec_high_byte, spec_low_byte,
    stack_address,
};
use crate::instruction::executor::{InstructionResult, InstructionResultView};
use crate::memory::{MemoryBus, make_word, word_of};
use crate::opcode::{OpAddressMode, OpParam, address_model};
use crate::register_status::StatusFlags;
use crate::registers::{Registers, RegistersView};

verus! {

/// BCC: branches if the carry is clear.
pub open spec fn bcc_model<M: MemoryBus>(
    mode: OpAddressMode,
    param: OpParam,
    reg: RegistersView,
    state: M::V,
    result: InstructionResultView,
) -> (InstructionResultView, M::V) {
    (branched(!reg.status.carry, reg, param.spec_as_u8(), result), state)
}

/// BCC: branches if the carry is clear.
pub fn execute_bcc<M: MemoryBus>(
    mode: OpAddressMode,
    params: &OpParam,
    reg: &Registers,
    memory: &mut M,
    result: InstructionResult,
) -> (r: InstructionResult)
    requires
        M::valid_model(old(memory)@),
        result.has_room(),
    ensures
        (r@, final(memory)@) == bcc_model::<M>(mode, *params, reg@, old(memory)@, result@),
        M::valid_model(final(memory)@),
        M::layout_model(final(memory)@) == M::layout_model(old(memory)@),
{
    branch(!reg.status.carry(), reg, params.as_u8(), result)
}

/// BCS: branches if the carry is set.
pub open spec fn bcs_model<M: MemoryBus>(
    mode: OpAddressMode,
    param: OpParam,
    reg: RegistersView,
    state: M::V,
    result: InstructionResultView,
) -> (InstructionResultView, M::V) {
    (branched(reg.status.carry, reg, param.spec_as_u8(), result), state)
}

/// BCS: branches if the carry is set.
pub fn execute_bcs<M: MemoryBus>(
    mode: OpAddressMode,
    params: &OpParam,
    reg: &Registers,
    memory: &mut M,
    result: InstructionResult,
) -> (r: InstructionResult)
    requires
        M::valid_model(old(memory)@),
        result.has_room(),
    ensures
        (r@, final(memory)@) == bcs_model::<M>(mode, *params, reg@, old(memory)@, result@),
        M::valid_model(final(memory)@),
        M::layout_model(final(memory)@) == M::layout_model(old(memory)@),
{
    branch(reg.status.carry(), reg, params.as_u8(), result)
}

/// BEQ: branches if the zero flag is set.
pub open spec fn beq_model<M: MemoryBus>(
    mode: OpAddressMode,
    param: OpParam,
    reg: RegistersView,
    state: M::V,
    result: InstructionResultView,
) -> (InstructionResultView, M::V) {
    (branched(reg.status.zero, reg, param.spec_as_u8(), result), state)
}

/// BEQ: branches if the zero flag is set.
pub fn execute_beq<M: MemoryBus>(
    mode: OpAddressMode,
    params: &OpParam,
    reg: &Registers,
    memory: &mut M,
    result: InstructionResult,
) -> (r: InstructionResult)
    requires
        M::valid_model(old(memory)@),
        result.has_room(),
    ensures
        (r@, final(memory)@) == beq_model::<M>(mode, *params, reg@, old(memory)@, result@),
        M::valid_model(final(memory)@),
        M::layout_model(final(memory)@) == M::layout_model(old(memory)@),
{
    branch(reg.status.zero(), reg, params.as_u8(), result)
}

/// BMI: branches if the negative flag is set.
pub open spec fn bmi_model<M: MemoryBus>(
    mode: OpAddressMode,
    param: OpParam,
    reg: RegistersView,
    state: M::V,
    result: InstructionResultView,
) -> (InstructionResultView, M::V) {
    (branched(reg.status.negative, reg, param.spec_as_u8(), result), state)
}

/// BMI: branches if the negative flag is set.
pub fn execute_bmi<M: MemoryBus>(
    mode: OpAddressMode,
    params: &OpParam,
    reg: &Registers,
    memory: &mut M,
    result: InstructionResult,
) -> (r: InstructionResult)
    requires
        M::valid_model(old(memory)@),
        result.has_room(),
    ensures
        (r@, final(memory)@) == bmi_model::<M>(mode, *params, reg@, old(memory)@, result@),
        M::valid_model(final(memory)@),
        M::layout_model(final(memory)@) == M::layout_model(old(memory)@),
{
    branch(reg.status.negative(), reg, params.as_u8(), result)
}

/// BNE: branches if the zero flag is clear.
pub open spec fn bne_model<M: MemoryBus>(
    mode: OpAddressMode,
    param: OpParam,
    reg: RegistersView,
    state: M::V,
    result: InstructionResultView,
) -> (InstructionResultView, M::V) {
    (branched(!reg.status.zero, reg, param.spec_as_u8(), result), state)
}

/// BNE: branches if the zero flag is clear.
pub fn execute_bne<M: MemoryBus>(
    mode: OpAddressMode,
    params: &OpParam,
    reg: &Registers,
    memory: &mut M,
    result: InstructionResult,
) -> (r: InstructionResult)
    requires
        M::valid_model(old(memory)@),
        result.has_room(),
    ensures
        (r@, final(memory)@) == bne_model::<M>(mode, *params, reg@, old(memory)@, result@),
        M::valid_model(final(memory)@),
        M::layout_model(final(memory)@) == M::layout_model(old(memory)@),
{
    branch(!reg.status.zero(), reg, params.as_u8(), result)
}

/// BPL: branches if the negative flag is clear.
pub open spec fn bpl_model<M: MemoryBus>(
    mode: OpAddressMode,
    param: OpParam,
    reg: RegistersView,
    state: M::V,
    result: InstructionResultView,
) -> (InstructionResultView, M::V) {
    (branched(!reg.status.negative, reg, param.spec_as_u8(), result), state)
}

/// BPL: branches if the negative flag is clear.
pub fn execute_bpl<M: MemoryBus>(
    mode: OpAddressMode,
    params: &OpParam,
    reg: &Registers,
    memory: &mut M,
    result: InstructionResult,
) -> (r: InstructionResult)
    requires
        M::valid_model(old(memory)@),
        result.has_room(),
    ensures
        (r@, final(memory)@) == bpl_model::<M>(mode, *params, reg@, old(memory)@, result@),
        M::valid_model(final(memory)@),
        M::layout_model(final(memory)@) == M::layout_model(old(memory)@),
{
    branch(!reg.status.negative(), reg, params.as_u8(), result)
}

/// BVC: branches if the overflow flag is clear.
pub open spec fn bvc_model<M: MemoryBus>(
    mode: OpAddressMode,
    param: OpParam,
    reg: RegistersView,
    state: M::V,
    result: InstructionResultView,
) -> (InstructionResultView, M::V) {
    (branched(!reg.status.overflow, reg, param.spec_as_u8(), result), state)
}

/// BVC: branches if the overflow flag is clear.
pub fn execute_bvc<M: MemoryBus>(
    mode: OpAddressMode,
    params: &OpParam,
    reg: &Registers,
    memory: &mut M,
    result: InstructionResult,
) -> (r: InstructionResult)
    requires
        M::valid_model(old(memory)@),
        result.has_room(),
    ensures
        (r@, final(memory)@) == bvc_model::<M>(mode, *params, reg@, old(memory)@, result@),
        M::valid_model(final(memory)@),
        M::layout_model(final(memory)@) == M::layout_model(old(memory)@),
{
    branch(!reg.status.overflow(), reg, params.as_u8(), result)
}

/// BVS: branches if the overflow flag is set.
pub open spec fn bvs_model<M: MemoryBus>(
    mode: OpAddressMode,
    param: OpParam,
    reg: RegistersView,
    state: M::V,
    result: InstructionResultView,
) -> (InstructionResultView, M::V) {
    (branched(reg.status.overflow, reg, param.spec_as_u8(), result), state)
}

/// BVS: branches if the overflow flag is set.
pub fn execute_bvs<M: MemoryBus>(
    mode: OpAddressMode,
    params: &OpParam,
    reg: &Registers,
    memory: &mut M,
    result: InstructionResult,
) -> (r: InstructionResult)
    requires
        M::valid_model(old(memory)@),
        result.has_room(),
    ensures
        (r@, final(memory)@) == bvs_model::<M>(mode, *params, reg@, old(memory)@, result@),
        M::valid_model(final(memory)@),
        M::layout_model(final(memory)@) == M::layout_model(old(memory)@),
{
    branch(reg.status.overflow(), reg, params.as_u8(), result)
}

/// JMP: the program counter goes to the effective address: the operand, or,
/// for an indirect jump, the word that the operand points to, its high byte
/// taken from the page of its low byte.
pub open spec fn jmp_model<M: MemoryBus>(
    mode: OpAddressMode,
    param: OpParam,
    reg: RegistersView,
    state: M::V,
    result: InstructionResultView,
) -> (InstructionResultView, M::V) {
    let ((_, addr), after) = address_model::<M>(mode, param, reg, state);
    (result.with_reg(RegistersView { pc: addr, ..result.reg }), after)
}

/// JMP: jumps to the effective address.
pub fn execute_jmp<M: MemoryBus>(
    mode: OpAddressMode,
    params: &OpParam,
    reg: &Registers,
    memory: &mut M,
    result: InstructionResult,
) -> (r: InstructionResult)
    requires
        M::valid_model(old(memory)@),
        result.has_room(),
    ensures
        (r@, final(memory)@) == jmp_model::<M>(mode, *params, reg@, old(memory)@, result@),
        M::valid_model(final(memory)@),
        M::layout_model(final(memory)@) == M::layout_model(old(memory)@),
{
    let mut result = result;
    result.reg.pc = mode.address(params, reg, memory).1;
    result
}

/// JSR: pushes the address of the last byte of the instruction, high byte
/// first, and jumps to the operand.
pub open spec fn jsr_model<M: MemoryBus>(
    mode: OpAddressMode,
    param: OpParam,
    reg: RegistersView,
    state: M::V,
    result: InstructionResultView,
) -> (InstructionResultView, M::V) {
    let return_to = reg.pc.wrapping_sub(1);
    let pushed = result.pushed(spec_high_byte(return_to)).pushed(spec_low_byte(return_to));
    (pushed.with_reg(RegistersView { pc: param.spec_as_u16(), ..pushed.reg }), state)
}

/// JSR: jumps to a subroutine.
pub fn execute_jsr<M: MemoryBus>(
    mode: OpAddressMode,
    params: &OpParam,
    reg: &Registers,
    memory: &mut M,
    result: InstructionResult,
) -> (r: InstructionResult)
    requires
        M::valid_model(old(memory)@),
        result.has_room(),
    ensures
        (r@, final(memory)@) == jsr_model::<M>(mode, *params, reg@, old(memory)@, result@),
        M::valid_model(final(memory)@),
        M::layout_model(final(memory)@) == M::layout_model(old(memory)@),
{
    let mut result = result;
    let pc: u16 = reg.pc.wrapping_sub(1);
    result = push(result, high_byte(pc));
    result = push(result, low_byte(pc));
    result.reg.pc = params.as_u16();
    result
}

/// RTS: pulls an address, low byte first, and goes on behind it.
pub open spec fn rts_model<M: MemoryBus>(
    mode: OpAddressMode,
    param: OpParam,
    reg: RegistersView,
    state: M::V,
    result: InstructionResultView,
) -> (InstructionResultView, M::V) {
    let first = result.pulled();
    let (lsb, s1) = M::read_model(state, stack_address(first.reg.sp));
    let second = first.pulled();
    let (msb, s2) = M::read_model(s1, stack_address(second.reg.sp));
    (
        second.with_reg(RegistersView { pc: word_of(lsb, msb).wrapping_add(1), ..second.reg }),
        s2,
    )
}

/// RTS: returns from a subroutine.
pub fn execute_rts<M: MemoryBus>(
    mode: OpAddressMode,
    params: &OpParam,
    reg: &Registers,
    memory: &mut M,
    result: InstructionResult,
) -> (r: InstructionResult)
    requires
        M::valid_model(old(memory)@),
        result.has_room(),
    ensures
        (r@, final(memory)@) == rts_model::<M>(mode, *params, reg@, old(memory)@, result@),
        M::valid_model(final(memory)@),
        M::layout_model(final(memory)@) == M::layout_model(old(memory)@),
{
    let mut result = result;
    let lsb: u8 = pop(&mut result, memory);
    let msb: u8 = pop(&mut result, memory);
    result.reg.pc = make_word(lsb, msb).wrapping_add(1);
    result
}

/// RTI: pulls the status word, then the program counter, low byte first. The
/// BRK flag is clear afterwards and bit 5 set, whatever the pulled byte
/// holds.
pub open spec fn rti_model<M: MemoryBus>(
    mode: OpAddressMode,
    param: OpParam,
    reg: RegistersView,
    state: M::V,
    result: InstructionResultView,
) -> (InstructionResultView, M::V) {
    let first = result.pulled();
    let (status, s1) = M::read_model(state, stack_address(first.reg.sp));
    let second = first.pulled();
    let (lsb, s2) = M::read_model(s1, stack_address(second.reg.sp));
    let third = second.pulled();
    let (msb, s3) = M::read_model(s2, stack_address(third.reg.sp));
    (
        third.with_reg(
            RegistersView {
                pc: word_of(lsb, msb),
                status: StatusFlags { brk: false, ..StatusFlags::from_byte(status) },
                ..third.reg
            },
        ),
        s3,
    )
}

/// RTI: returns from an interrupt.
pub fn execute_rti<M: MemoryBus>(
    mode: OpAddressMode,
    params: &OpParam,
    reg: &Registers,
    memory: &mut M,
    result: InstructionResult,
) -> (r: InstructionResult)
    requires
        M::valid_model(old(memory)@),
        result.has_room(),
    ensures
        (r@, final(memory)@) == rti_model::<M>(mode, *params, reg@, old(memory)@, result@),
        M::valid_model(final(memory)@),
        M::layout_model(final(memory)@) == M::layout_model(old(memory)@),
{
    let mut result = result;
    let status: u8 = pop(&mut result, memory);
    let lsb: u8 = pop(&mut result, memory);
    let msb: u8 = pop(&mut result, memory);

    result.reg.status.set_brk(false);
    result.reg.status.set_value(status);
    result.reg.pc = make_word(lsb, msb);
    result
}

} // verus!
