//! The bitwise instructions: AND, EOR, ORA, and the shifts and rotations.

use vstd::prelude::*;
use crate::instruction::executor::{InstructionResult, InstructionResultView, Write};
use crate::memory::MemoryBus;
use crate::opcode::{OpAddressMode, OpParam, address_model, fetch_model};
use crate::register_status::{RegisterStatus, StatusFlags};
use crate::registers::{Registers, RegistersView};

verus! {

/// AND: the accumulator takes the bitwise and of itself and the operand; N and Z
/// follow it, and a page crossing costs a cycle.
pub open spec fn and_model<M: MemoryBus>(
    mode: OpAddressMode,
    param: OpParam,
    reg: RegistersView,
    state: M::V,
    result: InstructionResultView,
) -> (InstructionResultView, M::V) {
    let ((crossed, operand), after) = fetch_model::<M>(mode, param, reg, state);
    (result.with_reg(result.reg.with_a(reg.a & operand)).with_penalty(crossed), after)
}

/// AND: combines the operand into the accumulator.
pub fn execute_and<M: MemoryBus>(
    mode: OpAddressMode,
    params: &OpParam,
    reg: &Registers,
    memory: &mut M,
    result: InstructionResult,
) -> (r: InstructionResult)
    requires
        M::valid_model(old(memory)@),
        result.has_room(),
    ensures
        (r@, final(memory)@) == and_model::<M>(mode, *params, reg@, old(memory)@, result@),
        M::valid_model(final(memory)@),
        M::layout_model(final(memory)@) == M::layout_model(old(memory)@),
{
    let mut result = result;
    let (page_boundary, operand) = mode.address_and_read_byte(params, reg, memory);
    result.reg.set_reg_a(reg.a & operand);
    result.add_penalty(page_boundary);
    result
}

/// EOR: the accumulator takes the bitwise exclusive or of itself and the operand; N and Z
/// follow it, and a page crossing costs a cycle.
pub open spec fn eor_model<M: MemoryBus>(
    mode: OpAddressMode,
    param: OpParam,
    reg: RegistersView,
    state: M::V,
    result: InstructionResultView,
) -> (InstructionResultView, M::V) {
    let ((crossed, operand), after) = fetch_model::<M>(mode, param, reg, state);
    (result.with_reg(result.reg.with_a(reg.a ^ operand)).with_penalty(crossed), after)
}

/// EOR: combines the operand into the accumulator.
pub fn execute_eor<M: MemoryBus>(
    mode: OpAddressMode,
    params: &OpParam,
    reg: &Registers,
    memory: &mut M,
    result: InstructionResult,
) -> (r: InstructionResult)
    requires
        M::valid_model(old(memory)@),
        result.has_room(),
    ensures
        (r@, final(memory)@) == eor_model::<M>(mode, *params, reg@, old(memory)@, result@),
        M::valid_model(final(memory)@),
        M::layout_model(final(memory)@) == M::layout_model(old(memory)@),
{
    let mut result = result;
    let (page_boundary, operand) = mode.address_and_read_byte(params, reg, memory);
    result.reg.set_reg_a(reg.a ^ operand);
    result.add_penalty(page_boundary);
    result
}

/// ORA: the accumulator takes the bitwise or of itself and the operand; N and Z
/// follow it, and a page crossing costs a cycle.
pub open spec fn ora_model<M: MemoryBus>(
    mode: OpAddressMode,
    param: OpParam,
    reg: RegistersView,
    state: M::V,
    result: InstructionResultView,
) -> (InstructionResultView, M::V) {
    let ((crossed, operand), after) = fetch_model::<M>(mode, param, reg, state);
    (result.with_reg(result.reg.with_a(reg.a | operand)).with_penalty(crossed), after)
}

/// ORA: combines the operand into the accumulator.
pub fn execute_ora<M: MemoryBus>(
    mode: OpAddressMode,
    params: &OpParam,
    reg: &Registers,
    memory: &mut M,
    result: InstructionResult,
) -> (r: InstructionResult)
    requires
        M::valid_model(old(memory)@),
        result.has_room(),
    ensures
        (r@, final(memory)@) == ora_model::<M>(mode, *params, reg@, old(memory)@, result@),
        M::valid_model(final(memory)@),
        M::layout_model(final(memory)@) == M::layout_model(old(memory)@),
{
    let mut result = result;
    let (page_boundary, operand) = mode.address_and_read_byte(params, reg, memory);
    result.reg.set_reg_a(reg.a | operand);
    result.add_penalty(page_boundary);
    result
}

/// The bits that the shifts move into the carry, in arithmetic.
proof fn lemma_end_bits(val: u8)
    by (bit_vector)
    ensures
        (val & 0x80 > 0) == (val >= 0x80),
        (val & 1 > 0) == (val % 2 == 1),
{
}

/// What a shift or a rotation to the left computes, in arithmetic.
proof fn lemma_left_shift(val: u8, carry_in: u8)
    by (bit_vector)
    requires
        carry_in == 0 || carry_in == 1,
    ensures
        val << 1u8 == (val * 2) % 256,
        (val << 1u8) | carry_in == (val * 2) % 256 + carry_in,
{
}

/// What a shift or a rotation to the right computes, in arithmetic.
proof fn lemma_right_shift(val: u8, carry_in: u8)
    by (bit_vector)
    requires
        carry_in == 0 || carry_in == 1,
    ensures
        val >> 1u8 == val / 2,
        (val >> 1u8) | (carry_in << 7u8) == val / 2 + 128 * carry_in,
{
}

/// The byte and the flags after a shift to the left: bit 7 goes to the
/// carry, bit 0 becomes 0, N and Z follow the new byte.
pub open spec fn asl_value(status: StatusFlags, val: u8) -> (u8, StatusFlags) {
    let out = ((val * 2) % 256) as u8;
    (out, StatusFlags { carry: val >= 0x80, ..status.with_nz(out) })
}

/// The byte and the flags after a shift to the right: bit 0 goes to the
/// carry, bit 7 becomes 0, N is clear, Z follows the new byte.
pub open spec fn lsr_value(status: StatusFlags, val: u8) -> (u8, StatusFlags) {
    let out = (val / 2) as u8;
    (out, StatusFlags { carry: val % 2 == 1, negative: false, zero: out == 0, ..status })
}

/// The byte and the flags after a rotation to the left: the carry `carry`
/// comes in at bit 0 and bit 7 goes to the carry; N and Z follow the new byte.
pub open spec fn rol_value(status: StatusFlags, val: u8, carry: bool) -> (u8, StatusFlags) {
    let out = ((val * 2) % 256 + (if carry { 1int } else { 0int })) as u8;
    (out, StatusFlags { carry: val >= 0x80, ..status.with_nz(out) })
}

/// The byte and the flags after a rotation to the right: the carry `carry`
/// comes in at bit 7 and bit 0 goes to the carry; N and Z follow the new byte.
pub open spec fn ror_value(status: StatusFlags, val: u8, carry: bool) -> (u8, StatusFlags) {
    let out = (val / 2 + (if carry { 128int } else { 0int })) as u8;
    (out, StatusFlags { carry: val % 2 == 1, ..status.with_nz(out) })
}

/// Where a shifted byte goes: to the accumulator for an implied operand, and
/// else to the effective address, which is resolved once more for the write.
pub open spec fn shift_stored<M: MemoryBus>(
    mode: OpAddressMode,
    param: OpParam,
    reg: RegistersView,
    state: M::V,
    result: InstructionResultView,
    shifted: (u8, StatusFlags),
) -> (InstructionResultView, M::V) {
    if mode is Implied {
        (
            result.with_reg(RegistersView { a: shifted.0, status: shifted.1, ..result.reg }),
            state,
        )
    } else {
        let ((_, addr), after) = address_model::<M>(mode, param, reg, state);
        (
            result.with_reg(RegistersView { status: shifted.1, ..result.reg }).with_write(
                addr,
                shifted.0,
            ),
            after,
        )
    }
}

/// Puts a shifted byte where it belongs. The flags are in the result already.
fn store_shifted<M: MemoryBus>(
    mode: OpAddressMode,
    params: &OpParam,
    reg: &Registers,
    memory: &mut M,
    result: InstructionResult,
    val: u8,
) -> (r: InstructionResult)
    requires
        M::valid_model(old(memory)@),
    ensures
        (r@, final(memory)@) == shift_stored::<M>(
            mode,
            *params,
            reg@,
            old(memory)@,
            result@,
            (val, result@.reg.status),
        ),
        M::valid_model(final(memory)@),
        M::layout_model(final(memory)@) == M::layout_model(old(memory)@),
{
    let mut result = result;
    match mode {
        OpAddressMode::Implied => {
            result.reg.a = val;
        },
        _ => {
            let addr: u16 = mode.address(params, reg, memory).1;
            result.writes.push(Write::new(addr, val));
        },
    }
    result
}

/// Shifts a byte to the left and sets the flags.
fn shift_left(status: &mut RegisterStatus, val: u8) -> (r: u8)
    ensures
        (r, final(status)@) == asl_value(old(status)@, val),
{
    proof {
        lemma_end_bits(val);
        lemma_left_shift(val, 0);
    }
    status.set_carry((val & 0x80) > 0);
    let out: u8 = val << 1;
    status.set_nz_from(out);
    out
}

/// Shifts a byte to the right and sets the flags.
fn shift_right(status: &mut RegisterStatus, val: u8) -> (r: u8)
    ensures
        (r, final(status)@) == lsr_value(old(status)@, val),
{
    proof {
        lemma_end_bits(val);
        lemma_right_shift(val, 0);
    }
    status.set_negative(false);
    status.set_carry((val & 1) > 0);
    let out: u8 = val >> 1;
    status.set_zero(out == 0);
    out
}

/// Rotates a byte to the left through the carry and sets the flags.
fn rotate_left(status: &mut RegisterStatus, val: u8, carry: bool) -> (r: u8)
    ensures
        (r, final(status)@) == rol_value(old(status)@, val, carry),
{
    let carry_in: u8 = if carry {
        1
    } else {
        0
    };
    proof {
        lemma_end_bits(val);
        lemma_left_shift(val, carry_in);
    }
    let out: u8 = (val << 1) | carry_in;
    status.set_carry((val & 0x80) > 0);
    status.set_nz_from(out);
    out
}

/// Rotates a byte to the right through the carry and sets the flags.
fn rotate_right(status: &mut RegisterStatus, val: u8, carry: bool) -> (r: u8)
    ensures
        (r, final(status)@) == ror_value(old(status)@, val, carry),
{
    let carry_in: u8 = if carry {
        1
    } else {
        0
    };
    proof {
        lemma_end_bits(val);
        lemma_right_shift(val, carry_in);
    }
    let new_carry = (val & 1) > 0;
    let out: u8 = (val >> 1) | (carry_in << 7);
    status.set_carry(new_carry);
    status.set_nz_from(out);
    out
}

/// ASL: shifts the operand one bit to the left. The operand is the
/// accumulator or a byte in memory, and the new byte goes back to where the
/// operand came from.
pub open spec fn asl_model<M: MemoryBus>(
    mode: OpAddressMode,
    param: OpParam,
    reg: RegistersView,
    state: M::V,
    result: InstructionResultView,
) -> (InstructionResultView, M::V) {
    let ((_, val), after) = fetch_model::<M>(mode, param, reg, state);
    shift_stored::<M>(mode, param, reg, after, result, asl_value(result.reg.status, val))
}

/// ASL: shifts the operand one bit to the left.
pub fn execute_asl<M: MemoryBus>(
    mode: OpAddressMode,
    params: &OpParam,
    reg: &Registers,
    memory: &mut M,
    result: InstructionResult,
) -> (r: InstructionResult)
    requires
        M::valid_model(old(memory)@),
        result.has_room(),
    ensures
        (r@, final(memory)@) == asl_model::<M>(mode, *params, reg@, old(memory)@, result@),
        M::valid_model(final(memory)@),
        M::layout_model(final(memory)@) == M::layout_model(old(memory)@),
{
    let mut result = result;
    let (_, val) = mode.address_and_read_byte(params, reg, memory);
    let out: u8 = shift_left(&mut result.reg.status, val);
    store_shifted(mode, params, reg, memory, result, out)
}

/// LSR: shifts the operand one bit to the right. The operand is the
/// accumulator or a byte in memory, and the new byte goes back to where the
/// operand came from.
pub open spec fn lsr_model<M: MemoryBus>(
    mode: OpAddressMode,
    param: OpParam,
    reg: RegistersView,
    state: M::V,
    result: InstructionResultView,
) -> (InstructionResultView, M::V) {
    let ((_, val), after) = fetch_model::<M>(mode, param, reg, state);
    shift_stored::<M>(mode, param, reg, after, result, lsr_value(result.reg.status, val))
}

/// LSR: shifts the operand one bit to the right.
pub fn execute_lsr<M: MemoryBus>(
    mode: OpAddressMode,
    params: &OpParam,
    reg: &Registers,
    memory: &mut M,
    result: InstructionResult,
) -> (r: InstructionResult)
    requires
        M::valid_model(old(memory)@),
        result.has_room(),
    ensures
        (r@, final(memory)@) == lsr_model::<M>(mode, *params, reg@, old(memory)@, result@),
        M::valid_model(final(memory)@),
        M::layout_model(final(memory)@) == M::layout_model(old(memory)@),
{
    let mut result = result;
    let (_, val) = mode.address_and_read_byte(params, reg, memory);
    let out: u8 = shift_right(&mut result.reg.status, val);
    store_shifted(mode, params, reg, memory, result, out)
}

/// ROL: rotates the operand one bit to the left through the carry. The operand is the
/// accumulator or a byte in memory, and the new byte goes back to where the
/// operand came from.
pub open spec fn rol_model<M: MemoryBus>(
    mode: OpAddressMode,
    param: OpParam,
    reg: RegistersView,
    state: M::V,
    result: InstructionResultView,
) -> (InstructionResultView, M::V) {
    let ((_, val), after) = fetch_model::<M>(mode, param, reg, state);
    shift_stored::<M>(mode, param, reg, after, result, rol_value(result.reg.status, val, reg.status.carry))
}

/// ROL: rotates the operand one bit to the left through the carry.
pub fn execute_rol<M: MemoryBus>(
    mode: OpAddressMode,
    params: &OpParam,
    reg: &Registers,
    memory: &mut M,
    result: InstructionResult,
) -> (r: InstructionResult)
    requires
        M::valid_model(old(memory)@),
        result.has_room(),
    ensures
        (r@, final(memory)@) == rol_model::<M>(mode, *params, reg@, old(memory)@, result@),
        M::valid_model(final(memory)@),
        M::layout_model(final(memory)@) == M::layout_model(old(memory)@),
{
    let mut result = result;
    let (_, val) = mode.address_and_read_byte(params, reg, memory);
    let out: u8 = rotate_left(&mut result.reg.status, val, reg.status.carry());
    store_shifted(mode, params, reg, memory, result, out)
}

/// ROR: rotates the operand one bit to the right through the carry. The operand is the
/// accumulator or a byte in memory, and the new byte goes back to where the
/// operand came from.
pub open spec fn ror_model<M: MemoryBus>(
    mode: OpAddressMode,
    param: OpParam,
    reg: RegistersView,
    state: M::V,
    result: InstructionResultView,
) -> (InstructionResultView, M::V) {
    let ((_, val), after) = fetch_model::<M>(mode, param, reg, state);
    shift_stored::<M>(mode, param, reg, after, result, ror_value(result.reg.status, val, reg.status.carry))
}

/// ROR: rotates the operand one bit to the right through the carry.
pub fn execute_ror<M: MemoryBus>(
    mode: OpAddressMode,
    params: &OpParam,
    reg: &Registers,
    memory: &mut M,
    result: InstructionResult,
) -> (r: InstructionResult)
    requires
        M::valid_model(old(memory)@),
        result.has_room(),
    ensures
        (r@, final(memory)@) == ror_model::<M>(mode, *params, reg@, old(memory)@, result@),
        M::valid_model(final(memory)@),
        M::layout_model(final(memory)@) == M::layout_model(old(memory)@),
{
    let mut result = result;
    let (_, val) = mode.address_and_read_byte(params, reg, memory);
    let out: u8 = rotate_right(&mut result.reg.status, val, reg.status.carry());
    store_shifted(mode, params, reg, memory, result, out)
}

} // verus!
