//! The arithmetic instructions: ADC, SBC, and the increments and decrements.

use vstd::prelude::*;
use crate::instruction::common::low_byte;
use crate::instruction::executor::{InstructionResult, InstructionResultView, Write};
use crate::memory::MemoryBus;
use crate::opcode::{OpAddressMode, OpParam, address_model, fetch_model, signed};
use crate::register_status::StatusFlags;
use crate::registers::{Registers, RegistersView};

verus! {

/// The registers after an addition with carry: the accumulator takes the
/// sum of `a`, the operand and the carry, modulo 256. Carry says that the sum
/// did not fit in a byte; overflow says that the sum of the three, with `a`
/// and the operand read as signed numbers, does not fit in a signed byte.
/// N and Z follow the new accumulator. The decimal flag plays no part.
pub open spec fn adc_registers(
    target: RegistersView,
    a: u8,
    operand: u8,
    carry: bool,
) -> RegistersView {
    let carry_in: int = if carry {
        1
    } else {
        0
    };
    let sum = a + operand + carry_in;
    let signed_sum = signed(a) + signed(operand) + carry_in;
    let val = (sum % 256) as u8;
    RegistersView {
        a: val,
        status: StatusFlags {
            overflow: signed_sum < -128 || signed_sum > 127,
            carry: sum > 0xFF,
            ..target.status.with_nz(val)
        },
        ..target
    }
}

/// The registers after a subtraction with borrow: the accumulator takes `a`
/// minus the operand, minus one more if the carry is clear, modulo 256.
/// Carry says that no borrow was needed; overflow says that the difference,
/// with `a` and the operand read as signed numbers, does not fit in a signed
/// byte. N and Z follow the new accumulator. The decimal flag plays no part.
pub open spec fn sbc_registers(
    target: RegistersView,
    a: u8,
    operand: u8,
    carry: bool,
) -> RegistersView {
    let borrow: int = if carry {
        0
    } else {
        1
    };
    let difference = a - operand - borrow;
    let signed_difference = signed(a) - signed(operand) - borrow;
    let val = (difference % 256) as u8;
    RegistersView {
        a: val,
        status: StatusFlags {
            overflow: signed_difference < -128 || signed_difference > 127,
            carry: difference >= 0,
            ..target.status.with_nz(val)
        },
        ..target
    }
}

/// Adding an operand is subtracting its complement: for every accumulator,
/// operand and carry, ADC with the operand and SBC with 255 minus the operand
/// leave the same registers.
pub proof fn lemma_adc_is_sbc_of_complement(
    target: RegistersView,
    a: u8,
    operand: u8,
    carry: bool,
)
    ensures
        adc_registers(target, a, operand, carry) == sbc_registers(
            target,
            a,
            (255 - operand) as u8,
            carry,
        ),
{
}

/// Two bytes differ in bit 7 from a third, and agree in it with each other,
/// exactly if the exclusive-or test of the overflow flag says so.
proof fn lemma_sign_test(a: u8, m: u8, low: u8)
    by (bit_vector)
    ensures
        ((a ^ low) & (m ^ low) & 0x80 != 0) == (((a >= 0x80) == (m >= 0x80)) && ((a >= 0x80) != (
        low >= 0x80))),
        !m == 255 - m,
{
}

/// What the exclusive-or test of ADC computes is the overflow of the signed
/// sum.
proof fn lemma_adc_overflow(a: u8, operand: u8, carry: bool, low: u8)
    requires
        low == (a + operand + (if carry { 1int } else { 0int })) % 256,
    ensures
        (((a >= 0x80) == (operand >= 0x80)) && ((a >= 0x80) != (low >= 0x80))) == ({
            let signed_sum = signed(a) + signed(operand) + (if carry { 1int } else { 0int });
            signed_sum < -128 || signed_sum > 127
        }),
{
}

/// What the exclusive-or test of SBC computes is the overflow of the signed
/// difference.
proof fn lemma_sbc_overflow(a: u8, operand: u8, carry: bool, low: u8)
    requires
        low == (a - operand - (if carry { 0int } else { 1int })) % 256,
    ensures
        (((a >= 0x80) == (operand < 0x80)) && ((a >= 0x80) != (low >= 0x80))) == ({
            let signed_difference = signed(a) - signed(operand) - (if carry { 0int } else { 1int });
            signed_difference < -128 || signed_difference > 127
        }),
{
}

/// Adds `operand` and the carry to `a` and leaves the sum and the flags in
/// `registers`.
pub fn add_with_carry(registers: &mut Registers, a: u8, operand: u8, carry: bool)
    ensures
        final(registers)@ == adc_registers(old(registers)@, a, operand, carry),
{
    let mut val: u16 = a as u16;
    val += operand as u16;
    if carry {
        val += 1;
    }
    let low: u8 = low_byte(val);
    proof {
        lemma_sign_test(a, operand, low);
        lemma_adc_overflow(a, operand, carry, low);
    }
    registers.status.set_overflow((a ^ low) & (operand ^ low) & 0x80 > 0);
    registers.status.set_carry(val > 0xFF);
    registers.status.set_nz_from(low);
    registers.a = low;
}

/// Subtracts `operand` and the borrow from `a` and leaves the difference and
/// the flags in `registers`.
pub fn subtract_with_borrow(registers: &mut Registers, a: u8, operand: u8, carry: bool)
    ensures
        final(registers)@ == sbc_registers(old(registers)@, a, operand, carry),
{
    let mut val: u16 = a as u16;
    val = val.wrapping_sub(operand as u16);
    if !carry {
        val = val.wrapping_sub(1);
    }
    let low: u8 = low_byte(val);
    let inverted: u8 = !operand;
    proof {
        lemma_sign_test(a, inverted, low);
        lemma_sign_test(a, operand, low);
        assert(val == (a - operand - (if carry { 0int } else { 1int })) % 0x10000);
        assert(low == (a - operand - (if carry { 0int } else { 1int })) % 256);
        lemma_sbc_overflow(a, operand, carry, low);
    }
    registers.status.set_overflow((a ^ low) & (inverted ^ low) & 0x80 > 0);
    registers.status.set_carry(val <= 0xFF);
    registers.status.set_nz_from(low);
    registers.a = low;
}

/// ADC: adds the operand and the carry to the accumulator; a page crossing
/// costs a cycle.
pub open spec fn adc_model<M: MemoryBus>(
    mode: OpAddressMode,
    param: OpParam,
    reg: RegistersView,
    state: M::V,
    result: InstructionResultView,
) -> (InstructionResultView, M::V) {
    let ((crossed, operand), after) = fetch_model::<M>(mode, param, reg, state);
    (
        result.with_reg(adc_registers(result.reg, reg.a, operand, reg.status.carry)).with_penalty(
            crossed,
        ),
        after,
    )
}

/// ADC: adds the operand and the carry to the accumulator, always in binary.
pub fn execute_adc<M: MemoryBus>(
    mode: OpAddressMode,
    params: &OpParam,
    reg: &Registers,
    memory: &mut M,
    result: InstructionResult,
) -> (r: InstructionResult)
    requires
        M::valid_model(old(memory)@),
        result.has_room(),
    ensures
        (r@, final(memory)@) == adc_model::<M>(mode, *params, reg@, old(memory)@, result@),
        M::valid_model(final(memory)@),
        M::layout_model(final(memory)@) == M::layout_model(old(memory)@),
{
    let mut result = result;
    let (page_boundary, operand) = mode.address_and_read_byte(params, reg, memory);
    add_with_carry(&mut result.reg, reg.a, operand, reg.status.carry());
    result.add_penalty(page_boundary);
    result
}

/// SBC: subtracts the operand and the borrow from the accumulator; a page
/// crossing costs a cycle.
pub open spec fn sbc_model<M: MemoryBus>(
    mode: OpAddressMode,
    param: OpParam,
    reg: RegistersView,
    state: M::V,
    result: InstructionResultView,
) -> (InstructionResultView, M::V) {
    let ((crossed, operand), after) = fetch_model::<M>(mode, param, reg, state);
    (
        result.with_reg(sbc_registers(result.reg, reg.a, operand, reg.status.carry)).with_penalty(
            crossed,
        ),
        after,
    )
}

/// SBC: subtracts the operand and the borrow from the accumulator, always in
/// binary.
pub fn execute_sbc<M: MemoryBus>(
    mode: OpAddressMode,
    params: &OpParam,
    reg: &Registers,
    memory: &mut M,
    result: InstructionResult,
) -> (r: InstructionResult)
    requires
        M::valid_model(old(memory)@),
        result.has_room(),
    ensures
        (r@, final(memory)@) == sbc_model::<M>(mode, *params, reg@, old(memory)@, result@),
        M::valid_model(final(memory)@),
        M::layout_model(final(memory)@) == M::layout_model(old(memory)@),
{
    let mut result = result;
    let (page_boundary, operand) = mode.address_and_read_byte(params, reg, memory);
    subtract_with_borrow(&mut result.reg, reg.a, operand, reg.status.carry());
    result.add_penalty(page_boundary);
    result
}

/// DEC: takes one from the byte at the effective address, modulo 256. The new
/// byte is written back by a write that the result records; N and Z follow it.
pub open spec fn dec_model<M: MemoryBus>(
    mode: OpAddressMode,
    param: OpParam,
    reg: RegistersView,
    state: M::V,
    result: InstructionResultView,
) -> (InstructionResultView, M::V) {
    let ((_, addr), s1) = address_model::<M>(mode, param, reg, state);
    let (old_val, s2) = M::read_model(s1, addr);
    let val = old_val.wrapping_sub(1);
    (
        result.with_reg(
            RegistersView { status: result.reg.status.with_nz(val), ..result.reg },
        ).with_write(addr, val),
        s2,
    )
}

/// DEC: takes one from the byte at the effective address.
pub fn execute_dec<M: MemoryBus>(
    mode: OpAddressMode,
    params: &OpParam,
    reg: &Registers,
    memory: &mut M,
    result: InstructionResult,
) -> (r: InstructionResult)
    requires
        M::valid_model(old(memory)@),
        result.has_room(),
    ensures
        (r@, final(memory)@) == dec_model::<M>(mode, *params, reg@, old(memory)@, result@),
        M::valid_model(final(memory)@),
        M::layout_model(final(memory)@) == M::layout_model(old(memory)@),
{
    let mut result = result;
    let address: u16 = mode.address(params, reg, memory).1;
    let val: u8 = memory.read_byte(address).wrapping_sub(1);
    result.reg.status.set_nz_from(val);
    result.writes.push(Write::new(address, val));
    result
}

/// INC: adds one to the byte at the effective address, modulo 256. The new
/// byte is written back by a write that the result records; N and Z follow it.
pub open spec fn inc_model<M: MemoryBus>(
    mode: OpAddressMode,
    param: OpParam,
    reg: RegistersView,
    state: M::V,
    result: InstructionResultView,
) -> (InstructionResultView, M::V) {
    let ((_, addr), s1) = address_model::<M>(mode, param, reg, state);
    let (old_val, s2) = M::read_model(s1, addr);
    let val = old_val.wrapping_add(1);
    (
        result.with_reg(
            RegistersView { status: result.reg.status.with_nz(val), ..result.reg },
        ).with_write(addr, val),
        s2,
    )
}

/// INC: adds one to the byte at the effective address.
pub fn execute_inc<M: MemoryBus>(
    mode: OpAddressMode,
    params: &OpParam,
    reg: &Registers,
    memory: &mut M,
    result: InstructionResult,
) -> (r: InstructionResult)
    requires
        M::valid_model(old(memory)@),
        result.has_room(),
    ensures
        (r@, final(memory)@) == inc_model::<M>(mode, *params, reg@, old(memory)@, result@),
        M::valid_model(final(memory)@),
        M::layout_model(final(memory)@) == M::layout_model(old(memory)@),
{
    let mut result = result;
    let address: u16 = mode.address(params, reg, memory).1;
    let val: u8 = memory.read_byte(address).wrapping_add(1);
    result.reg.status.set_nz_from(val);
    result.writes.push(Write::new(address, val));
    result
}

/// DEX: takes one from X, modulo 256; N and Z follow it.
pub open spec fn dex_model<M: MemoryBus>(
    mode: OpAddressMode,
    param: OpParam,
    reg: RegistersView,
    state: M::V,
    result: InstructionResultView,
) -> (InstructionResultView, M::V) {
    (result.with_reg(result.reg.with_x(reg.x.wrapping_sub(1))), state)
}

/// DEX: takes one from X.
pub fn execute_dex<M: MemoryBus>(
    mode: OpAddressMode,
    params: &OpParam,
    reg: &Registers,
    memory: &mut M,
    result: InstructionResult,
) -> (r: InstructionResult)
    requires
        M::valid_model(old(memory)@),
        result.has_room(),
    ensures
        (r@, final(memory)@) == dex_model::<M>(mode, *params, reg@, old(memory)@, result@),
        M::valid_model(final(memory)@),
        M::layout_model(final(memory)@) == M::layout_model(old(memory)@),
{
    let mut result = result;
    result.reg.set_reg_x(reg.x.wrapping_sub(1));
    result
}

/// DEY: takes one from Y, modulo 256; N and Z follow it.
pub open spec fn dey_model<M: MemoryBus>(
    mode: OpAddressMode,
    param: OpParam,
    reg: RegistersView,
    state: M::V,
    result: InstructionResultView,
) -> (InstructionResultView, M::V) {
    (result.with_reg(result.reg.with_y(reg.y.wrapping_sub(1))), state)
}

/// DEY: takes one from Y.
pub fn execute_dey<M: MemoryBus>(
    mode: OpAddressMode,
    params: &OpParam,
    reg: &Registers,
    memory: &mut M,
    result: InstructionResult,
) -> (r: InstructionResult)
    requires
        M::valid_model(old(memory)@),
        result.has_room(),
    ensures
        (r@, final(memory)@) == dey_model::<M>(mode, *params, reg@, old(memory)@, result@),
        M::valid_model(final(memory)@),
        M::layout_model(final(memory)@) == M::layout_model(old(memory)@),
{
    let mut result = result;
    result.reg.set_reg_y(reg.y.wrapping_sub(1));
    result
}

/// INX: adds one to X, modulo 256; N and Z follow it.
pub open spec fn inx_model<M: MemoryBus>(
    mode: OpAddressMode,
    param: OpParam,
    reg: RegistersView,
    state: M::V,
    result: InstructionResultView,
) -> (InstructionResultView, M::V) {
    (result.with_reg(result.reg.with_x(reg.x.wrapping_add(1))), state)
}

/// INX: adds one to X.
pub fn execute_inx<M: MemoryBus>(
    mode: OpAddressMode,
    params: &OpParam,
    reg: &Registers,
    memory: &mut M,
    result: InstructionResult,
) -> (r: InstructionResult)
    requires
        M::valid_model(old(memory)@),
        result.has_room(),
    ensures
        (r@, final(memory)@) == inx_model::<M>(mode, *params, reg@, old(memory)@, result@),
        M::valid_model(final(memory)@),
        M::layout_model(final(memory)@) == M::layout_model(old(memory)@),
{
    let mut result = result;
    result.reg.set_reg_x(reg.x.wrapping_add(1));
    result
}

/// INY: adds one to Y, modulo 256; N and Z follow it.
pub open spec fn iny_model<M: MemoryBus>(
    mode: OpAddressMode,
    param: OpParam,
    reg: RegistersView,
    state: M::V,
    result: InstructionResultView,
) -> (InstructionResultView, M::V) {
    (result.with_reg(result.reg.with_y(reg.y.wrapping_add(1))), state)
}

/// INY: adds one to Y.
pub fn execute_iny<M: MemoryBus>(
    mode: OpAddressMode,
    params: &OpParam,
    reg: &Registers,
    memory: &mut M,
    result: InstructionResult,
) -> (r: InstructionResult)
    requires
        M::valid_model(old(memory)@),
        result.has_room(),
    ensures
        (r@, final(memory)@) == iny_model::<M>(mode, *params, reg@, old(memory)@, result@),
        M::valid_model(final(memory)@),
        M::layout_model(final(memory)@) == M::layout_model(old(memory)@),
{
    let mut result = result;
    result.reg.set_reg_y(reg.y.wrapping_add(1));
    result
}

} // verus!
