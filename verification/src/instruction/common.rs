//! What the handlers share: the stack, the comparison and the branch.

use vstd::prelude::*;
use crate::instruction::executor::{
    InstructionResult, InstructionResultView, Write, instruction_model, match_impl,
};
use crate::memory::{
    MemoryBus, MemoryMappedDevice, SegmentModel, in_ram, lemma_ram_read_after_write, map_read,
    map_wf, map_write,
};
use crate::opcode::{OpAddressMode, OpClass, OpParam, branch_target, spec_branch_target};
use crate::register_status::StatusFlags;
use crate::registers::{Registers, RegistersView};

verus! {

/// The page that the stack lies in.
pub const STACK_ADDR: u16 = 0x0100;

/// The high byte of a word.
pub open spec fn spec_high_byte(word: u16) -> u8 {
    (word / 256) as u8
}

/// The low byte of a word.
pub open spec fn spec_low_byte(word: u16) -> u8 {
    (word % 256) as u8
}

/// The high byte of a word.
#[verifier::when_used_as_spec(spec_high_byte)]
pub fn high_byte(word: u16) -> (r: u8)
    ensures
        r == spec_high_byte(word),
{
    let high: u16 = word >> 8;
    assert(high == word / 256) by (bit_vector)
        requires
            high == word >> 8,
    ;
    high as u8
}

/// The low byte of a word.
#[verifier::when_used_as_spec(spec_low_byte)]
pub fn low_byte(word: u16) -> (r: u8)
    ensures
        r == spec_low_byte(word),
{
    let low: u16 = word & 0xFF;
    assert(low == word % 256) by (bit_vector)
        requires
            low == word & 0xFF,
    ;
    low as u8
}

/// The address in page 1 that the stack pointer points to.
pub open spec fn stack_address(sp: u8) -> u16 {
    (STACK_ADDR + sp) as u16
}

impl InstructionResultView {
    /// The result after a byte was pushed: a write to the address that the
    /// stack pointer points to, and the stack pointer one lower, going from
    /// 0x00 round to 0xFF.
    pub open spec fn pushed(self, val: u8) -> InstructionResultView {
        InstructionResultView {
            reg: RegistersView { sp: self.reg.sp.wrapping_sub(1), ..self.reg },
            writes: self.writes.push(Write { address: stack_address(self.reg.sp), value: val }),
            ..self
        }
    }

    /// The result after the stack pointer went one up, to the byte that a
    /// pull reads.
    pub open spec fn pulled(self) -> InstructionResultView {
        InstructionResultView {
            reg: RegistersView { sp: self.reg.sp.wrapping_add(1), ..self.reg },
            ..self
        }
    }
}

/// The result that an instruction starts from.
pub fn new_result() -> (r: InstructionResult)
    ensures
        r@ == InstructionResultView::initial(),
{
    InstructionResult::new()
}

/// Runs the handler of one instruction class on registers and an operand
/// that the caller chose, with no decoding before it. The handler starts
/// from `reg` and no writes; the cycles go on from those of `result`.
pub fn execute<M: MemoryBus>(
    class: OpClass,
    mode: OpAddressMode,
    param: &OpParam,
    reg: &Registers,
    memory: &mut M,
    result: InstructionResult,
) -> (r: InstructionResult)
    requires
        M::valid_model(old(memory)@),
        result.has_room(),
    ensures
        (r@, final(memory)@) == instruction_model::<M>(
            class,
            mode,
            *param,
            reg@,
            old(memory)@,
            InstructionResultView { reg: reg@, writes: Seq::empty(), cycles: result@.cycles },
        ),
        M::valid_model(final(memory)@),
        M::layout_model(final(memory)@) == M::layout_model(old(memory)@),
{
    let mut result = result;
    result.writes.clear();
    result.reg = *reg;

    match_impl(class, mode, param, reg, memory, result)
}

/// Pushes a byte: the write is recorded in the result and the stack pointer
/// goes down.
#[inline]
pub fn push(result: InstructionResult, val: u8) -> (r: InstructionResult)
    ensures
        r@ == result@.pushed(val),
{
    let mut result = result;
    result.writes.push(Write::new(STACK_ADDR + result.reg.sp as u16, val));
    result.reg.sp = result.reg.sp.wrapping_sub(1);
    result
}

/// Pulls a byte: the stack pointer goes up and the byte that it then points
/// to is read from memory. Writes that the same instruction has recorded are
/// not seen.
#[inline]
pub fn pop<M: MemoryBus>(result: &mut InstructionResult, memory: &mut M) -> (r: u8)
    requires
        M::valid_model(old(memory)@),
    ensures
        final(result)@ == old(result)@.pulled(),
        (r, final(memory)@) == M::read_model(old(memory)@, stack_address(final(result)@.reg.sp)),
        M::valid_model(final(memory)@),
        M::layout_model(final(memory)@) == M::layout_model(old(memory)@),
{
    result.reg.sp = result.reg.sp.wrapping_add(1);
    memory.read_byte(STACK_ADDR + result.reg.sp as u16)
}

/// The flags after `value` was compared against `against`: carry says that
/// `value` is not below `against`, zero that the two are equal, and negative
/// is bit 7 of their difference modulo 256.
pub open spec fn compared(status: StatusFlags, value: u8, against: u8) -> StatusFlags {
    StatusFlags {
        carry: value >= against,
        zero: value == against,
        negative: (value - against) % 256 >= 0x80,
        ..status
    }
}

/// Compares `value` against `against` and sets N, Z and C by the outcome.
#[inline]
pub fn compare(registers: &mut Registers, value: u8, against: u8)
    ensures
        final(registers)@ == (RegistersView {
            status: compared(old(registers)@.status, value, against),
            ..old(registers)@
        }),
{
    let difference: u8 = value.wrapping_sub(against);
    registers.status.set_nz_from(difference);
    registers.status.set_carry(value >= against);
}

/// The result of a branch: if the condition holds, the program counter goes
/// to the target, which lies `offset`, read as a signed number, behind the
/// program counter in `reg`; that costs one cycle, and one more if the target
/// lies in another page.
pub open spec fn branched(
    cond: bool,
    reg: RegistersView,
    offset: u8,
    result: InstructionResultView,
) -> InstructionResultView {
    if cond {
        let target = spec_branch_target(reg.pc, offset);
        InstructionResultView {
            reg: RegistersView { pc: target, ..result.reg },
            cycles: result.cycles + (if OpAddressMode::spec_same_page(reg.pc, target) {
                1nat
            } else {
                2nat
            }),
            ..result
        }
    } else {
        result
    }
}

/// Branches if the condition holds.
#[inline]
pub fn branch(cond: bool, reg: &Registers, offset: u8, result: InstructionResult) -> (r:
    InstructionResult)
    requires
        result.has_room(),
    ensures
        r@ == branched(cond, reg@, offset, result@),
{
    let mut result = result;
    if cond {
        let new_pc: u16 = branch_target(reg.pc, offset);
        // Add 2 if page boundary, 1 otherwise
        if OpAddressMode::same_page(reg.pc, new_pc) {
            result.cycles += 1;
        } else {
            result.cycles += 2;
        }
        result.reg.pc = new_pc;
    }
    result
}

impl InstructionResultView {
    /// The result after the bytes were pushed, one after the other.
    pub open spec fn pushed_all(self, vals: Seq<u8>) -> InstructionResultView
        decreases vals.len(),
    {
        if vals.len() == 0 {
            self
        } else {
            self.pushed_all(vals.drop_last()).pushed(vals.last())
        }
    }
}

/// After N pushes without pulls the stack pointer is N lower, going round
/// from 0x00 to 0xFF: from the 0xFF of a reset it has come to (0xFF - N) mod
/// 256. Each push has recorded one write.
pub proof fn lemma_sp_after_pushes(result: InstructionResultView, vals: Seq<u8>)
    ensures
        result.pushed_all(vals).reg.sp == (result.reg.sp - vals.len()) % 256,
        result.pushed_all(vals).writes.len() == result.writes.len() + vals.len(),
    decreases vals.len(),
{
    if vals.len() > 0 {
        lemma_sp_after_pushes(result, vals.drop_last());
    }
}

/// A byte that an instruction pushes comes back by the next pull, and the
/// stack pointer is where it was: for every byte, where the stack lies in
/// RAM, once the write of the push was committed, a pull reads the byte and
/// restores the stack pointer.
pub proof fn lemma_push_pull_round_trip<P: MemoryMappedDevice>(
    memory: Seq<SegmentModel<P::V>>,
    result: InstructionResultView,
    val: u8,
)
    requires
        map_wf(memory),
        in_ram(memory, stack_address(result.reg.sp)),
    ensures
        result.pushed(val).pulled().reg.sp == result.reg.sp,
        result.pushed(val).writes.last() == (Write {
            address: stack_address(result.reg.sp),
            value: val,
        }),
        map_read::<P>(
            map_write::<P>(memory, stack_address(result.reg.sp), val),
            stack_address(result.pushed(val).pulled().reg.sp),
        ).0 == val,
{
    lemma_ram_read_after_write::<P>(memory, stack_address(result.reg.sp), val);
}

} // verus!
