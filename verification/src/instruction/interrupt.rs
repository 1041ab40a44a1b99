//! The software interrupt: BRK.

use vstd::prelude::*;
use crate::instruction::common::{high_byte, low_byte, push, spec_high_byte, spec_low_byte};
use crate::instruction::executor::{InstructionResult, InstructionResultView};
use crate::memory::{MemoryBus, read_word, read_word_model};
use crate::opcode::{OpAddressMode, OpParam};
use crate::register_status::StatusFlags;
use crate::registers::{Registers, RegistersView};

verus! {

/// The address of the word that BRK jumps through.
pub const BRK_VECTOR: u16 = 0xFFFE;

/// BRK: pushes the address behind the byte that follows the opcode, high byte
/// first, then the status word with bit 4 set; sets the BRK flag; and jumps
/// through the vector at 0xFFFE.
pub open spec fn brk_model<M: MemoryBus>(
    mode: OpAddressMode,
    param: OpParam,
    reg: RegistersView,
    state: M::V,
    result: InstructionResultView,
) -> (InstructionResultView, M::V) {
    let return_to = reg.pc.wrapping_add(1);
    let pushed = result.pushed(spec_high_byte(return_to)).pushed(spec_low_byte(return_to)).pushed(
        (StatusFlags { brk: true, ..reg.status }).byte(),
    );
    let (target, after) = read_word_model::<M>(state, BRK_VECTOR);
    (
        pushed.with_reg(
            RegistersView {
                pc: target,
                status: StatusFlags { brk: true, ..pushed.reg.status },
                ..pushed.reg
            },
        ),
        after,
    )
}

/// BRK: forces an interrupt.
pub fn execute_brk<M: MemoryBus>(
    mode: OpAddressMode,
    params: &OpParam,
    reg: &Registers,
    memory: &mut M,
    result: InstructionResult,
) -> (r: InstructionResult)
    requires
        M::valid_model(old(memory)@),
        result.has_room(),
    ensures
        (r@, final(memory)@) == brk_model::<M>(mode, *params, reg@, old(memory)@, result@),
        M::valid_model(final(memory)@),
        M::layout_model(final(memory)@) == M::layout_model(old(memory)@),
{
    let mut result = result;
    let reg_pc: u16 = reg.pc.wrapping_add(1);
    let reg_status: u8 = reg.status.value_with_brk();
    result = push(result, high_byte(reg_pc));
    result = push(result, low_byte(reg_pc));
    result = push(result, reg_status);

    result.reg.status.set_brk(true);
    result.reg.pc = read_word(memory, BRK_VECTOR);
    result
}

} // verus!
