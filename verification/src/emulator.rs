//! A processor together with the program counter of the instruction that it
//! executed last, by which a host sees that a program has come to a halt in
//! a jump to itself.

use vstd::prelude::*;
use crate::cpu::{Cpu, CpuView, instruction_done_model, reset_model, step_model};
use crate::memory::{
    MemoryMap, MemoryMappedDevice, SteppedDevice, layout_of, map_is_passive, map_wf,
};
use crate::registers::RegistersView;
use crate::opcode::DecodeError;

verus! {

/// The model of an emulator.
pub struct EmulatorView<S> {
    pub cpu: CpuView<S>,
    pub last_pc: u16,
}

/// A processor that remembers where its last instruction stood.
pub struct Emulator<P> {
    cpu: Cpu<P>,
    last_pc: u16,
}

impl<P: MemoryMappedDevice> View for Emulator<P> {
    type V = EmulatorView<P::V>;

    closed spec fn view(&self) -> EmulatorView<P::V> {
        EmulatorView { cpu: self.cpu@, last_pc: self.last_pc }
    }
}

impl<P: MemoryMappedDevice> Emulator<P> {
    /// Whether the memory of the processor is in order.
    pub open spec fn wf(&self) -> bool {
        map_wf(self@.cpu.memory)
    }

    /// An emulator with a processor on the given memory map, reset.
    pub fn new(memory_map: MemoryMap<P>) -> (r: Emulator<P>)
        requires
            memory_map.wf(),
        ensures
            r.wf(),
            r@ == (EmulatorView {
                cpu: reset_model::<P>(
                    CpuView { registers: RegistersView::initial(), memory: memory_map@, cycle: 0 },
                ),
                last_pc: 0,
            }),
    {
        Emulator { cpu: Cpu::new(memory_map), last_pc: 0 }
    }

    /// The processor.
    pub fn cpu(&self) -> (r: &Cpu<P>)
        ensures
            r@ == self@.cpu,
            r.wf() == self.wf(),
    {
        &self.cpu
    }

    /// The processor, to be changed by the caller: the host reaches the
    /// memory and its devices through it.
    pub fn cpu_mut(&mut self) -> (r: &mut Cpu<P>)
        ensures
            r@ == old(self)@.cpu,
            final(self)@ == (EmulatorView { cpu: final(r)@, ..old(self)@ }),
    {
        &mut self.cpu
    }

    /// Whether the instruction that was executed last left the program
    /// counter where it stood itself.
    pub fn is_halted(&self) -> (r: bool)
        ensures
            r == (self@.last_pc == self@.cpu.registers.pc),
    {
        self.last_pc == self.cpu.registers().pc
    }

    /// Resets the processor.
    pub fn reset(&mut self)
        requires
            old(self).wf(),
        ensures
            final(self).wf(),
            final(self)@ == (EmulatorView { cpu: reset_model::<P>(old(self)@.cpu), last_pc: 0 }),
    {
        self.cpu.reset();
        self.last_pc = 0;
    }
}

impl<P: SteppedDevice<MemoryMap<P>>> Emulator<P> {
    /// Executes one instruction and steps the devices, as [`Cpu::step`] says,
    /// and remembers where the instruction stood.
    pub fn step(&mut self) -> (r: Result<usize, DecodeError>)
        requires
            old(self).wf(),
        ensures
            final(self).wf(),
            final(self)@.last_pc == old(self)@.cpu.registers.pc,
            (r, final(self)@.cpu) == step_model::<P>(old(self)@.cpu),
            layout_of(final(self)@.cpu.memory) == layout_of(old(self)@.cpu.memory),
            map_is_passive(old(self)@.cpu.memory) ==> (r, final(self)@.cpu)
                == instruction_done_model::<P>(old(self)@.cpu),
    {
        self.last_pc = self.cpu.registers().pc;
        self.cpu.step()
    }
}

} // verus!
