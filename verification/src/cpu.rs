//! The processor: the registers, the memory map, and the step that executes
//! one instruction, commits what it leaves, steps the devices and delivers
//! the interrupt that they ask for.

use vstd::prelude::*;
use crate::instruction::common::{
    high_byte, low_byte, spec_high_byte, spec_low_byte, stack_address, STACK_ADDR,
};
use crate::instruction::executor::{Executor, InstructionResult, Write, execute_model};
use crate::memory::{
    InterruptType, MemoryBus, MemoryMap, MemoryMappedDevice, SegmentModel, SteppedDevice,
    layout_of, lemma_passive_step, lemma_write_keeps_layout, map_is_passive, map_step, map_wf,
    map_write, read_word, read_word_model,
};
use crate::opcode::DecodeError;
use crate::register_status::StatusFlags;
use crate::registers::{Registers, RegistersView};

verus! {

/// The address of the word that a non-maskable interrupt jumps through.
pub const NMI_VECTOR: u16 = 0xFFFA;

/// The address of the word that a reset jumps through.
pub const RESET_VECTOR: u16 = 0xFFFC;

/// The address of the word that a maskable interrupt jumps through.
pub const IRQ_VECTOR: u16 = 0xFFFE;

/// The model of a processor: its registers, its memory, and the cycles that
/// it has counted, which go round at the end of `usize`.
pub struct CpuView<S> {
    pub registers: RegistersView,
    pub memory: Seq<SegmentModel<S>>,
    pub cycle: usize,
}

/// The MOS 6502 CPU emulator
pub struct Cpu<P> {
    registers: Registers,
    memory: MemoryMap<P>,
    cycle: usize,
    executor: Executor,
}

impl<P: MemoryMappedDevice> View for Cpu<P> {
    type V = CpuView<P::V>;

    closed spec fn view(&self) -> CpuView<P::V> {
        CpuView { registers: self.registers@, memory: self.memory@, cycle: self.cycle }
    }
}

/// The memory after the writes of an instruction were made, in their order.
pub open spec fn committed<P: MemoryMappedDevice>(
    memory: Seq<SegmentModel<P::V>>,
    writes: Seq<Write>,
) -> Seq<SegmentModel<P::V>>
    decreases writes.len(),
{
    if writes.len() == 0 {
        memory
    } else {
        map_write::<P>(
            committed::<P>(memory, writes.drop_last()),
            writes.last().address,
            writes.last().value,
        )
    }
}

/// Committing writes leads from a well-formed map to a well-formed map of the
/// same layout.
pub proof fn lemma_committed_keeps_layout<P: MemoryMappedDevice>(
    memory: Seq<SegmentModel<P::V>>,
    writes: Seq<Write>,
)
    requires
        map_wf(memory),
    ensures
        map_wf(committed::<P>(memory, writes)),
        layout_of(committed::<P>(memory, writes)) == layout_of(memory),
    decreases writes.len(),
{
    if writes.len() > 0 {
        lemma_committed_keeps_layout::<P>(memory, writes.drop_last());
        lemma_write_keeps_layout::<P>(
            committed::<P>(memory, writes.drop_last()),
            writes.last().address,
            writes.last().value,
        );
    }
}

impl<S> CpuView<S> {
    /// The processor with other registers.
    pub open spec fn with_registers(self, registers: RegistersView) -> CpuView<S> {
        CpuView { registers: registers, ..self }
    }

    /// The processor with another memory.
    pub open spec fn with_memory(self, memory: Seq<SegmentModel<S>>) -> CpuView<S> {
        CpuView { memory: memory, ..self }
    }
}

/// The processor after a reset: the program counter holds the word at the
/// reset vector, and the interrupt-inhibit flag is set.
pub open spec fn reset_model<P: MemoryMappedDevice>(cpu: CpuView<P::V>) -> CpuView<P::V> {
    let (entry_point, memory) = read_word_model::<MemoryMap<P>>(cpu.memory, RESET_VECTOR);
    CpuView {
        registers: RegistersView {
            pc: entry_point,
            status: StatusFlags { interrupt_inhibit: true, ..cpu.registers.status },
            ..cpu.registers
        },
        memory: memory,
        ..cpu
    }
}

/// The processor after one byte was pushed: written to the address that the
/// stack pointer points to, the stack pointer one lower.
pub open spec fn push_model<P: MemoryMappedDevice>(cpu: CpuView<P::V>, val: u8) -> CpuView<P::V> {
    CpuView {
        registers: RegistersView { sp: cpu.registers.sp.wrapping_sub(1), ..cpu.registers },
        memory: map_write::<P>(cpu.memory, stack_address(cpu.registers.sp), val),
        ..cpu
    }
}

/// The processor after the entry into an interrupt handler: the program
/// counter was pushed, high byte first, then the status word, and the program
/// counter holds the address of the handler.
pub open spec fn interrupt_model<P: MemoryMappedDevice>(
    cpu: CpuView<P::V>,
    handler_address: u16,
) -> CpuView<P::V> {
    let pushed = push_model::<P>(
        push_model::<P>(
            push_model::<P>(cpu, spec_high_byte(cpu.registers.pc)),
            spec_low_byte(cpu.registers.pc),
        ),
        cpu.registers.status.byte(),
    );
    pushed.with_registers(RegistersView { pc: handler_address, ..pushed.registers })
}

/// The processor after a request for an interrupt through the vector at
/// `vector`: the word there is read, and the handler is entered.
pub open spec fn vectored_model<P: MemoryMappedDevice>(
    cpu: CpuView<P::V>,
    vector: u16,
) -> CpuView<P::V> {
    let (handler_address, memory) = read_word_model::<MemoryMap<P>>(cpu.memory, vector);
    interrupt_model::<P>(cpu.with_memory(memory), handler_address)
}

/// The processor after an interrupt that a device asked for, or none, was
/// dealt with: a non-maskable one is always delivered, a maskable one only
/// while the interrupt-inhibit flag is clear.
pub open spec fn delivered_model<P: MemoryMappedDevice>(
    cpu: CpuView<P::V>,
    interrupt: Option<InterruptType>,
) -> CpuView<P::V> {
    match interrupt {
        Some(InterruptType::Maskable) => {
            if cpu.registers.status.interrupt_inhibit {
                cpu
            } else {
                vectored_model::<P>(cpu, IRQ_VECTOR)
            }
        },
        Some(InterruptType::NonMaskable) => vectored_model::<P>(cpu, NMI_VECTOR),
        None => cpu,
    }
}

/// The processor after one instruction was executed and what it left was
/// committed: the registers are those of the result, the writes were made in
/// their order, and the cycles were counted. Where the byte at the program
/// counter is no opcode, only the memory can have changed, by the read of
/// that byte.
pub open spec fn instruction_done_model<P: MemoryMappedDevice>(cpu: CpuView<P::V>) -> (
    Result<usize, DecodeError>,
    CpuView<P::V>,
) {
    let (outcome, memory) = execute_model::<MemoryMap<P>>(cpu.registers, cpu.memory);
    match outcome {
        Ok(result) => (
            Ok(result.cycles as usize),
            CpuView {
                registers: result.reg,
                memory: committed::<P>(memory, result.writes),
                cycle: cpu.cycle.wrapping_add(result.cycles as usize),
            },
        ),
        Err(error) => (Err(error), cpu.with_memory(memory)),
    }
}

impl<P: MemoryMappedDevice> Cpu<P> {
    /// Whether the memory of the processor is in order.
    pub open spec fn wf(&self) -> bool {
        map_wf(self@.memory)
    }

    /// Creates a new CPU with the given memory map
    pub fn new(memory: MemoryMap<P>) -> (r: Cpu<P>)
        requires
            memory.wf(),
        ensures
            r.wf(),
            r@ == reset_model::<P>(
                CpuView { registers: RegistersView::initial(), memory: memory@, cycle: 0 },
            ),
    {
        let mut cpu = Cpu {
            registers: Registers::new(),
            memory: memory,
            cycle: 0,
            executor: Executor::new(),
        };

        cpu.reset();
        cpu
    }

    /// Resets the CPU. This will set the program counter to the
    /// value found at the reset vector at address 0xFFFC. This is called
    /// on construction, so you should only need to call it again after
    /// construction if you want to reset, or if you modify memory that
    /// the reset vector points too after constructing.
    pub fn reset(&mut self)
        requires
            old(self).wf(),
        ensures
            final(self).wf(),
            final(self)@ == reset_model::<P>(old(self)@),
            layout_of(final(self)@.memory) == layout_of(old(self)@.memory),
    {
        let entry_point: u16 = read_word(&mut self.memory, RESET_VECTOR);
        self.registers.pc = entry_point;
        self.registers.status.set_interrupt_inhibit(true);
    }

    /// Returns all of the registers
    pub fn registers(&self) -> (r: &Registers)
        ensures
            r@ == self@.registers,
    {
        &self.registers
    }

    /// Returns the memory map
    pub fn memory(&self) -> (r: &MemoryMap<P>)
        ensures
            r@ == self@.memory,
    {
        &self.memory
    }

    /// Returns the memory map mutably
    pub fn memory_mut(&mut self) -> (r: &mut MemoryMap<P>)
        ensures
            r@ == old(self)@.memory,
            final(self)@ == old(self)@.with_memory(final(r)@),
    {
        &mut self.memory
    }

    /// Requests a maskable interrupt and returns true if
    /// the interrupt wasn't masked
    pub fn request_interrupt(&mut self) -> (r: bool)
        requires
            old(self).wf(),
        ensures
            final(self).wf(),
            r == !old(self)@.registers.status.interrupt_inhibit,
            final(self)@ == delivered_model::<P>(old(self)@, Some(InterruptType::Maskable)),
            layout_of(final(self)@.memory) == layout_of(old(self)@.memory),
    {
        if !self.registers.status.interrupt_inhibit() {
            let interrupt_addr: u16 = read_word(&mut self.memory, IRQ_VECTOR);
            self.interrupt(interrupt_addr);
            true
        } else {
            false
        }
    }

    /// Requests a non-maskable interrupt
    pub fn request_non_maskable_interrupt(&mut self)
        requires
            old(self).wf(),
        ensures
            final(self).wf(),
            final(self)@ == delivered_model::<P>(old(self)@, Some(InterruptType::NonMaskable)),
            layout_of(final(self)@.memory) == layout_of(old(self)@.memory),
    {
        let nmi_addr: u16 = read_word(&mut self.memory, NMI_VECTOR);
        self.interrupt(nmi_addr);
    }

    /// Deals with the interrupt that the devices asked for in a step, if
    /// they asked for one.
    pub fn deliver(&mut self, interrupt: Option<InterruptType>)
        requires
            old(self).wf(),
        ensures
            final(self).wf(),
            final(self)@ == delivered_model::<P>(old(self)@, interrupt),
            layout_of(final(self)@.memory) == layout_of(old(self)@.memory),
    {
        match interrupt {
            Some(InterruptType::Maskable) => {
                self.request_interrupt();
            },
            Some(InterruptType::NonMaskable) => {
                self.request_non_maskable_interrupt();
            },
            None => {},
        }
    }

    /// Executes a single instruction and commits what it leaves: the
    /// registers, the writes in their order, the cycles. Returns the cycles
    /// that the instruction took. The devices are not stepped.
    pub fn execute(&mut self) -> (r: Result<usize, DecodeError>)
        requires
            old(self).wf(),
        ensures
            final(self).wf(),
            (r, final(self)@) == instruction_done_model::<P>(old(self)@),
            layout_of(final(self)@.memory) == layout_of(old(self)@.memory),
    {
        let result = InstructionResult::new();
        let result = match self.executor.execute_instruction(
            &self.registers,
            &mut self.memory,
            result,
        ) {
            Ok(result) => result,
            Err(error) => {
                return Err(error);
            },
        };
        let ghost fetched = self.memory@;
        let n: usize = result.writes.len();
        let mut i: usize = 0;
        proof {
            assert(result.writes@.take(0) =~= Seq::<Write>::empty());
        }
        while i < n
            invariant
                i <= n,
                n == result.writes.len(),
                map_wf(fetched),
                self.memory.wf(),
                self.memory@ == committed::<P>(fetched, result.writes@.take(i as int)),
                layout_of(self.memory@) == layout_of(fetched),
                self.registers == old(self).registers,
                self.cycle == old(self).cycle,
            decreases n - i,
        {
            let write: Write = result.writes[i];
            proof {
                let next = result.writes@.take(i as int + 1);
                assert(next.drop_last() =~= result.writes@.take(i as int));
                assert(next.last() == write);
            }
            self.memory.write_byte(write.address, write.value);
            i += 1;
        }
        proof {
            assert(result.writes@.take(n as int) =~= result.writes@);
        }

        self.registers = result.reg;
        self.cycle = self.cycle.wrapping_add(result.cycles);
        Ok(result.cycles)
    }

    #[inline]
    fn push(&mut self, registers: &mut Registers, val: u8)
        requires
            old(self).wf(),
        ensures
            final(self).wf(),
            final(self)@.memory == map_write::<P>(
                old(self)@.memory,
                stack_address(old(registers).sp),
                val,
            ),
            final(self)@.registers == old(self)@.registers,
            final(self)@.cycle == old(self)@.cycle,
            final(registers)@ == (RegistersView {
                sp: old(registers).sp.wrapping_sub(1),
                ..old(registers)@
            }),
            layout_of(final(self)@.memory) == layout_of(old(self)@.memory),
    {
        self.memory.write_byte(STACK_ADDR + registers.sp as u16, val);
        registers.sp = registers.sp.wrapping_sub(1);
    }

    fn interrupt(&mut self, handler_address: u16)
        requires
            old(self).wf(),
        ensures
            final(self).wf(),
            final(self)@ == interrupt_model::<P>(old(self)@, handler_address),
            layout_of(final(self)@.memory) == layout_of(old(self)@.memory),
    {
        let mut registers = self.registers;
        let cur_pc: u16 = registers.pc;
        let cur_status: u8 = registers.status.value();
        self.push(&mut registers, high_byte(cur_pc));
        self.push(&mut registers, low_byte(cur_pc));
        self.push(&mut registers, cur_status);
        registers.pc = handler_address;
        self.registers = registers;
    }
}

/// The processor after a step: the instruction is executed and committed,
/// then the devices are stepped, and the interrupt that they ask for is
/// dealt with. The cycles are those of the instruction: the interrupt
/// sequence is not counted. Where the byte at the program counter is no
/// opcode, the devices are not stepped.
pub open spec fn step_model<P: SteppedDevice<MemoryMap<P>>>(cpu: CpuView<P::V>) -> (
    Result<usize, DecodeError>,
    CpuView<P::V>,
) {
    let (outcome, done) = instruction_done_model::<P>(cpu);
    match outcome {
        Ok(_) => {
            let (interrupt, memory) = map_step::<P>(done.memory);
            (outcome, delivered_model::<P>(done.with_memory(memory), interrupt))
        },
        Err(_) => (outcome, done),
    }
}

impl<P: SteppedDevice<MemoryMap<P>>> Cpu<P> {
    /// Executes a single instruction on the CPU.
    /// Also steps any peripheral devices attached to
    /// the memory map.
    ///
    /// The instruction is executed and committed as [`Cpu::execute`] says;
    /// then the devices are stepped, and the interrupt that they ask for is
    /// dealt with as [`Cpu::deliver`] says. Returns the cycles of the
    /// instruction.
    pub fn step(&mut self) -> (r: Result<usize, DecodeError>)
        requires
            old(self).wf(),
        ensures
            final(self).wf(),
            (r, final(self)@) == step_model::<P>(old(self)@),
            layout_of(final(self)@.memory) == layout_of(old(self)@.memory),
            map_is_passive(old(self)@.memory) ==> (r, final(self)@) == instruction_done_model::<P>(
                old(self)@,
            ),
    {
        let cycles: usize = match self.execute() {
            Ok(cycles) => cycles,
            Err(error) => {
                return Err(error);
            },
        };
        proof {
            lemma_passive_by_layout(old(self)@.memory, self@.memory);
            if map_is_passive(self@.memory) {
                lemma_passive_step::<P>(self@.memory, 0, None);
            }
        }
        let interrupt: Option<InterruptType> = self.memory.step();
        self.deliver(interrupt);
        Ok(cycles)
    }
}

/// Whether a device is ever stepped goes by the layout alone.
pub proof fn lemma_passive_by_layout<S>(before: Seq<SegmentModel<S>>, after: Seq<SegmentModel<S>>)
    requires
        layout_of(after) == layout_of(before),
    ensures
        map_is_passive(after) == map_is_passive(before),
{
    assert(layout_of(after).len() == after.len());
    assert(layout_of(before).len() == before.len());
    assert forall|i: int| 0 <= i < before.len() implies (#[trigger] before[i]).requires_step
        == after[i].requires_step by {
        assert(layout_of(before)[i] == before[i].layout());
        assert(layout_of(after)[i] == after[i].layout());
    }
    if map_is_passive(before) {
        assert forall|i: int| 0 <= i < after.len() implies !(#[trigger] after[i]).requires_step by {
            assert(before[i].requires_step == after[i].requires_step);
        }
    }
    if map_is_passive(after) {
        assert forall|i: int| 0 <= i < before.len() implies !(#[trigger] before[i]).requires_step by {
            assert(before[i].requires_step == after[i].requires_step);
        }
    }
}

} // verus!
