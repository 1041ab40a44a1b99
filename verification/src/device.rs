//! The devices behind the segments of a memory map: the interface that
//! every device has, and RAM, ROM and the null device.

use vstd::prelude::*;
use crate::bus::{DeviceKind, InterruptType, MemoryBus};

verus! {

/// Any device that is attached to the system bus, including (but not limited to):
///
/// * RAM
/// * ROM
/// * Graphics cards
/// * Sound cards
/// * IO devices
/// * Printers
///
/// A device answers to every address: the memory map hands it the addresses
/// of its own segment, and nothing else does any harm. What a device is, as
/// far as reads and writes go, is its view; the three model functions say
/// what each operation returns and leaves behind.
pub trait MemoryMappedDevice: View + Sized {
    /// What a debug read returns.
    spec fn peek_model(state: Self::V, addr: u16) -> u8;

    /// What a normal read returns, and the state that it leaves.
    spec fn read_model(state: Self::V, addr: u16) -> (u8, Self::V);

    /// The state that a write leaves.
    spec fn write_model(state: Self::V, addr: u16, val: u8) -> Self::V;

    /// Immutably reads a byte from the device. For RAM and ROM,
    /// this can just return that part of memory. For peripherals, however,
    /// this may not be able to return the actual value that the peripheral
    /// would ordinarily return. This method should only be used for debugging
    /// and introspection.
    fn read_byte(&self, addr: u16) -> (r: u8)
        ensures
            r == Self::peek_model(self@, addr),
    ;

    /// Mutably reads a byte from this device.
    /// There's a mutable read to support peripherals because
    /// reading their registers can cause a state change
    /// as an expected part of how the hardware behaves
    fn read_byte_mut(&mut self, addr: u16) -> (r: u8)
        ensures
            (r, final(self)@) == Self::read_model(old(self)@, addr),
    ;

    /// Writes a byte to this device
    fn write_byte(&mut self, addr: u16, val: u8)
        ensures
            final(self)@ == Self::write_model(old(self)@, addr, val),
    ;

    /// Whether devices of this type do anything in their step.
    spec fn needs_step() -> bool;

    /// Tells the MemoryMap whether or not this device actually
    /// does anything in its step method. This value is cached,
    /// so it is constant. This is merely an optimization.
    fn requires_step(&self) -> (r: bool)
        ensures
            r == Self::needs_step(),
    ;

}

/// A device that can be stepped in a system whose memory is an `M`.
///
/// The model function says what a step returns and what it leaves of the
/// device and of the memory. A device whose step does not depend on the kind
/// of memory implements this for every `M`.
pub trait SteppedDevice<M: MemoryBus>: MemoryMappedDevice {
    /// What a step returns, and what it leaves of the device and of the
    /// memory that the device reaches.
    spec fn step_model(state: Self::V, memory: M::V) -> (Option<InterruptType>, Self::V, M::V);

    /// A step leads from a valid memory to a valid memory of the same layout.
    proof fn lemma_step_keeps_layout(state: Self::V, memory: M::V)
        requires
            M::valid_model(memory),
        ensures
            M::valid_model(Self::step_model(state, memory).2),
            M::layout_model(Self::step_model(state, memory).2) == M::layout_model(memory),
    ;

    /// Provides a mechanism for the device to update itself
    /// that is called on every instruction execution. The device reaches the
    /// rest of the memory through `memory`, in which its own segment answers
    /// as a null device for as long as the step lasts.
    fn step(&mut self, memory: &mut M) -> (r: Option<InterruptType>)
        requires
            M::valid_model(old(memory)@),
        ensures
            (r, final(self)@, final(memory)@) == Self::step_model(old(self)@, old(memory)@),
            M::valid_model(final(memory)@),
            M::layout_model(final(memory)@) == M::layout_model(old(memory)@),
    ;
}

/// The model of a RAM or ROM device: the bytes it holds and the address of
/// the first of them.
pub struct BlockModel {
    pub start: u16,
    pub bytes: Seq<u8>,
}

impl BlockModel {
    /// How far an address lies behind the block's start, going round the
    /// 16-bit address space.
    pub open spec fn offset(self, addr: u16) -> int {
        addr.wrapping_sub(self.start) as int
    }

    /// Whether the block holds a byte for the address.
    pub open spec fn holds(self, addr: u16) -> bool {
        self.offset(addr) < self.bytes.len()
    }

    /// The byte at an address; 0 where the block holds none.
    pub open spec fn get(self, addr: u16) -> u8 {
        if self.holds(addr) {
            self.bytes[self.offset(addr)]
        } else {
            0
        }
    }

    /// The block with the byte at an address replaced; unchanged where it
    /// holds none.
    pub open spec fn set(self, addr: u16, val: u8) -> BlockModel {
        if self.holds(addr) {
            BlockModel { bytes: self.bytes.update(self.offset(addr), val), ..self }
        } else {
            self
        }
    }

    /// Whether the block backs the address range exactly.
    pub open spec fn fits(self, start: u16, end_inclusive: u16) -> bool {
        self.start == start && self.bytes.len() == end_inclusive - start + 1
    }
}

/// Random access memory device
pub struct RAMDevice {
    start: u16,
    memory: Vec<u8>,
}

impl View for RAMDevice {
    type V = BlockModel;

    closed spec fn view(&self) -> BlockModel {
        BlockModel { start: self.start, bytes: self.memory@ }
    }
}

impl RAMDevice {
    /// RAM of `size` zero bytes that answers from `start` on.
    pub fn new(start: u16, size: usize) -> (r: RAMDevice)
        ensures
            r@.start == start,
            r@.bytes == Seq::new(size as nat, |i: int| 0u8),
    {
        let memory = vec![0u8; size];
        assert(memory@ =~= Seq::new(size as nat, |i: int| 0u8));
        RAMDevice { start: start, memory: memory }
    }
}

impl MemoryMappedDevice for RAMDevice {
    open spec fn peek_model(state: BlockModel, addr: u16) -> u8 {
        state.get(addr)
    }

    open spec fn read_model(state: BlockModel, addr: u16) -> (u8, BlockModel) {
        (state.get(addr), state)
    }

    open spec fn write_model(state: BlockModel, addr: u16, val: u8) -> BlockModel {
        state.set(addr, val)
    }

    fn read_byte(&self, addr: u16) -> (r: u8) {
        let offset: usize = addr.wrapping_sub(self.start) as usize;
        if offset < self.memory.len() {
            self.memory[offset]
        } else {
            0
        }
    }

    fn read_byte_mut(&mut self, addr: u16) -> (r: u8) {
        self.read_byte(addr)
    }

    fn write_byte(&mut self, addr: u16, val: u8) {
        let offset: usize = addr.wrapping_sub(self.start) as usize;
        if offset < self.memory.len() {
            self.memory[offset] = val;
        }
    }

    open spec fn needs_step() -> bool {
        false
    }

    fn requires_step(&self) -> (r: bool) {
        false
    }

}

impl<M: MemoryBus> SteppedDevice<M> for RAMDevice {
    open spec fn step_model(state: BlockModel, memory: M::V) -> (Option<InterruptType>, BlockModel, M::V) {
        (None, state, memory)
    }

    proof fn lemma_step_keeps_layout(state: BlockModel, memory: M::V) {
    }

    fn step(&mut self, _memory: &mut M) -> (r: Option<InterruptType>) {
        None
    }
}

/// Readonly memory device
pub struct ROMDevice {
    start: u16,
    memory: Vec<u8>,
}

impl View for ROMDevice {
    type V = BlockModel;

    closed spec fn view(&self) -> BlockModel {
        BlockModel { start: self.start, bytes: self.memory@ }
    }
}

impl ROMDevice {
    /// ROM that holds `memory` and answers from `start` on.
    pub fn new(start: u16, memory: Vec<u8>) -> (r: ROMDevice)
        ensures
            r@.start == start,
            r@.bytes == memory@,
    {
        ROMDevice { start: start, memory: memory }
    }
}

impl MemoryMappedDevice for ROMDevice {
    open spec fn peek_model(state: BlockModel, addr: u16) -> u8 {
        state.get(addr)
    }

    open spec fn read_model(state: BlockModel, addr: u16) -> (u8, BlockModel) {
        (state.get(addr), state)
    }

    open spec fn write_model(state: BlockModel, addr: u16, val: u8) -> BlockModel {
        state
    }

    fn read_byte(&self, addr: u16) -> (r: u8) {
        let offset: usize = addr.wrapping_sub(self.start) as usize;
        if offset < self.memory.len() {
            self.memory[offset]
        } else {
            0
        }
    }

    fn read_byte_mut(&mut self, addr: u16) -> (r: u8) {
        self.read_byte(addr)
    }

    fn write_byte(&mut self, _addr: u16, _val: u8) {
    }

    open spec fn needs_step() -> bool {
        false
    }

    fn requires_step(&self) -> (r: bool) {
        false
    }

}

impl<M: MemoryBus> SteppedDevice<M> for ROMDevice {
    open spec fn step_model(state: BlockModel, memory: M::V) -> (Option<InterruptType>, BlockModel, M::V) {
        (None, state, memory)
    }

    proof fn lemma_step_keeps_layout(state: BlockModel, memory: M::V) {
    }

    fn step(&mut self, _memory: &mut M) -> (r: Option<InterruptType>) {
        None
    }
}

/// The device that stands in for one that is being stepped: it reads as 0
/// and ignores writes.
pub struct NullDevice {}

impl View for NullDevice {
    type V = ();

    open spec fn view(&self) -> () {
        ()
    }
}

impl NullDevice {
    pub fn new() -> NullDevice {
        NullDevice {  }
    }
}

impl MemoryMappedDevice for NullDevice {
    open spec fn peek_model(state: (), addr: u16) -> u8 {
        0
    }

    open spec fn read_model(state: (), addr: u16) -> (u8, ()) {
        (0, ())
    }

    open spec fn write_model(state: (), addr: u16, val: u8) -> () {
        ()
    }

    fn read_byte(&self, _addr: u16) -> (r: u8) {
        0
    }

    fn read_byte_mut(&mut self, _addr: u16) -> (r: u8) {
        0
    }

    fn write_byte(&mut self, _addr: u16, _val: u8) {
    }

    open spec fn needs_step() -> bool {
        false
    }

    fn requires_step(&self) -> (r: bool) {
        false
    }

}

impl<M: MemoryBus> SteppedDevice<M> for NullDevice {
    open spec fn step_model(state: (), memory: M::V) -> (Option<InterruptType>, (), M::V) {
        (None, (), memory)
    }

    proof fn lemma_step_keeps_layout(state: (), memory: M::V) {
    }

    fn step(&mut self, _memory: &mut M) -> (r: Option<InterruptType>) {
        None
    }
}

/// A device as the memory map holds it: RAM, ROM, the null device, or a
/// peripheral of the system's own kind.
pub enum Device<P> {
    Ram(RAMDevice),
    Rom(ROMDevice),
    Null(NullDevice),
    Peripheral(P),
}

/// The model of a device in the memory map.
pub enum DeviceModel<S> {
    Ram(BlockModel),
    Rom(BlockModel),
    Null,
    Peripheral(S),
}

impl<P: MemoryMappedDevice> View for Device<P> {
    type V = DeviceModel<P::V>;

    open spec fn view(&self) -> DeviceModel<P::V> {
        match self {
            Device::Ram(ram) => DeviceModel::Ram(ram@),
            Device::Rom(rom) => DeviceModel::Rom(rom@),
            Device::Null(_) => DeviceModel::Null,
            Device::Peripheral(p) => DeviceModel::Peripheral(p@),
        }
    }
}

impl<S> DeviceModel<S> {
    /// The kind of the device, which no read, write or step changes.
    pub open spec fn kind(self) -> DeviceKind {
        match self {
            DeviceModel::Ram(_) => DeviceKind::Ram,
            DeviceModel::Rom(rom) => DeviceKind::Rom(rom.bytes),
            DeviceModel::Null => DeviceKind::Null,
            DeviceModel::Peripheral(_) => DeviceKind::Peripheral,
        }
    }
}

/// What a debug read of a device returns.
pub open spec fn device_peek<P: MemoryMappedDevice>(device: DeviceModel<P::V>, addr: u16) -> u8 {
    match device {
        DeviceModel::Ram(ram) => ram.get(addr),
        DeviceModel::Rom(rom) => rom.get(addr),
        DeviceModel::Null => 0,
        DeviceModel::Peripheral(state) => P::peek_model(state, addr),
    }
}

/// What a normal read of a device returns, and the device after it. Only a
/// peripheral can change by being read.
pub open spec fn device_read<P: MemoryMappedDevice>(device: DeviceModel<P::V>, addr: u16) -> (
    u8,
    DeviceModel<P::V>,
) {
    match device {
        DeviceModel::Ram(ram) => (ram.get(addr), device),
        DeviceModel::Rom(rom) => (rom.get(addr), device),
        DeviceModel::Null => (0, device),
        DeviceModel::Peripheral(state) => (
            P::read_model(state, addr).0,
            DeviceModel::Peripheral(P::read_model(state, addr).1),
        ),
    }
}

/// The device after a write. RAM takes the byte, ROM and the null device
/// ignore it, a peripheral does what its model says.
pub open spec fn device_write<P: MemoryMappedDevice>(
    device: DeviceModel<P::V>,
    addr: u16,
    val: u8,
) -> DeviceModel<P::V> {
    match device {
        DeviceModel::Ram(ram) => DeviceModel::Ram(ram.set(addr, val)),
        DeviceModel::Rom(_) => device,
        DeviceModel::Null => device,
        DeviceModel::Peripheral(state) => DeviceModel::Peripheral(
            P::write_model(state, addr, val),
        ),
    }
}

impl<P: MemoryMappedDevice> Device<P> {
    /// Reads a byte without changing the device.
    pub fn read_byte(&self, addr: u16) -> (r: u8)
        ensures
            r == device_peek::<P>(self@, addr),
    {
        match self {
            Device::Ram(ram) => ram.read_byte(addr),
            Device::Rom(rom) => rom.read_byte(addr),
            Device::Null(null) => null.read_byte(addr),
            Device::Peripheral(p) => p.read_byte(addr),
        }
    }

    /// Reads a byte as the processor does; a peripheral may change by it.
    pub fn read_byte_mut(&mut self, addr: u16) -> (r: u8)
        ensures
            (r, final(self)@) == device_read::<P>(old(self)@, addr),
    {
        match self {
            Device::Ram(ram) => ram.read_byte_mut(addr),
            Device::Rom(rom) => rom.read_byte_mut(addr),
            Device::Null(null) => null.read_byte_mut(addr),
            Device::Peripheral(p) => p.read_byte_mut(addr),
        }
    }

    /// Writes a byte to the device.
    pub fn write_byte(&mut self, addr: u16, val: u8)
        ensures
            final(self)@ == device_write::<P>(old(self)@, addr, val),
    {
        match self {
            Device::Ram(ram) => ram.write_byte(addr, val),
            Device::Rom(rom) => rom.write_byte(addr, val),
            Device::Null(null) => null.write_byte(addr, val),
            Device::Peripheral(p) => p.write_byte(addr, val),
        }
    }

    /// Whether the device does anything in its step: RAM, ROM and the null
    /// device never do.
    pub fn requires_step(&self) -> (r: bool)
        ensures
            r == (self is Peripheral && P::needs_step()),
    {
        match self {
            Device::Ram(ram) => ram.requires_step(),
            Device::Rom(rom) => rom.requires_step(),
            Device::Null(null) => null.requires_step(),
            Device::Peripheral(p) => p.requires_step(),
        }
    }
}

} // verus!
