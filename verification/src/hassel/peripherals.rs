//! The two devices of the Hasseldorf computer behind one segment of the
//! memory map.

use vstd::prelude::*;
use crate::hassel::graphics_device::{GraphicsDevice, GraphicsModel};
use crate::hassel::io_device::{IODevice, IoModel};
use crate::memory::{InterruptType, MemoryBus, MemoryMappedDevice, SteppedDevice};

verus! {

/// The address of the register of the graphics device.
pub const GRAPHICS_REGISTER_ADDRESS: u16 = 0xDFFE;

/// The address of the register of the keyboard device.
pub const IO_REGISTER_ADDRESS: u16 = 0xDFFF;

/// The model of the two devices.
pub struct PeripheralsModel {
    pub graphics: GraphicsModel,
    pub io: IoModel,
}

/// The graphics device and the keyboard device, each behind its address.
pub struct Peripherals {
    pub graphics: GraphicsDevice,
    pub io: IODevice,
}

impl View for Peripherals {
    type V = PeripheralsModel;

    open spec fn view(&self) -> PeripheralsModel {
        PeripheralsModel { graphics: self.graphics@, io: self.io@ }
    }
}

impl Peripherals {
    pub fn new(graphics: GraphicsDevice, io: IODevice) -> (r: Peripherals)
        ensures
            r.graphics == graphics,
            r.io == io,
    {
        Peripherals { graphics: graphics, io: io }
    }
}

impl MemoryMappedDevice for Peripherals {
    open spec fn peek_model(state: PeripheralsModel, addr: u16) -> u8 {
        0
    }

    /// A read reaches the device whose register lies at the address; at any
    /// other address it returns 0 and changes nothing.
    open spec fn read_model(state: PeripheralsModel, addr: u16) -> (u8, PeripheralsModel) {
        if addr == GRAPHICS_REGISTER_ADDRESS {
            (
                GraphicsDevice::read_model(state.graphics, addr).0,
                PeripheralsModel {
                    graphics: GraphicsDevice::read_model(state.graphics, addr).1,
                    ..state
                },
            )
        } else if addr == IO_REGISTER_ADDRESS {
            (
                IODevice::read_model(state.io, addr).0,
                PeripheralsModel { io: IODevice::read_model(state.io, addr).1, ..state },
            )
        } else {
            (0, state)
        }
    }

    /// A write reaches the device whose register lies at the address; at any
    /// other address it changes nothing.
    open spec fn write_model(state: PeripheralsModel, addr: u16, val: u8) -> PeripheralsModel {
        if addr == GRAPHICS_REGISTER_ADDRESS {
            PeripheralsModel {
                graphics: GraphicsDevice::write_model(state.graphics, addr, val),
                ..state
            }
        } else if addr == IO_REGISTER_ADDRESS {
            PeripheralsModel { io: IODevice::write_model(state.io, addr, val), ..state }
        } else {
            state
        }
    }

    open spec fn needs_step() -> bool {
        true
    }

    fn read_byte(&self, _addr: u16) -> (r: u8) {
        0
    }

    fn read_byte_mut(&mut self, addr: u16) -> (r: u8) {
        if addr == GRAPHICS_REGISTER_ADDRESS {
            self.graphics.read_byte_mut(addr)
        } else if addr == IO_REGISTER_ADDRESS {
            self.io.read_byte_mut(addr)
        } else {
            0
        }
    }

    fn write_byte(&mut self, addr: u16, val: u8) {
        if addr == GRAPHICS_REGISTER_ADDRESS {
            self.graphics.write_byte(addr, val);
        } else if addr == IO_REGISTER_ADDRESS {
            self.io.write_byte(addr, val);
        }
    }

    fn requires_step(&self) -> (r: bool) {
        true
    }

}

impl<M: MemoryBus> SteppedDevice<M> for Peripherals {
    /// A step steps the graphics device, then the keyboard device. The
    /// interrupt of the keyboard device goes before that of the graphics
    /// device.
    open spec fn step_model(state: PeripheralsModel, memory: M::V) -> (
        Option<InterruptType>,
        PeripheralsModel,
        M::V,
    ) {
        let graphics = <GraphicsDevice as SteppedDevice<M>>::step_model(state.graphics, memory);
        let io = <IODevice as SteppedDevice<M>>::step_model(state.io, graphics.2);
        (
            if io.0 is Some {
                io.0
            } else {
                graphics.0
            },
            PeripheralsModel { graphics: graphics.1, io: io.1 },
            io.2,
        )
    }

    proof fn lemma_step_keeps_layout(state: PeripheralsModel, memory: M::V) {
        <GraphicsDevice as SteppedDevice<M>>::lemma_step_keeps_layout(state.graphics, memory);
    }

    fn step(&mut self, memory: &mut M) -> (r: Option<InterruptType>)
    {
        let graphics_interrupt: Option<InterruptType> = self.graphics.step(memory);
        let io_interrupt: Option<InterruptType> = self.io.step(memory);
        if io_interrupt.is_some() {
            io_interrupt
        } else {
            graphics_interrupt
        }
    }
}

} // verus!
