//! The register file of the 6502.

use vstd::prelude::*;
use crate::register_status::{RegisterStatus, StatusFlags};

verus! {

pub const REG_SP_INIT: u8 = 0xFF;

/// The model of a register file: the six registers, with the status word
/// unpacked into its flags.
pub struct RegistersView {
    pub a: u8,
    pub x: u8,
    pub y: u8,
    pub pc: u16,
    pub sp: u8,
    pub status: StatusFlags,
}

/// Holds all of the 6502 register values
#[derive(Copy, Clone)]
pub struct Registers {
    /// Accumulator
    pub a: u8,
    /// X Register
    pub x: u8,
    /// Y Register
    pub y: u8,
    /// Program counter
    pub pc: u16,
    /// Stack pointer
    pub sp: u8,
    /// Status register
    pub status: RegisterStatus,
}

impl View for Registers {
    type V = RegistersView;

    open spec fn view(&self) -> RegistersView {
        RegistersView {
            a: self.a,
            x: self.x,
            y: self.y,
            pc: self.pc,
            sp: self.sp,
            status: self.status@,
        }
    }
}

impl RegistersView {
    /// The registers after power-on: everything zero but the stack pointer,
    /// which is at the top of page 1.
    pub open spec fn initial() -> RegistersView {
        RegistersView { a: 0, x: 0, y: 0, pc: 0, sp: REG_SP_INIT, status: StatusFlags::cleared() }
    }

    /// The registers after the accumulator took `val`: N and Z follow it.
    pub open spec fn with_a(self, val: u8) -> RegistersView {
        RegistersView { a: val, status: self.status.with_nz(val), ..self }
    }

    /// The registers after X took `val`: N and Z follow it.
    pub open spec fn with_x(self, val: u8) -> RegistersView {
        RegistersView { x: val, status: self.status.with_nz(val), ..self }
    }

    /// The registers after Y took `val`: N and Z follow it.
    pub open spec fn with_y(self, val: u8) -> RegistersView {
        RegistersView { y: val, status: self.status.with_nz(val), ..self }
    }
}

impl Registers {
    /// Creates a new register set
    pub fn new() -> (r: Registers)
        ensures
            r@ == RegistersView::initial(),
    {
        Registers { a: 0, x: 0, y: 0, pc: 0, sp: REG_SP_INIT, status: RegisterStatus::new() }
    }

    /// Sets the accumulator and also updates the status flag based on its value
    #[inline]
    pub fn set_reg_a(&mut self, val: u8)
        ensures
            final(self)@ == old(self)@.with_a(val),
    {
        self.a = val;
        self.status.set_nz_from(val);
    }

    /// Sets the X register and also updates the status flag based on its value
    #[inline]
    pub fn set_reg_x(&mut self, val: u8)
        ensures
            final(self)@ == old(self)@.with_x(val),
    {
        self.x = val;
        self.status.set_nz_from(val);
    }

    /// Sets the Y register and also updates the status flag based on its value
    #[inline]
    pub fn set_reg_y(&mut self, val: u8)
        ensures
            final(self)@ == old(self)@.with_y(val),
    {
        self.y = val;
        self.status.set_nz_from(val);
    }
}

} // verus!
