//! The processor status word P and its seven flags.
//!
//! P is kept packed in one byte. Bit 5 has no flag behind it and always reads
//! as 1. The model of a status word is [`StatusFlags`], seven booleans; the
//! packed byte is a function of them.

use vstd::prelude::*;

verus! {

pub const MASK_NEGATIVE: u8 = 0x80;

pub const MASK_OVERFLOW: u8 = 0x40;

pub const MASK_BIT_5: u8 = 0x20;

pub const MASK_BRK: u8 = 0x10;

pub const MASK_DECIMAL: u8 = 0x08;

pub const MASK_INTERRUPT_INHIBIT: u8 = 0x04;

pub const MASK_ZERO: u8 = 0x02;

pub const MASK_CARRY: u8 = 0x01;

/// The flags of a status word, one boolean each.
pub struct StatusFlags {
    pub negative: bool,
    pub overflow: bool,
    pub brk: bool,
    pub decimal: bool,
    pub interrupt_inhibit: bool,
    pub zero: bool,
    pub carry: bool,
}

impl StatusFlags {
    /// All flags clear.
    pub open spec fn cleared() -> StatusFlags {
        StatusFlags {
            negative: false,
            overflow: false,
            brk: false,
            decimal: false,
            interrupt_inhibit: false,
            zero: false,
            carry: false,
        }
    }

    /// The packed byte: each flag weighs its bit, and bit 5 is always there.
    pub open spec fn byte(self) -> u8 {
        (0x20 + (if self.negative { 0x80int } else { 0 }) + (if self.overflow { 0x40int } else { 0 })
            + (if self.brk { 0x10int } else { 0 }) + (if self.decimal { 0x08int } else { 0 }) + (
        if self.interrupt_inhibit { 0x04int } else { 0 }) + (if self.zero { 0x02int } else { 0 })
            + (if self.carry { 0x01int } else { 0 })) as u8
    }

    /// The flags that a byte holds; its bit 5 is not a flag and is ignored.
    pub open spec fn from_byte(v: u8) -> StatusFlags {
        StatusFlags {
            negative: v >= 0x80,
            overflow: (v / 0x40) % 2 == 1,
            brk: (v / 0x10) % 2 == 1,
            decimal: (v / 0x08) % 2 == 1,
            interrupt_inhibit: (v / 0x04) % 2 == 1,
            zero: (v / 0x02) % 2 == 1,
            carry: v % 2 == 1,
        }
    }

    /// The flags with N and Z taken from a result byte: N is its bit 7, Z
    /// says that it is zero.
    pub open spec fn with_nz(self, val: u8) -> StatusFlags {
        StatusFlags { negative: val >= 0x80, zero: val == 0, ..self }
    }

    /// The flag that a single-bit mask selects; false for any other mask.
    pub open spec fn get(self, bit_mask: u8) -> bool {
        if bit_mask == MASK_NEGATIVE {
            self.negative
        } else if bit_mask == MASK_OVERFLOW {
            self.overflow
        } else if bit_mask == MASK_BRK {
            self.brk
        } else if bit_mask == MASK_DECIMAL {
            self.decimal
        } else if bit_mask == MASK_INTERRUPT_INHIBIT {
            self.interrupt_inhibit
        } else if bit_mask == MASK_ZERO {
            self.zero
        } else if bit_mask == MASK_CARRY {
            self.carry
        } else {
            false
        }
    }

    /// The flags with the one that a single-bit mask selects replaced.
    pub open spec fn set(self, bit_mask: u8, value: bool) -> StatusFlags {
        if bit_mask == MASK_NEGATIVE {
            StatusFlags { negative: value, ..self }
        } else if bit_mask == MASK_OVERFLOW {
            StatusFlags { overflow: value, ..self }
        } else if bit_mask == MASK_BRK {
            StatusFlags { brk: value, ..self }
        } else if bit_mask == MASK_DECIMAL {
            StatusFlags { decimal: value, ..self }
        } else if bit_mask == MASK_INTERRUPT_INHIBIT {
            StatusFlags { interrupt_inhibit: value, ..self }
        } else if bit_mask == MASK_ZERO {
            StatusFlags { zero: value, ..self }
        } else if bit_mask == MASK_CARRY {
            StatusFlags { carry: value, ..self }
        } else {
            self
        }
    }
}

/// Whether a mask selects exactly one of the seven flags.
pub open spec fn is_flag_mask(bit_mask: u8) -> bool {
    bit_mask == MASK_NEGATIVE || bit_mask == MASK_OVERFLOW || bit_mask == MASK_BRK || bit_mask
        == MASK_DECIMAL || bit_mask == MASK_INTERRUPT_INHIBIT || bit_mask == MASK_ZERO || bit_mask
        == MASK_CARRY
}

/// Packing and unpacking are inverse to each other on bytes with bit 5 set,
/// and testing or replacing one bit of the byte tests or replaces one flag.
proof fn lemma_status_bits(v: u8)
    by (bit_vector)
    ensures
        v & 0x80 != 0 <==> v >= 0x80,
        v & 0x40 != 0 <==> (v / 0x40) % 2 == 1,
        v & 0x20 != 0 <==> (v / 0x20) % 2 == 1,
        v & 0x10 != 0 <==> (v / 0x10) % 2 == 1,
        v & 0x08 != 0 <==> (v / 0x08) % 2 == 1,
        v & 0x04 != 0 <==> (v / 0x04) % 2 == 1,
        v & 0x02 != 0 <==> (v / 0x02) % 2 == 1,
        v & 0x01 != 0 <==> v % 2 == 1,
        v == (v & 0x80) + (v & 0x40) + (v & 0x20) + (v & 0x10) + (v & 0x08) + (v & 0x04) + (v
            & 0x02) + (v & 0x01),
        v & 0x80 == 0 || v & 0x80 == 0x80,
        v & 0x40 == 0 || v & 0x40 == 0x40,
        v & 0x20 == 0 || v & 0x20 == 0x20,
        v & 0x10 == 0 || v & 0x10 == 0x10,
        v & 0x08 == 0 || v & 0x08 == 0x08,
        v & 0x04 == 0 || v & 0x04 == 0x04,
        v & 0x02 == 0 || v & 0x02 == 0x02,
        v & 0x01 == 0 || v & 0x01 == 0x01,
{
}

/// Clearing or setting the bit of one mask leaves the bits of the other
/// masks as they were.
proof fn lemma_replace_bit(v: u8, m: u8, k: u8)
    by (bit_vector)
    requires
        m == 0x80 || m == 0x40 || m == 0x20 || m == 0x10 || m == 0x08 || m == 0x04 || m == 0x02 || m
            == 0x01,
        k == 0x80 || k == 0x40 || k == 0x20 || k == 0x10 || k == 0x08 || k == 0x04 || k == 0x02 || k
            == 0x01,
    ensures
        (v & !m) & k == (if k == m { 0 } else { v & k }),
        ((v & !m) | m) & k == (if k == m { k } else { v & k }),
{
}

/// The status register P.
#[derive(Copy, Clone)]
pub struct RegisterStatus {
    value: u8,
}

impl View for RegisterStatus {
    type V = StatusFlags;

    closed spec fn view(&self) -> StatusFlags {
        StatusFlags::from_byte(self.value)
    }
}

impl RegisterStatus {
    /// Bit 5 of the packed byte is set, whatever was done to the register.
    #[verifier::type_invariant]
    closed spec fn bit_5_is_set(&self) -> bool {
        (self.value / 0x20) % 2 == 1
    }

    /// Creates a new default status register value: every flag clear.
    pub fn new() -> (r: RegisterStatus)
        ensures
            r@ == StatusFlags::cleared(),
    {
        RegisterStatus {
            // bit 5 is always set
            value: 0x20,
        }
    }

    #[inline(always)]
    fn bit(&self, bit_mask: u8) -> (r: bool)
        requires
            is_flag_mask(bit_mask),
        ensures
            r == self@.get(bit_mask),
    {
        proof {
            lemma_status_bits(self.value);
        }
        self.value & bit_mask != 0
    }

    #[inline(always)]
    fn set_bit(&mut self, bit_mask: u8, value: bool)
        requires
            is_flag_mask(bit_mask),
        ensures
            final(self)@ == old(self)@.set(bit_mask, value),
    {
        proof {
            use_type_invariant(&*self);
        }
        let cleared: u8 = self.value & !bit_mask;
        let updated: u8 = if value {
            cleared | bit_mask
        } else {
            cleared
        };
        proof {
            let v: u8 = self.value;
            lemma_status_bits(v);
            lemma_status_bits(updated);
            lemma_replace_bit(v, bit_mask, 0x80);
            lemma_replace_bit(v, bit_mask, 0x40);
            lemma_replace_bit(v, bit_mask, 0x20);
            lemma_replace_bit(v, bit_mask, 0x10);
            lemma_replace_bit(v, bit_mask, 0x08);
            lemma_replace_bit(v, bit_mask, 0x04);
            lemma_replace_bit(v, bit_mask, 0x02);
            lemma_replace_bit(v, bit_mask, 0x01);
        }
        self.value = updated;
    }

    /// Returns the negative flag
    #[inline(always)]
    pub fn negative(&self) -> (r: bool)
        ensures
            r == self@.negative,
    {
        self.bit(MASK_NEGATIVE)
    }

    /// Sets the negative flag
    #[inline(always)]
    pub fn set_negative(&mut self, val: bool)
        ensures
            final(self)@ == (StatusFlags { negative: val, ..old(self)@ }),
    {
        self.set_bit(MASK_NEGATIVE, val);
    }

    /// Returns the overflow flag
    #[inline(always)]
    pub fn overflow(&self) -> (r: bool)
        ensures
            r == self@.overflow,
    {
        self.bit(MASK_OVERFLOW)
    }

    /// Sets the overflow flag
    #[inline(always)]
    pub fn set_overflow(&mut self, val: bool)
        ensures
            final(self)@ == (StatusFlags { overflow: val, ..old(self)@ }),
    {
        self.set_bit(MASK_OVERFLOW, val);
    }

    /// Returns the interrupt (BRK) flag
    #[inline(always)]
    pub fn brk(&self) -> (r: bool)
        ensures
            r == self@.brk,
    {
        self.bit(MASK_BRK)
    }

    /// Sets the interrupt (BRK) flag
    #[inline(always)]
    pub fn set_brk(&mut self, val: bool)
        ensures
            final(self)@ == (StatusFlags { brk: val, ..old(self)@ }),
    {
        self.set_bit(MASK_BRK, val);
    }

    /// Returns the decimal flag
    #[inline(always)]
    pub fn decimal(&self) -> (r: bool)
        ensures
            r == self@.decimal,
    {
        self.bit(MASK_DECIMAL)
    }

    /// Sets the decimal flag
    #[inline(always)]
    pub fn set_decimal(&mut self, val: bool)
        ensures
            final(self)@ == (StatusFlags { decimal: val, ..old(self)@ }),
    {
        self.set_bit(MASK_DECIMAL, val);
    }

    /// Returns the inhibit interrupt flag
    #[inline(always)]
    pub fn interrupt_inhibit(&self) -> (r: bool)
        ensures
            r == self@.interrupt_inhibit,
    {
        self.bit(MASK_INTERRUPT_INHIBIT)
    }

    /// Sets the inhibit interrupt flag
    #[inline(always)]
    pub fn set_interrupt_inhibit(&mut self, val: bool)
        ensures
            final(self)@ == (StatusFlags { interrupt_inhibit: val, ..old(self)@ }),
    {
        self.set_bit(MASK_INTERRUPT_INHIBIT, val);
    }

    /// Returns the zero flag
    #[inline(always)]
    pub fn zero(&self) -> (r: bool)
        ensures
            r == self@.zero,
    {
        self.bit(MASK_ZERO)
    }

    /// Sets the zero flag
    #[inline(always)]
    pub fn set_zero(&mut self, val: bool)
        ensures
            final(self)@ == (StatusFlags { zero: val, ..old(self)@ }),
    {
        self.set_bit(MASK_ZERO, val);
    }

    /// Returns the carry flag
    #[inline(always)]
    pub fn carry(&self) -> (r: bool)
        ensures
            r == self@.carry,
    {
        self.bit(MASK_CARRY)
    }

    /// Sets the carry flag
    #[inline(always)]
    pub fn set_carry(&mut self, val: bool)
        ensures
            final(self)@ == (StatusFlags { carry: val, ..old(self)@ }),
    {
        self.set_bit(MASK_CARRY, val);
    }

    /// Sets the negative and zero flags based on the passed in value
    #[inline(always)]
    pub fn set_nz_from(&mut self, val: u8)
        ensures
            final(self)@ == old(self)@.with_nz(val),
    {
        proof {
            lemma_status_bits(val);
        }
        self.set_negative(val & 0x80 > 0);
        self.set_zero(val == 0);
    }

    /// Returns the byte value of the status register. Its bit 5 is set.
    pub fn value(&self) -> (r: u8)
        ensures
            r == self@.byte(),
            (r / 0x20) % 2 == 1,
    {
        proof {
            use_type_invariant(self);
            lemma_status_bits(self.value);
        }
        self.value
    }

    /// Returns the byte value of the status register as PHP and BRK push it:
    /// with bit 4 set, whatever the BRK flag is.
    pub fn value_with_brk(&self) -> (r: u8)
        ensures
            r == (StatusFlags { brk: true, ..self@ }).byte(),
    {
        let value: u8 = self.value();
        let r: u8 = value | MASK_BRK;
        proof {
            lemma_status_bits(value);
            assert(r == (if value & 0x10 == 0 {
                (value + 0x10) as u8
            } else {
                value
            })) by (bit_vector)
                requires
                    r == value | 0x10,
            ;
        }
        r
    }

    /// Sets the status register from a byte value. The BRK flag stays as it
    /// was, and bit 5 stays set, whatever the byte holds.
    pub fn set_value(&mut self, value: u8)
        ensures
            final(self)@ == (StatusFlags { brk: old(self)@.brk, ..StatusFlags::from_byte(value) }),
    {
        // The BRK flag can't be set, and bit 5 must always be on
        let masked: u8 = value & !MASK_BRK | MASK_BIT_5;
        let brk = self.brk();
        let updated: u8 = if brk {
            masked | MASK_BRK
        } else {
            masked
        };
        proof {
            lemma_status_bits(value);
            lemma_status_bits(updated);
            lemma_set_value_bits(value, brk, updated);
        }
        self.value = updated;
    }
}

/// What `set_value` computes has the bits of the byte, but for bit 4, which
/// is the old BRK flag, and bit 5, which is set.
proof fn lemma_set_value_bits(value: u8, brk: bool, updated: u8)
    by (bit_vector)
    requires
        updated == (if brk {
            (value & !0x10 | 0x20) | 0x10
        } else {
            value & !0x10 | 0x20
        }),
    ensures
        updated & 0x80 == value & 0x80,
        updated & 0x40 == value & 0x40,
        updated & 0x20 == 0x20,
        updated & 0x10 == (if brk { 0x10u8 } else { 0u8 }),
        updated & 0x08 == value & 0x08,
        updated & 0x04 == value & 0x04,
        updated & 0x02 == value & 0x02,
        updated & 0x01 == value & 0x01,
{
}

} // verus!
