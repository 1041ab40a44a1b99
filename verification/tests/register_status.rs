use hassel_emu::register_status::{
    MASK_BIT_5, MASK_BRK, MASK_CARRY, MASK_DECIMAL, MASK_INTERRUPT_INHIBIT, MASK_NEGATIVE,
    MASK_OVERFLOW, MASK_ZERO,
};
use hassel_emu::{RegisterStatus, Registers};

#[test]
fn register_status_test_set_value() {
    let mut reg = RegisterStatus::new();
    assert_eq!(MASK_BIT_5, reg.value());

    reg.set_value(0);
    assert_eq!(MASK_BIT_5, reg.value());

    reg.set_value(MASK_BRK);
    assert_eq!(MASK_BIT_5, reg.value());

    reg.set_brk(true);
    reg.set_value(0);
    assert_eq!(MASK_BRK | MASK_BIT_5, reg.value());
}

#[test]
fn register_status_test_decimal() {
    let mut reg = RegisterStatus::new();
    assert_eq!(MASK_BIT_5, reg.value());

    reg.set_decimal(true);
    assert!(reg.decimal());

    assert_eq!(MASK_DECIMAL | MASK_BIT_5, reg.value());

    reg.set_value(0xFF);
    reg.set_brk(true);
    reg.set_decimal(false);
    assert!(!reg.decimal());
    assert_eq!(!MASK_DECIMAL, reg.value());
}

#[test]
fn status_bit_5_reads_one_after_every_manipulation() {
    let mut reg = RegisterStatus::new();
    for value in 0..=255u8 {
        reg.set_value(value);
        assert_eq!(MASK_BIT_5, reg.value() & MASK_BIT_5);
        reg.set_negative(value & 1 == 0);
        reg.set_overflow(value & 2 == 0);
        reg.set_brk(value & 4 == 0);
        reg.set_decimal(value & 8 == 0);
        reg.set_interrupt_inhibit(value & 16 == 0);
        reg.set_zero(value & 32 == 0);
        reg.set_carry(value & 64 == 0);
        assert_eq!(MASK_BIT_5, reg.value() & MASK_BIT_5);
        reg.set_nz_from(value);
        assert_eq!(MASK_BIT_5, reg.value() & MASK_BIT_5);
    }
}

#[test]
fn raw_setter_cannot_toggle_brk() {
    let mut reg = RegisterStatus::new();
    for value in 0..=255u8 {
        reg.set_brk(false);
        reg.set_value(value);
        assert!(!reg.brk());
        assert_eq!((value & !MASK_BRK) | MASK_BIT_5, reg.value());
        reg.set_brk(true);
        reg.set_value(value);
        assert!(reg.brk());
        assert_eq!(value | MASK_BRK | MASK_BIT_5, reg.value());
    }
}

#[test]
fn each_flag_has_its_bit() {
    let mut reg = RegisterStatus::new();
    reg.set_negative(true);
    assert!(reg.negative());
    assert_eq!(MASK_NEGATIVE | MASK_BIT_5, reg.value());
    reg.set_negative(false);
    reg.set_overflow(true);
    assert!(reg.overflow());
    assert_eq!(MASK_OVERFLOW | MASK_BIT_5, reg.value());
    reg.set_overflow(false);
    reg.set_brk(true);
    assert!(reg.brk());
    assert_eq!(MASK_BRK | MASK_BIT_5, reg.value());
    reg.set_brk(false);
    reg.set_interrupt_inhibit(true);
    assert!(reg.interrupt_inhibit());
    assert_eq!(MASK_INTERRUPT_INHIBIT | MASK_BIT_5, reg.value());
    reg.set_interrupt_inhibit(false);
    reg.set_zero(true);
    assert!(reg.zero());
    assert_eq!(MASK_ZERO | MASK_BIT_5, reg.value());
    reg.set_zero(false);
    reg.set_carry(true);
    assert!(reg.carry());
    assert_eq!(MASK_CARRY | MASK_BIT_5, reg.value());
    reg.set_carry(false);
    assert_eq!(MASK_BIT_5, reg.value());
}

#[test]
fn value_with_brk_sets_bit_4_in_the_copy_only() {
    let mut reg = RegisterStatus::new();
    reg.set_carry(true);
    assert_eq!(0x31, reg.value_with_brk());
    assert_eq!(0x21, reg.value());
    assert!(!reg.brk());
    reg.set_brk(true);
    assert_eq!(0x31, reg.value_with_brk());
}

#[test]
fn set_nz_from_follows_the_value() {
    let mut reg = RegisterStatus::new();
    reg.set_nz_from(0);
    assert!(reg.zero());
    assert!(!reg.negative());
    reg.set_nz_from(0x7F);
    assert!(!reg.zero());
    assert!(!reg.negative());
    reg.set_nz_from(0x80);
    assert!(!reg.zero());
    assert!(reg.negative());
}

#[test]
fn registers_start_with_the_stack_pointer_at_the_top() {
    let reg = Registers::new();
    assert_eq!(0, reg.a);
    assert_eq!(0, reg.x);
    assert_eq!(0, reg.y);
    assert_eq!(0, reg.pc);
    assert_eq!(0xFF, reg.sp);
    assert_eq!(0x20, reg.status.value());
}

#[test]
fn register_setters_couple_n_and_z_to_the_value() {
    for value in 0..=255u8 {
        let mut reg = Registers::new();
        reg.set_reg_a(value);
        assert_eq!(value, reg.a);
        assert_eq!(value >= 0x80, reg.status.negative());
        assert_eq!(value == 0, reg.status.zero());

        let mut reg = Registers::new();
        reg.set_reg_x(value);
        assert_eq!(value, reg.x);
        assert_eq!(value >= 0x80, reg.status.negative());
        assert_eq!(value == 0, reg.status.zero());

        let mut reg = Registers::new();
        reg.set_reg_y(value);
        assert_eq!(value, reg.y);
        assert_eq!(value >= 0x80, reg.status.negative());
        assert_eq!(value == 0, reg.status.zero());
    }
}
