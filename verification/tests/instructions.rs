use hassel_emu::instruction::arithmetic::{add_with_carry, subtract_with_borrow};
use hassel_emu::instruction::common::{branch, compare, execute, new_result, pop, push};
use hassel_emu::opcode::OpAddressMode::{
    Absolute, AbsoluteOffsetX, AbsoluteOffsetY, Immediate, Implied, Indirect, PCOffset,
    PostIndirectY, ZeroPage, ZeroPageOffsetX,
};
use hassel_emu::{
    Executor, InstructionResult, MemoryMap, NullDevice, Op, OpClass, OpCode, OpParam, ReadMemory,
    Registers, Write, WriteMemory,
};

fn ram() -> MemoryMap<NullDevice> {
    MemoryMap::builder().ram(0x0000, 0xFFFF).build()
}

#[test]
fn test_adc_simple() {
    let reg = &mut Registers::new();
    let memory = &mut ram();
    reg.a = 1;
    let result = execute(OpClass::Adc, Immediate, &OpParam::Byte(1), reg, memory, new_result());
    assert_eq!(2, result.reg.a);
    assert_eq!(false, result.reg.status.carry());
    assert_eq!(false, result.reg.status.negative());
    assert_eq!(false, result.reg.status.zero());
    assert_eq!(false, result.reg.status.overflow());
}

#[test]
fn test_adc_carry() {
    let reg = &mut Registers::new();
    let memory = &mut ram();
    reg.a = 1;
    reg.status.set_carry(true);
    let result = execute(OpClass::Adc, Immediate, &OpParam::Byte(1), reg, memory, new_result());
    assert_eq!(3, result.reg.a);
    assert_eq!(false, result.reg.status.carry());
    assert_eq!(false, result.reg.status.negative());
    assert_eq!(false, result.reg.status.zero());
    assert_eq!(false, result.reg.status.overflow());
}

#[test]
fn test_adc_carry_and_zero() {
    let reg = &mut Registers::new();
    let memory = &mut ram();
    reg.a = 0xFF;
    let result = execute(OpClass::Adc, Immediate, &OpParam::Byte(1), reg, memory, new_result());
    assert_eq!(0, result.reg.a);
    assert_eq!(true, result.reg.status.carry());
    assert_eq!(false, result.reg.status.negative());
    assert_eq!(true, result.reg.status.zero());
    assert_eq!(false, result.reg.status.overflow());
}

#[test]
fn test_adc_negative() {
    let reg = &mut Registers::new();
    let memory = &mut ram();
    reg.a = 0x01;
    let result = execute(OpClass::Adc, Immediate, &OpParam::Byte(0xF0), reg, memory, new_result());
    assert_eq!(0xF1, result.reg.a);
    assert_eq!(false, result.reg.status.carry());
    assert_eq!(true, result.reg.status.negative());
    assert_eq!(false, result.reg.status.zero());
    assert_eq!(false, result.reg.status.overflow());
}

#[test]
fn test_adc_overflow() {
    let reg = &mut Registers::new();
    let memory = &mut ram();
    reg.a = 0x01;
    let result = execute(OpClass::Adc, Immediate, &OpParam::Byte(0x7F), reg, memory, new_result());
    assert_eq!(0x80, result.reg.a);
    assert_eq!(false, result.reg.status.carry());
    assert_eq!(true, result.reg.status.negative());
    assert_eq!(false, result.reg.status.zero());
    assert_eq!(true, result.reg.status.overflow());
}

#[test]
fn test_sbc_simple() {
    let reg = &mut Registers::new();
    let memory = &mut ram();
    reg.a = 5;
    reg.status.set_carry(true);
    let result = execute(OpClass::Sbc, Immediate, &OpParam::Byte(1), reg, memory, new_result());
    assert_eq!(4, result.reg.a);
    assert_eq!(true, result.reg.status.carry());
    assert_eq!(false, result.reg.status.negative());
    assert_eq!(false, result.reg.status.zero());
    assert_eq!(false, result.reg.status.overflow());
}

#[test]
fn test_sbc_carry() {
    let reg = &mut Registers::new();
    let memory = &mut ram();
    reg.a = 5;
    reg.status.set_carry(false);
    let result = execute(OpClass::Sbc, Immediate, &OpParam::Byte(1), reg, memory, new_result());
    assert_eq!(3, result.reg.a);
    assert_eq!(true, result.reg.status.carry());
    assert_eq!(false, result.reg.status.negative());
    assert_eq!(false, result.reg.status.zero());
    assert_eq!(false, result.reg.status.overflow());
}

#[test]
fn test_sbc_negative() {
    let reg = &mut Registers::new();
    let memory = &mut ram();
    reg.a = 1;
    reg.status.set_carry(true);
    let result = execute(OpClass::Sbc, Immediate, &OpParam::Byte(2), reg, memory, new_result());
    assert_eq!(0xFF, result.reg.a);
    assert_eq!(false, result.reg.status.carry());
    assert_eq!(true, result.reg.status.negative());
    assert_eq!(false, result.reg.status.zero());
    assert_eq!(false, result.reg.status.overflow());
}

#[test]
fn test_sbc_overflow() {
    let reg = &mut Registers::new();
    let memory = &mut ram();
    reg.a = 1;
    reg.status.set_carry(true);
    let result = execute(OpClass::Sbc, Immediate, &OpParam::Byte(0x80), reg, memory, new_result());
    assert_eq!(0x81, result.reg.a);
    assert_eq!(false, result.reg.status.carry());
    assert_eq!(true, result.reg.status.negative());
    assert_eq!(false, result.reg.status.zero());
    assert_eq!(true, result.reg.status.overflow());
}

#[test]
fn test_sbc_overflow_carry() {
    let reg = &mut Registers::new();
    let memory = &mut ram();
    reg.a = 1;
    reg.status.set_carry(false);
    let result = execute(OpClass::Sbc, Immediate, &OpParam::Byte(0x80), reg, memory, new_result());
    assert_eq!(0x80, result.reg.a);
    assert_eq!(false, result.reg.status.carry());
    assert_eq!(true, result.reg.status.negative());
    assert_eq!(false, result.reg.status.zero());
    assert_eq!(true, result.reg.status.overflow());
}

#[test]
fn test_clear_flags() {
    let reg = &mut Registers::new();
    let memory = &mut ram();
    // Set all flags
    reg.status.set_value(0xFF);
    reg.status.set_brk(true);

    let result = execute(OpClass::Clc, Implied, &OpParam::Nil, reg, memory, new_result());
    assert_eq!(0xFE, result.reg.status.value());

    let result = execute(OpClass::Cld, Implied, &OpParam::Nil, reg, memory, new_result());
    assert_eq!(0xF7, result.reg.status.value());

    let result = execute(OpClass::Cli, Implied, &OpParam::Nil, reg, memory, new_result());
    assert_eq!(0xFB, result.reg.status.value());

    let result = execute(OpClass::Clv, Implied, &OpParam::Nil, reg, memory, new_result());
    assert_eq!(0xBF, result.reg.status.value());
}

#[test]
fn test_set_flags() {
    let reg = &mut Registers::new();
    let memory = &mut ram();
    let result = execute(OpClass::Sec, Implied, &OpParam::Nil, reg, memory, new_result());
    assert_eq!(0x21, result.reg.status.value());

    let result = execute(OpClass::Sed, Implied, &OpParam::Nil, reg, memory, new_result());
    assert_eq!(0x28, result.reg.status.value());

    let result = execute(OpClass::Sei, Implied, &OpParam::Nil, reg, memory, new_result());
    assert_eq!(0x24, result.reg.status.value());
}

#[test]
fn test_tax_and_tay() {
    let reg = &mut Registers::new();
    let bus = &mut ram();
    reg.a = 6;
    let result = execute(OpClass::Tax, Implied, &OpParam::Nil, reg, bus, new_result());
    assert_eq!(6, result.reg.x);

    let result = execute(OpClass::Tay, Implied, &OpParam::Nil, reg, bus, new_result());
    assert_eq!(6, result.reg.y);
}

#[test]
fn test_execute_top_abs() {
    let reg = &mut Registers::new();
    let memory = &mut ram();
    let result = execute(OpClass::Top, Absolute, &OpParam::Word(0), reg, memory, new_result());
    assert_eq!(0, result.cycles);
}

#[test]
fn test_execute_top_abs_x_cycle() {
    let reg = &mut Registers::new();
    let memory = &mut ram();
    reg.x = 10;
    let result =
        execute(OpClass::Top, AbsoluteOffsetX, &OpParam::Word(0xFE), reg, memory, new_result());
    assert_eq!(1, result.cycles);
}

#[test]
fn test_execute_top_abs_x_no_cycle() {
    let reg = &mut Registers::new();
    let memory = &mut ram();
    let result =
        execute(OpClass::Top, AbsoluteOffsetX, &OpParam::Word(0x20), reg, memory, new_result());
    assert_eq!(0, result.cycles);
}

#[test]
fn adc_with_the_operand_is_sbc_with_its_complement() {
    let memory = &mut ram();
    for a in [0u8, 1, 0x3F, 0x7F, 0x80, 0x81, 0xC0, 0xFF] {
        for m in [0u8, 1, 0x3F, 0x7F, 0x80, 0x81, 0xC0, 0xFF] {
            for carry in [false, true] {
                let mut reg = Registers::new();
                reg.a = a;
                reg.status.set_carry(carry);
                let added =
                    execute(OpClass::Adc, Immediate, &OpParam::Byte(m), &reg, memory, new_result());
                let subtracted = execute(
                    OpClass::Sbc,
                    Immediate,
                    &OpParam::Byte(255 - m),
                    &reg,
                    memory,
                    new_result(),
                );
                assert_eq!(added.reg.a, subtracted.reg.a);
                assert_eq!(added.reg.status.value(), subtracted.reg.status.value());
                let sum = a as u16 + m as u16 + carry as u16;
                assert_eq!(sum as u8, added.reg.a);
                assert_eq!(sum > 0xFF, added.reg.status.carry());
                let signed = a as i8 as i16 + m as i8 as i16 + carry as i16;
                assert_eq!(signed < -128 || signed > 127, added.reg.status.overflow());
            }
        }
    }
}

#[test]
fn adc_ignores_the_decimal_flag() {
    let memory = &mut ram();
    let mut reg = Registers::new();
    reg.a = 0x09;
    reg.status.set_decimal(true);
    let result = execute(OpClass::Adc, Immediate, &OpParam::Byte(0x01), &reg, memory, new_result());
    assert_eq!(0x0A, result.reg.a);
    assert!(result.reg.status.decimal());
}

#[test]
fn adc_takes_a_cycle_for_a_page_crossing() {
    let memory = &mut ram();
    memory.write().byte(0x2105, 7);
    let mut reg = Registers::new();
    reg.x = 0x10;
    let result = execute(
        OpClass::Adc,
        AbsoluteOffsetX,
        &OpParam::Word(0x20F5),
        &reg,
        memory,
        new_result(),
    );
    assert_eq!(7, result.reg.a);
    assert_eq!(1, result.cycles);
    let result =
        execute(OpClass::Adc, AbsoluteOffsetX, &OpParam::Word(0x2005), &reg, memory, new_result());
    assert_eq!(0, result.cycles);
}

#[test]
fn loads_set_the_register_and_the_flags() {
    let memory = &mut ram();
    memory.write().byte(0x0010, 0x80);
    memory.write().byte(0x2105, 0x00);
    let mut reg = Registers::new();
    reg.y = 0x10;
    let result = execute(OpClass::Lda, ZeroPage, &OpParam::Byte(0x10), &reg, memory, new_result());
    assert_eq!(0x80, result.reg.a);
    assert!(result.reg.status.negative());
    assert!(!result.reg.status.zero());
    assert_eq!(0, result.cycles);
    let result =
        execute(OpClass::Ldx, AbsoluteOffsetY, &OpParam::Word(0x20F5), &reg, memory, new_result());
    assert_eq!(0x00, result.reg.x);
    assert!(result.reg.status.zero());
    assert_eq!(1, result.cycles);
    let result = execute(OpClass::Ldy, Immediate, &OpParam::Byte(0x33), &reg, memory, new_result());
    assert_eq!(0x33, result.reg.y);
    assert!(result.writes.is_empty());
}

#[test]
fn stores_record_one_write_and_leave_the_memory() {
    let memory = &mut ram();
    let mut reg = Registers::new();
    reg.a = 0x11;
    reg.x = 0x22;
    reg.y = 0x33;
    let result = execute(OpClass::Sta, Absolute, &OpParam::Word(0x1234), &reg, memory, new_result());
    assert_eq!(vec![Write::new(0x1234, 0x11)], result.writes);
    assert_eq!(0, memory.debug_read().byte(0x1234));
    let result = execute(OpClass::Stx, ZeroPage, &OpParam::Byte(0x12), &reg, memory, new_result());
    assert_eq!(vec![Write::new(0x0012, 0x22)], result.writes);
    let result =
        execute(OpClass::Sty, ZeroPageOffsetX, &OpParam::Byte(0xF0), &reg, memory, new_result());
    assert_eq!(vec![Write::new(0x0012, 0x33)], result.writes);
    assert_eq!(0x20, result.reg.status.value());
}

#[test]
fn transfers_copy_registers() {
    let memory = &mut ram();
    let mut reg = Registers::new();
    reg.a = 0x01;
    reg.x = 0x82;
    reg.y = 0x00;
    reg.sp = 0xF0;
    let result = execute(OpClass::Tsx, Implied, &OpParam::Nil, &reg, memory, new_result());
    assert_eq!(0xF0, result.reg.x);
    assert!(result.reg.status.negative());
    let result = execute(OpClass::Txa, Implied, &OpParam::Nil, &reg, memory, new_result());
    assert_eq!(0x82, result.reg.a);
    assert!(result.reg.status.negative());
    let result = execute(OpClass::Tya, Implied, &OpParam::Nil, &reg, memory, new_result());
    assert_eq!(0x00, result.reg.a);
    assert!(result.reg.status.zero());
    let result = execute(OpClass::Txs, Implied, &OpParam::Nil, &reg, memory, new_result());
    assert_eq!(0x82, result.reg.sp);
    assert_eq!(0x20, result.reg.status.value());
}

#[test]
fn pushes_go_down_from_the_top_of_page_one() {
    let mut result = new_result();
    assert_eq!(0xFF, result.reg.sp);
    for n in 0..300u32 {
        assert_eq!(((0xFF - n as i64).rem_euclid(256)) as u8, result.reg.sp);
        result = push(result, n as u8);
    }
    assert_eq!(300, result.writes.len());
    assert_eq!(Write::new(0x01FF, 0), result.writes[0]);
    assert_eq!(Write::new(0x01FE, 1), result.writes[1]);
    assert_eq!(Write::new(0x0100, 255), result.writes[255]);
    assert_eq!(Write::new(0x01FF, 0), result.writes[256]);
}

#[test]
fn a_pushed_byte_comes_back_by_the_next_pull() {
    for sp in [0xFFu8, 0x80, 0x01, 0x00] {
        for value in [0u8, 1, 0x7F, 0x80, 0xFF] {
            let memory = &mut ram();
            let mut result = new_result();
            result.reg.sp = sp;
            result = push(result, value);
            assert_eq!(sp.wrapping_sub(1), result.reg.sp);
            for write in &result.writes {
                memory.write().byte(write.address, write.value);
            }
            assert_eq!(value, pop(&mut result, memory));
            assert_eq!(sp, result.reg.sp);
        }
    }
}

#[test]
fn pha_and_pla_go_through_the_stack() {
    let memory = &mut ram();
    let mut reg = Registers::new();
    reg.a = 0x80;
    let pushed = execute(OpClass::Pha, Implied, &OpParam::Nil, &reg, memory, new_result());
    assert_eq!(vec![Write::new(0x01FF, 0x80)], pushed.writes);
    assert_eq!(0xFE, pushed.reg.sp);
    memory.write().byte(0x01FF, 0x80);
    let mut after = pushed.reg;
    after.a = 0;
    let pulled = execute(OpClass::Pla, Implied, &OpParam::Nil, &after, memory, new_result());
    assert_eq!(0x80, pulled.reg.a);
    assert_eq!(0xFF, pulled.reg.sp);
    assert!(pulled.reg.status.negative());
    assert!(pulled.writes.is_empty());
}

#[test]
fn php_pushes_bit_4_and_plp_keeps_the_brk_flag() {
    let memory = &mut ram();
    let mut reg = Registers::new();
    reg.status.set_carry(true);
    let pushed = execute(OpClass::Php, Implied, &OpParam::Nil, &reg, memory, new_result());
    assert_eq!(vec![Write::new(0x01FF, 0x31)], pushed.writes);
    assert!(!pushed.reg.status.brk());

    memory.write().byte(0x01FF, 0xDF);
    let pulled = execute(OpClass::Plp, Implied, &OpParam::Nil, &pushed.reg, memory, new_result());
    assert_eq!(0xEF, pulled.reg.status.value());
    assert!(!pulled.reg.status.brk());
    assert_eq!(0xFF, pulled.reg.sp);

    memory.write().byte(0x01FF, 0x00);
    let pulled = execute(OpClass::Plp, Implied, &OpParam::Nil, &pushed.reg, memory, new_result());
    assert_eq!(0x20, pulled.reg.status.value());
}

#[test]
fn compare_sets_n_z_and_c() {
    let mut reg = Registers::new();
    compare(&mut reg, 5, 5);
    assert!(reg.status.zero() && reg.status.carry() && !reg.status.negative());
    compare(&mut reg, 5, 6);
    assert!(!reg.status.zero() && !reg.status.carry() && reg.status.negative());
    compare(&mut reg, 6, 5);
    assert!(!reg.status.zero() && reg.status.carry() && !reg.status.negative());
    compare(&mut reg, 0x80, 0x00);
    assert!(!reg.status.zero() && reg.status.carry() && reg.status.negative());
    compare(&mut reg, 0x00, 0x80);
    assert!(!reg.status.zero() && !reg.status.carry() && reg.status.negative());
}

#[test]
fn comparisons_leave_the_registers() {
    let memory = &mut ram();
    memory.write().byte(0x2105, 0x10);
    let mut reg = Registers::new();
    reg.a = 0x10;
    reg.x = 0x10;
    reg.y = 0x20;
    let result =
        execute(OpClass::Cmp, AbsoluteOffsetX, &OpParam::Word(0x20F5), &reg, memory, new_result());
    assert!(result.reg.status.zero() && result.reg.status.carry());
    assert_eq!(0x10, result.reg.a);
    assert_eq!(1, result.cycles);
    let result = execute(OpClass::Cpx, Immediate, &OpParam::Byte(0x11), &reg, memory, new_result());
    assert!(!result.reg.status.carry() && result.reg.status.negative());
    let result = execute(OpClass::Cpy, Immediate, &OpParam::Byte(0x11), &reg, memory, new_result());
    assert!(result.reg.status.carry() && !result.reg.status.zero());
    assert_eq!(0, result.cycles);
}

#[test]
fn bit_takes_n_and_v_from_memory() {
    let memory = &mut ram();
    memory.write().byte(0x0040, 0xC0);
    memory.write().byte(0x0041, 0x01);
    let mut reg = Registers::new();
    reg.a = 0x01;
    let result = execute(OpClass::Bit, ZeroPage, &OpParam::Byte(0x40), &reg, memory, new_result());
    assert!(result.reg.status.negative());
    assert!(result.reg.status.overflow());
    assert!(result.reg.status.zero());
    assert_eq!(0x01, result.reg.a);
    let result = execute(OpClass::Bit, ZeroPage, &OpParam::Byte(0x41), &reg, memory, new_result());
    assert!(!result.reg.status.negative());
    assert!(!result.reg.status.overflow());
    assert!(!result.reg.status.zero());
}

#[test]
fn bitwise_instructions_combine_into_the_accumulator() {
    let memory = &mut ram();
    let mut reg = Registers::new();
    reg.a = 0b1100_1010;
    let result =
        execute(OpClass::And, Immediate, &OpParam::Byte(0b1010_0110), &reg, memory, new_result());
    assert_eq!(0b1000_0010, result.reg.a);
    assert!(result.reg.status.negative());
    let result =
        execute(OpClass::Eor, Immediate, &OpParam::Byte(0b1100_1010), &reg, memory, new_result());
    assert_eq!(0, result.reg.a);
    assert!(result.reg.status.zero());
    let result =
        execute(OpClass::Ora, Immediate, &OpParam::Byte(0b0000_0101), &reg, memory, new_result());
    assert_eq!(0b1100_1111, result.reg.a);
}

#[test]
fn shifts_and_rotations_of_the_accumulator() {
    let memory = &mut ram();
    let mut reg = Registers::new();
    reg.a = 0b1000_0001;
    let result = execute(OpClass::Asl, Implied, &OpParam::Nil, &reg, memory, new_result());
    assert_eq!(0b0000_0010, result.reg.a);
    assert!(result.reg.status.carry());
    assert!(!result.reg.status.negative());

    let result = execute(OpClass::Lsr, Implied, &OpParam::Nil, &reg, memory, new_result());
    assert_eq!(0b0100_0000, result.reg.a);
    assert!(result.reg.status.carry());
    assert!(!result.reg.status.negative());

    let result = execute(OpClass::Rol, Implied, &OpParam::Nil, &reg, memory, new_result());
    assert_eq!(0b0000_0010, result.reg.a);
    assert!(result.reg.status.carry());

    reg.status.set_carry(true);
    let result = execute(OpClass::Rol, Implied, &OpParam::Nil, &reg, memory, new_result());
    assert_eq!(0b0000_0011, result.reg.a);
    assert!(result.reg.status.carry());

    let result = execute(OpClass::Ror, Implied, &OpParam::Nil, &reg, memory, new_result());
    assert_eq!(0b1100_0000, result.reg.a);
    assert!(result.reg.status.carry());
    assert!(result.reg.status.negative());

    reg.a = 0x01;
    reg.status.set_carry(false);
    reg.status.set_negative(true);
    let result = execute(OpClass::Lsr, Implied, &OpParam::Nil, &reg, memory, new_result());
    assert_eq!(0, result.reg.a);
    assert!(result.reg.status.zero());
    assert!(!result.reg.status.negative());
    assert!(result.reg.status.carry());
    assert!(result.writes.is_empty());
}

#[test]
fn shifts_of_memory_write_back() {
    let memory = &mut ram();
    memory.write().byte(0x0030, 0x41);
    let mut reg = Registers::new();
    reg.a = 0x55;
    let result = execute(OpClass::Asl, ZeroPage, &OpParam::Byte(0x30), &reg, memory, new_result());
    assert_eq!(vec![Write::new(0x0030, 0x82)], result.writes);
    assert_eq!(0x55, result.reg.a);
    assert!(result.reg.status.negative());
    assert!(!result.reg.status.carry());
    let result = execute(OpClass::Ror, ZeroPage, &OpParam::Byte(0x30), &reg, memory, new_result());
    assert_eq!(vec![Write::new(0x0030, 0x20)], result.writes);
    assert!(result.reg.status.carry());
}

#[test]
fn increments_and_decrements() {
    let memory = &mut ram();
    memory.write().byte(0x0030, 0xFF);
    memory.write().byte(0x0031, 0x00);
    let mut reg = Registers::new();
    reg.x = 0xFF;
    reg.y = 0x00;
    let result = execute(OpClass::Inc, ZeroPage, &OpParam::Byte(0x30), &reg, memory, new_result());
    assert_eq!(vec![Write::new(0x0030, 0x00)], result.writes);
    assert!(result.reg.status.zero());
    let result = execute(OpClass::Dec, ZeroPage, &OpParam::Byte(0x31), &reg, memory, new_result());
    assert_eq!(vec![Write::new(0x0031, 0xFF)], result.writes);
    assert!(result.reg.status.negative());
    let result = execute(OpClass::Inx, Implied, &OpParam::Nil, &reg, memory, new_result());
    assert_eq!(0x00, result.reg.x);
    assert!(result.reg.status.zero());
    let result = execute(OpClass::Dex, Implied, &OpParam::Nil, &reg, memory, new_result());
    assert_eq!(0xFE, result.reg.x);
    let result = execute(OpClass::Iny, Implied, &OpParam::Nil, &reg, memory, new_result());
    assert_eq!(0x01, result.reg.y);
    let result = execute(OpClass::Dey, Implied, &OpParam::Nil, &reg, memory, new_result());
    assert_eq!(0xFF, result.reg.y);
    assert!(result.reg.status.negative());
}

#[test]
fn a_branch_costs_one_cycle_and_one_more_across_pages() {
    let mut reg = Registers::new();
    reg.pc = 0x1080;
    let not_taken = branch(false, &reg, 0x10, new_result());
    assert_eq!(0, not_taken.cycles);
    assert_eq!(0, not_taken.reg.pc);
    let taken = branch(true, &reg, 0x10, new_result());
    assert_eq!(1, taken.cycles);
    assert_eq!(0x1090, taken.reg.pc);
    let within = branch(true, &reg, 0x7F, new_result());
    assert_eq!(1, within.cycles);
    assert_eq!(0x10FF, within.reg.pc);
    reg.pc = 0x10F0;
    let forward = branch(true, &reg, 0x10, new_result());
    assert_eq!(2, forward.cycles);
    assert_eq!(0x1100, forward.reg.pc);
    reg.pc = 0x1000;
    let backward = branch(true, &reg, 0xFF, new_result());
    assert_eq!(2, backward.cycles);
    assert_eq!(0x0FFF, backward.reg.pc);
}

#[test]
fn each_branch_takes_its_condition() {
    let memory = &mut ram();
    let mut reg = Registers::new();
    reg.pc = 0x1000;
    let taken = 0x1004;
    let cases = [
        (OpClass::Bcc, OpClass::Bcs, 0x01u8),
        (OpClass::Bne, OpClass::Beq, 0x02),
        (OpClass::Bvc, OpClass::Bvs, 0x40),
        (OpClass::Bpl, OpClass::Bmi, 0x80),
    ];
    for (on_clear, on_set, mask) in cases {
        reg.status.set_value(0);
        let result = execute(on_clear, PCOffset, &OpParam::Byte(4), &reg, memory, new_result());
        assert_eq!(taken, result.reg.pc);
        let result = execute(on_set, PCOffset, &OpParam::Byte(4), &reg, memory, new_result());
        assert_eq!(0x1000, result.reg.pc);
        reg.status.set_value(mask);
        let result = execute(on_clear, PCOffset, &OpParam::Byte(4), &reg, memory, new_result());
        assert_eq!(0x1000, result.reg.pc);
        let result = execute(on_set, PCOffset, &OpParam::Byte(4), &reg, memory, new_result());
        assert_eq!(taken, result.reg.pc);
        assert_eq!(1, result.cycles);
    }
}

#[test]
fn jmp_absolute_and_indirect() {
    let memory = &mut ram();
    memory.write().byte(0x10FF, 0x34);
    memory.write().byte(0x1000, 0x12);
    memory.write().byte(0x1100, 0x56);
    let reg = Registers::new();
    let result = execute(OpClass::Jmp, Absolute, &OpParam::Word(0x4321), &reg, memory, new_result());
    assert_eq!(0x4321, result.reg.pc);
    let result = execute(OpClass::Jmp, Indirect, &OpParam::Word(0x10FF), &reg, memory, new_result());
    assert_eq!(0x1234, result.reg.pc);
}

#[test]
fn jsr_and_rts_go_through_the_stack() {
    let memory = &mut ram();
    let mut reg = Registers::new();
    reg.pc = 0x1203;
    let called = execute(OpClass::Jsr, Absolute, &OpParam::Word(0x3000), &reg, memory, new_result());
    assert_eq!(0x3000, called.reg.pc);
    assert_eq!(0xFD, called.reg.sp);
    assert_eq!(vec![Write::new(0x01FF, 0x12), Write::new(0x01FE, 0x02)], called.writes);
    for write in &called.writes {
        memory.write().byte(write.address, write.value);
    }
    let returned = execute(OpClass::Rts, Implied, &OpParam::Nil, &called.reg, memory, new_result());
    assert_eq!(0x1203, returned.reg.pc);
    assert_eq!(0xFF, returned.reg.sp);
}

#[test]
fn rti_pulls_the_status_and_the_program_counter() {
    let memory = &mut ram();
    memory.write().byte(0x01FD, 0xFF);
    memory.write().byte(0x01FE, 0x34);
    memory.write().byte(0x01FF, 0x12);
    let mut reg = Registers::new();
    reg.sp = 0xFC;
    reg.status.set_brk(true);
    let result = execute(OpClass::Rti, Implied, &OpParam::Nil, &reg, memory, new_result());
    assert_eq!(0x1234, result.reg.pc);
    assert_eq!(0xFF, result.reg.sp);
    assert_eq!(0xEF, result.reg.status.value());
    assert!(!result.reg.status.brk());
}

#[test]
fn brk_pushes_and_jumps_through_its_vector() {
    let memory = &mut ram();
    memory.write().byte(0xFFFE, 0x00);
    memory.write().byte(0xFFFF, 0x90);
    let mut reg = Registers::new();
    reg.pc = 0x1000;
    assert_eq!(0xFF, reg.sp);
    assert_eq!(0x20, reg.status.value());
    let result = execute(OpClass::Brk, Implied, &OpParam::Nil, &reg, memory, new_result());
    assert_eq!(0x9000, result.reg.pc);
    assert_eq!(0xFC, result.reg.sp);
    assert!(result.reg.status.brk());
    assert_eq!(
        vec![Write::new(0x01FF, 0x10), Write::new(0x01FE, 0x01), Write::new(0x01FD, 0x30)],
        result.writes
    );

    reg.pc = 0x12FE;
    let result = execute(OpClass::Brk, Implied, &OpParam::Nil, &reg, memory, new_result());
    assert_eq!(Write::new(0x01FF, 0x12), result.writes[0]);
    assert_eq!(Write::new(0x01FE, 0xFF), result.writes[1]);
}

#[test]
fn nop_changes_nothing() {
    let memory = &mut ram();
    let mut reg = Registers::new();
    reg.a = 1;
    reg.pc = 0x1234;
    let result = execute(OpClass::Nop, ZeroPageOffsetX, &OpParam::Byte(1), &reg, memory, new_result());
    assert_eq!(1, result.reg.a);
    assert_eq!(0x1234, result.reg.pc);
    assert_eq!(0x20, result.reg.status.value());
    assert_eq!(0, result.cycles);
    assert!(result.writes.is_empty());
}

#[test]
fn execute_starts_from_the_given_registers_and_no_writes() {
    let memory = &mut ram();
    let mut reg = Registers::new();
    reg.a = 0x42;
    let mut stale = InstructionResult::new();
    stale.reg.x = 0x99;
    stale.writes.push(Write::new(1, 2));
    stale.cycles = 3;
    let result = execute(OpClass::Tax, Implied, &OpParam::Nil, &reg, memory, stale);
    assert_eq!(0x42, result.reg.x);
    assert_eq!(0x42, result.reg.a);
    assert!(result.writes.is_empty());
    assert_eq!(3, result.cycles);
}

#[test]
fn the_executor_decodes_advances_and_counts_base_cycles() {
    let memory = &mut ram();
    memory.write().byte(0x0200, 0xBD);
    memory.write().byte(0x0201, 0xF5);
    memory.write().byte(0x0202, 0x20);
    memory.write().byte(0x2105, 0x77);
    let mut reg = Registers::new();
    reg.pc = 0x0200;
    reg.x = 0x10;
    let mut executor = Executor::new();
    let result = executor.execute_instruction(&reg, memory, InstructionResult::new()).unwrap();
    assert_eq!(0x77, result.reg.a);
    assert_eq!(0x0203, result.reg.pc);
    assert_eq!(5, result.cycles);
    assert!(result.writes.is_empty());

    memory.write().byte(0x0300, 0xD0);
    memory.write().byte(0x0301, 0xFE);
    reg.pc = 0x0300;
    let result = executor.execute_instruction(&reg, memory, InstructionResult::new()).unwrap();
    assert_eq!(0x0300, result.reg.pc);
    assert_eq!(3, result.cycles);
}

#[test]
fn the_executor_runs_an_instruction_that_was_decoded_elsewhere() {
    let memory = &mut ram();
    memory.write().byte(0x0040, 0x07);
    let mut reg = Registers::new();
    reg.pc = 0x0200;
    let mut executor = Executor::new();
    let code = OpCode::from_value(0xA5).unwrap();
    let op = Op::new(code, OpParam::Byte(0x40));
    let result = executor.execute_op(&op, &reg, memory, InstructionResult::new());
    assert_eq!(0x07, result.reg.a);
    assert_eq!(0x0202, result.reg.pc);
    assert_eq!(3, result.cycles);
}

#[test]
fn the_executor_fails_on_a_byte_that_is_no_opcode() {
    let memory = &mut ram();
    memory.write().byte(0x0200, 0xFF);
    let mut reg = Registers::new();
    reg.pc = 0x0200;
    let mut executor = Executor::new();
    let error = executor.execute_instruction(&reg, memory, InstructionResult::new()).err().unwrap();
    assert_eq!(0x0200, error.pc);
    assert_eq!(0xFF, error.opcode);
}

#[test]
fn post_indirect_reads_take_a_cycle_for_a_page_crossing() {
    let memory = &mut ram();
    memory.write().byte(0x0080, 0xF0);
    memory.write().byte(0x0081, 0x30);
    memory.write().byte(0x3110, 0x11);
    let mut reg = Registers::new();
    reg.y = 0x20;
    let result =
        execute(OpClass::Lda, PostIndirectY, &OpParam::Byte(0x80), &reg, memory, new_result());
    assert_eq!(0x11, result.reg.a);
    assert_eq!(1, result.cycles);
}

#[test]
fn adc_and_sbc_on_every_input() {
    for a in 0..=255u8 {
        for m in 0..=255u8 {
            for carry in [false, true] {
                let mut added = Registers::new();
                add_with_carry(&mut added, a, m, carry);
                let sum = a as u16 + m as u16 + carry as u16;
                let signed_sum = a as i8 as i16 + m as i8 as i16 + carry as i16;
                assert_eq!(sum as u8, added.a);
                assert_eq!(sum > 0xFF, added.status.carry());
                assert_eq!(signed_sum < -128 || signed_sum > 127, added.status.overflow());
                assert_eq!(added.a >= 0x80, added.status.negative());
                assert_eq!(added.a == 0, added.status.zero());

                let mut subtracted = Registers::new();
                subtract_with_borrow(&mut subtracted, a, m, carry);
                let difference = a as i16 - m as i16 - (!carry) as i16;
                let signed_difference = a as i8 as i16 - m as i8 as i16 - (!carry) as i16;
                assert_eq!(difference as u8, subtracted.a);
                assert_eq!(difference >= 0, subtracted.status.carry());
                assert_eq!(
                    signed_difference < -128 || signed_difference > 127,
                    subtracted.status.overflow()
                );
                assert_eq!(subtracted.a >= 0x80, subtracted.status.negative());
                assert_eq!(subtracted.a == 0, subtracted.status.zero());

                let mut complement = Registers::new();
                subtract_with_borrow(&mut complement, a, 255 - m, carry);
                assert_eq!(added.a, complement.a);
                assert_eq!(added.status.value(), complement.status.value());
            }
        }
    }
}

#[test]
fn compare_on_every_input() {
    for value in 0..=255u8 {
        for against in 0..=255u8 {
            let mut reg = Registers::new();
            compare(&mut reg, value, against);
            assert_eq!(value >= against, reg.status.carry());
            assert_eq!(value == against, reg.status.zero());
            assert_eq!(value.wrapping_sub(against) & 0x80 != 0, reg.status.negative());
            assert_eq!(0, reg.a);
        }
    }
}

#[test]
fn shifts_and_rotations_on_every_input() {
    let memory = &mut ram();
    for value in 0..=255u8 {
        for carry in [false, true] {
            let mut reg = Registers::new();
            reg.a = value;
            reg.status.set_carry(carry);
            let asl = execute(OpClass::Asl, Implied, &OpParam::Nil, &reg, memory, new_result());
            assert_eq!(((value as u16 * 2) % 256) as u8, asl.reg.a);
            assert_eq!(value >= 0x80, asl.reg.status.carry());
            let lsr = execute(OpClass::Lsr, Implied, &OpParam::Nil, &reg, memory, new_result());
            assert_eq!(value / 2, lsr.reg.a);
            assert_eq!(value % 2 == 1, lsr.reg.status.carry());
            assert!(!lsr.reg.status.negative());
            let rol = execute(OpClass::Rol, Implied, &OpParam::Nil, &reg, memory, new_result());
            assert_eq!(((value as u16 * 2) % 256) as u8 + carry as u8, rol.reg.a);
            assert_eq!(value >= 0x80, rol.reg.status.carry());
            let ror = execute(OpClass::Ror, Implied, &OpParam::Nil, &reg, memory, new_result());
            assert_eq!(value / 2 + 128 * carry as u8, ror.reg.a);
            assert_eq!(value % 2 == 1, ror.reg.status.carry());
            for result in [&asl, &rol, &ror] {
                assert_eq!(result.reg.a >= 0x80, result.reg.status.negative());
                assert_eq!(result.reg.a == 0, result.reg.status.zero());
            }
            assert_eq!(lsr.reg.a == 0, lsr.reg.status.zero());
        }
    }
}
