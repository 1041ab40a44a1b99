use hassel_emu::opcode::branch_target;
use hassel_emu::{
    decode_op, DecodeError, MemoryMap, NullDevice, OpAddressMode, OpClass, OpCode, OpParam,
    Registers, WriteMemory,
};

fn ram() -> MemoryMap<NullDevice> {
    MemoryMap::builder().ram(0x0000, 0xFFFF).build()
}

#[test]
fn opcode_test_zero_page_wrapping() {
    let mut memory: MemoryMap<NullDevice> = MemoryMap::builder().ram(0x0000, 0xFFFF).build();
    let mut registers = Registers::new();
    registers.x = 0xFF;

    // Write some test data to key addresses
    memory.write().byte(0x0000, 101);
    memory.write().byte(0x0100, 213);

    let params = OpParam::Byte(1);
    let (page_boundary, val) =
        OpAddressMode::ZeroPageOffsetX.address_and_read_byte(&params, &registers, &mut memory);

    // Because this is zero page, the value should wrap to 0x00
    assert_eq!(101, val);
    assert_eq!(false, page_boundary);

    let (crossed, address) =
        OpAddressMode::ZeroPageOffsetX.address(&params, &registers, &mut memory);
    assert_eq!(0x0000, address);
    assert_eq!(false, crossed);
}

#[test]
fn the_table_holds_the_documented_instructions() {
    let lda = OpCode::from_value(0xA9).unwrap();
    assert_eq!(0xA9, lda.value);
    assert_eq!("LDA", lda.name);
    assert_eq!(OpClass::Lda, lda.class);
    assert_eq!(2, lda.len);
    assert_eq!(2, lda.base_cycles);
    assert_eq!(OpAddressMode::Immediate, lda.address_mode);

    let sta = OpCode::from_value(0x85).unwrap();
    assert_eq!("STA", sta.name);
    assert_eq!(OpClass::Sta, sta.class);
    assert_eq!(2, sta.len);
    assert_eq!(3, sta.base_cycles);
    assert_eq!(OpAddressMode::ZeroPage, sta.address_mode);

    let jmp = OpCode::from_value(0x4C).unwrap();
    assert_eq!(OpClass::Jmp, jmp.class);
    assert_eq!(3, jmp.len);
    assert_eq!(3, jmp.base_cycles);
    assert_eq!(OpAddressMode::Absolute, jmp.address_mode);

    let jmp_indirect = OpCode::from_value(0x6C).unwrap();
    assert_eq!(OpClass::Jmp, jmp_indirect.class);
    assert_eq!(3, jmp_indirect.len);
    assert_eq!(5, jmp_indirect.base_cycles);
    assert_eq!(OpAddressMode::Indirect, jmp_indirect.address_mode);

    let brk = OpCode::from_value(0x00).unwrap();
    assert_eq!(OpClass::Brk, brk.class);
    assert_eq!(1, brk.len);
    assert_eq!(7, brk.base_cycles);
    assert_eq!(OpAddressMode::Implied, brk.address_mode);

    let bne = OpCode::from_value(0xD0).unwrap();
    assert_eq!(OpClass::Bne, bne.class);
    assert_eq!(2, bne.len);
    assert_eq!(2, bne.base_cycles);
    assert_eq!(OpAddressMode::PCOffset, bne.address_mode);

    let sta_indirect = OpCode::from_value(0x91).unwrap();
    assert_eq!(OpClass::Sta, sta_indirect.class);
    assert_eq!(6, sta_indirect.base_cycles);
    assert_eq!(OpAddressMode::PostIndirectY, sta_indirect.address_mode);

    let ldx = OpCode::from_value(0xB6).unwrap();
    assert_eq!(OpClass::Ldx, ldx.class);
    assert_eq!(OpAddressMode::ZeroPageOffsetY, ldx.address_mode);
}

#[test]
fn the_table_holds_the_undocumented_no_operations() {
    for value in [0x1Au8, 0x3A, 0x5A, 0x7A, 0xDA, 0xFA] {
        let code = OpCode::from_value(value).unwrap();
        assert_eq!(OpClass::Nop, code.class);
        assert_eq!(1, code.len);
        assert_eq!(2, code.base_cycles);
    }
    for value in [0x04u8, 0x44, 0x64] {
        let code = OpCode::from_value(value).unwrap();
        assert_eq!(OpClass::Nop, code.class);
        assert_eq!(2, code.len);
        assert_eq!(3, code.base_cycles);
        assert_eq!(OpAddressMode::ZeroPage, code.address_mode);
    }
    for value in [0x80u8, 0x82, 0x89, 0xC2, 0xE2] {
        let code = OpCode::from_value(value).unwrap();
        assert_eq!(OpClass::Nop, code.class);
        assert_eq!(2, code.len);
        assert_eq!(2, code.base_cycles);
        assert_eq!(OpAddressMode::Immediate, code.address_mode);
    }
    let top = OpCode::from_value(0x0C).unwrap();
    assert_eq!(OpClass::Top, top.class);
    assert_eq!(3, top.len);
    assert_eq!(4, top.base_cycles);
    assert_eq!(OpAddressMode::Absolute, top.address_mode);
    for value in [0x1Cu8, 0x3C, 0x5C, 0x7C, 0xDC, 0xFC] {
        let code = OpCode::from_value(value).unwrap();
        assert_eq!(OpClass::Top, code.class);
        assert_eq!(3, code.len);
        assert_eq!(OpAddressMode::AbsoluteOffsetX, code.address_mode);
    }
}

#[test]
fn the_table_has_no_entry_for_other_bytes() {
    for value in [0x02u8, 0x03, 0x07, 0x0B, 0x12, 0x22, 0x9C, 0xAB, 0xFF] {
        assert!(OpCode::from_value(value).is_none());
    }
    let mut entries = 0;
    for value in 0..=255u8 {
        if let Some(code) = OpCode::from_value(value) {
            entries += 1;
            assert_eq!(value, code.value);
            assert!(1 <= code.len && code.len <= 3);
            assert_eq!(code.len, 1 + code.address_mode.operand_len());
            assert_eq!(code.class.name(), code.name);
        }
    }
    assert_eq!(178, entries);
}

#[test]
fn operands_convert_to_bytes_and_words() {
    assert_eq!(0, OpParam::Nil.as_u8());
    assert_eq!(0, OpParam::Nil.as_u16());
    assert_eq!(0x12, OpParam::Byte(0x12).as_u8());
    assert_eq!(0x0012, OpParam::Byte(0x12).as_u16());
    assert_eq!(0x34, OpParam::Word(0x1234).as_u8());
    assert_eq!(0x1234, OpParam::Word(0x1234).as_u16());
}

#[test]
fn decode_reads_the_operand_that_the_opcode_asks_for() {
    let mut memory = ram();
    memory.write().byte(0x0200, 0xEA);
    memory.write().byte(0x0201, 0xA9);
    memory.write().byte(0x0202, 0x03);
    memory.write().byte(0x0203, 0x4C);
    memory.write().byte(0x0204, 0xF6);
    memory.write().byte(0x0205, 0xFF);

    let nop = decode_op(&mut memory, 0x0200).unwrap();
    assert_eq!(OpClass::Nop, nop.code.class);
    assert_eq!(OpParam::Nil, nop.param);

    let lda = decode_op(&mut memory, 0x0201).unwrap();
    assert_eq!(OpClass::Lda, lda.code.class);
    assert_eq!(OpParam::Byte(0x03), lda.param);

    let jmp = decode_op(&mut memory, 0x0203).unwrap();
    assert_eq!(OpClass::Jmp, jmp.code.class);
    assert_eq!(OpParam::Word(0xFFF6), jmp.param);
}

#[test]
fn decode_wraps_round_the_end_of_the_address_space() {
    let mut memory = ram();
    memory.write().byte(0xFFFF, 0x4C);
    memory.write().byte(0x0000, 0x34);
    memory.write().byte(0x0001, 0x12);
    let jmp = decode_op(&mut memory, 0xFFFF).unwrap();
    assert_eq!(OpParam::Word(0x1234), jmp.param);
}

#[test]
fn decode_fails_on_a_byte_that_is_no_opcode() {
    let mut memory = ram();
    memory.write().byte(0x0300, 0x02);
    assert_eq!(
        Some(DecodeError { pc: 0x0300, opcode: 0x02 }),
        decode_op(&mut memory, 0x0300).err()
    );
}

#[test]
fn pages_and_offsets() {
    assert!(OpAddressMode::same_page(0x1000, 0x10FF));
    assert!(!OpAddressMode::same_page(0x10FF, 0x1100));
    assert_eq!((false, 0x1005), OpAddressMode::offset(0x1000, 5));
    assert_eq!((true, 0x1104), OpAddressMode::offset(0x10FF, 5));
    assert_eq!((true, 0x0004), OpAddressMode::offset(0xFFFF, 5));
}

#[test]
fn branch_targets_are_signed_offsets() {
    assert_eq!(0x1005, branch_target(0x1000, 5));
    assert_eq!(0x107F, branch_target(0x1000, 0x7F));
    assert_eq!(0x0FFF, branch_target(0x1000, 0xFF));
    assert_eq!(0x0F80, branch_target(0x1000, 0x80));
    assert_eq!(0xFFFE, branch_target(0x0000, 0xFE));
    assert_eq!(0x0001, branch_target(0xFFFF, 0x02));
}

#[test]
fn every_addressing_mode_resolves_its_address() {
    let mut memory = ram();
    let mut reg = Registers::new();
    reg.a = 0x77;
    reg.x = 0x04;
    reg.y = 0x10;
    reg.pc = 0x2000;
    memory.write().byte(0x0024, 0x74);
    memory.write().byte(0x0025, 0x20);
    memory.write().byte(0x0086, 0x28);
    memory.write().byte(0x0087, 0x40);
    memory.write().byte(0x2074, 0x99);
    memory.write().byte(0x4038, 0x55);

    assert_eq!((false, 0), OpAddressMode::Implied.address(&OpParam::Nil, &reg, &mut memory));
    assert_eq!(
        (false, 0x0042),
        OpAddressMode::Immediate.address(&OpParam::Byte(0x42), &reg, &mut memory)
    );
    assert_eq!(
        (false, 0x1234),
        OpAddressMode::Absolute.address(&OpParam::Word(0x1234), &reg, &mut memory)
    );
    assert_eq!(
        (false, 0x1238),
        OpAddressMode::AbsoluteOffsetX.address(&OpParam::Word(0x1234), &reg, &mut memory)
    );
    assert_eq!(
        (true, 0x1300),
        OpAddressMode::AbsoluteOffsetX.address(&OpParam::Word(0x12FC), &reg, &mut memory)
    );
    assert_eq!(
        (true, 0x130F),
        OpAddressMode::AbsoluteOffsetY.address(&OpParam::Word(0x12FF), &reg, &mut memory)
    );
    assert_eq!(
        (false, 0x0042),
        OpAddressMode::ZeroPage.address(&OpParam::Byte(0x42), &reg, &mut memory)
    );
    assert_eq!(
        (false, 0x0003),
        OpAddressMode::ZeroPageOffsetX.address(&OpParam::Byte(0xFF), &reg, &mut memory)
    );
    assert_eq!(
        (false, 0x000F),
        OpAddressMode::ZeroPageOffsetY.address(&OpParam::Byte(0xFF), &reg, &mut memory)
    );
    assert_eq!(
        (false, 0x2005),
        OpAddressMode::PCOffset.address(&OpParam::Byte(0x05), &reg, &mut memory)
    );
    assert_eq!(
        (true, 0x1FFE),
        OpAddressMode::PCOffset.address(&OpParam::Byte(0xFE), &reg, &mut memory)
    );
    assert_eq!(
        (false, 0x2074),
        OpAddressMode::Indirect.address(&OpParam::Word(0x0024), &reg, &mut memory)
    );
    assert_eq!(
        (false, 0x2074),
        OpAddressMode::PreIndirectX.address(&OpParam::Byte(0x20), &reg, &mut memory)
    );
    assert_eq!(
        (false, 0x4038),
        OpAddressMode::PostIndirectY.address(&OpParam::Byte(0x86), &reg, &mut memory)
    );

    assert_eq!(
        (false, 0x77),
        OpAddressMode::Implied.address_and_read_byte(&OpParam::Nil, &reg, &mut memory)
    );
    assert_eq!(
        (false, 0x42),
        OpAddressMode::Immediate.address_and_read_byte(&OpParam::Byte(0x42), &reg, &mut memory)
    );
    assert_eq!(
        (false, 0x99),
        OpAddressMode::PreIndirectX.address_and_read_byte(&OpParam::Byte(0x20), &reg, &mut memory)
    );
    assert_eq!(
        (false, 0x55),
        OpAddressMode::PostIndirectY.address_and_read_byte(&OpParam::Byte(0x86), &reg, &mut memory)
    );
    assert_eq!(
        (false, 0x99),
        OpAddressMode::Absolute.address_and_read_byte(&OpParam::Word(0x2074), &reg, &mut memory)
    );
}

#[test]
fn only_the_indexed_reads_report_a_page_crossing() {
    let mut memory = ram();
    let mut reg = Registers::new();
    reg.x = 0x10;
    reg.y = 0x20;
    memory.write().byte(0x0080, 0xF0);
    memory.write().byte(0x0081, 0x30);
    memory.write().byte(0x3110, 0x11);
    memory.write().byte(0x2105, 0x22);
    memory.write().byte(0x2115, 0x33);

    assert_eq!(
        (true, 0x11),
        OpAddressMode::PostIndirectY.address_and_read_byte(&OpParam::Byte(0x80), &reg, &mut memory)
    );
    assert_eq!(
        (true, 0x22),
        OpAddressMode::AbsoluteOffsetX.address_and_read_byte(
            &OpParam::Word(0x20F5),
            &reg,
            &mut memory
        )
    );
    assert_eq!(
        (true, 0x33),
        OpAddressMode::AbsoluteOffsetY.address_and_read_byte(
            &OpParam::Word(0x20F5),
            &reg,
            &mut memory
        )
    );
    reg.pc = 0x20FF;
    memory.write().byte(0x2101, 0x44);
    assert_eq!(
        (false, 0x44),
        OpAddressMode::PCOffset.address_and_read_byte(&OpParam::Byte(0x02), &reg, &mut memory)
    );
}

#[test]
fn the_pointer_of_an_indirect_jump_does_not_carry_into_the_next_page() {
    let mut memory = ram();
    memory.write().byte(0x10FF, 0x34);
    memory.write().byte(0x1000, 0x12);
    memory.write().byte(0x1100, 0x56);
    let reg = Registers::new();
    assert_eq!(
        (false, 0x1234),
        OpAddressMode::Indirect.address(&OpParam::Word(0x10FF), &reg, &mut memory)
    );
}
