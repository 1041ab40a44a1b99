use hassel_emu::hassel::{IODevice, Key};
use hassel_emu::memory::{read_slice, read_word, read_word_same_page, read_word_zero_page};
use hassel_emu::memory::read_around_debug_reads;
use hassel_emu::{
    InterruptType, MemoryBus, MemoryMap, MemoryMapError, MemoryMappedDevice, NullDevice,
    RAMDevice, ROMDevice, ReadMemory, ReadMemoryMut, SteppedDevice, WriteMemory,
};

#[test]
fn memory_test_interfaces() {
    let mut memory: MemoryMap<NullDevice> = MemoryMap::builder()
        .ram(0x0000, 0xCFFF)
        .rom(0xD000, 0xFFFF, vec![0xEA; 0x10000 - 0xD000])
        .build();

    assert_eq!(0x00, memory.read().byte(0x0005));
    memory.write().byte(0x0005, 0xFF);
    assert_eq!(0xFF, memory.read().byte(0x0005));

    assert_eq!(0xEA, memory.read().byte(0xD000));
    memory.write().byte(0xD000, 0x00);
    assert_eq!(0xEA, memory.read().byte(0xD000));

    assert_eq!(None, memory.step());
}

#[test]
fn test_read_word() {
    let mut bus: MemoryMap<NullDevice> = MemoryMap::builder()
        .ram(0x0000, 0xDFFD)
        .peripheral(0xDFFE, 0xDFFF, NullDevice::new())
        .rom(0xE000, 0xFFFF, vec![0u8; 0x2000])
        .build();
    bus.write().byte(0x500, 0x01);
    bus.write().byte(0x501, 0x02);
    assert_eq!(0x0201, bus.read().word(0x500));
}

#[test]
fn try_build_succeeds_when_segments_tile_the_address_space() {
    let in_order: Result<MemoryMap<NullDevice>, MemoryMapError> =
        MemoryMap::builder().ram(0x0000, 0x7FFF).ram(0x8000, 0xFFFF).try_build();
    assert!(in_order.is_ok());
    let out_of_order: Result<MemoryMap<NullDevice>, MemoryMapError> = MemoryMap::builder()
        .rom(0xFFFC, 0xFFFF, vec![0x00, 0x80, 0x00, 0x00])
        .ram(0x0100, 0xFFFB)
        .ram(0x0000, 0x00FF)
        .try_build();
    assert!(out_of_order.is_ok());
    let single: Result<MemoryMap<NullDevice>, MemoryMapError> =
        MemoryMap::builder().ram(0x0000, 0xFFFF).try_build();
    assert!(single.is_ok());
}

#[test]
fn the_fallible_adders_add_what_the_others_add() {
    let mut memory: MemoryMap<NullDevice> = MemoryMap::builder()
        .try_ram(0x0000, 0xCFFF)
        .try_rom(0xD000, 0xFFFF, vec![0xEA; 0x3000])
        .try_build()
        .unwrap();
    memory.write().byte(0x0005, 0xFF);
    assert_eq!(0xFF, memory.read().byte(0x0005));
    assert_eq!(0xEA, memory.read().byte(0xD000));
    assert_eq!(0xEA, memory.read().byte(0xFFFF));
}

#[test]
fn try_build_reports_a_gap() {
    let gap: Result<MemoryMap<NullDevice>, MemoryMapError> =
        MemoryMap::builder().ram(0x0000, 0x7FFF).ram(0x8001, 0xFFFF).try_build();
    assert_eq!(Some(MemoryMapError::Gap), gap.err());
    let not_from_zero: Result<MemoryMap<NullDevice>, MemoryMapError> =
        MemoryMap::builder().ram(0x0001, 0xFFFF).try_build();
    assert_eq!(Some(MemoryMapError::Gap), not_from_zero.err());
}

#[test]
fn try_build_reports_an_overlap() {
    let overlap: Result<MemoryMap<NullDevice>, MemoryMapError> =
        MemoryMap::builder().ram(0x0000, 0x8000).ram(0x8000, 0xFFFF).try_build();
    assert_eq!(Some(MemoryMapError::Gap), overlap.err());
    let twice: Result<MemoryMap<NullDevice>, MemoryMapError> =
        MemoryMap::builder().ram(0x0000, 0xFFFF).ram(0x0000, 0xFFFF).try_build();
    assert_eq!(Some(MemoryMapError::Gap), twice.err());
}

#[test]
fn try_build_reports_incomplete_coverage() {
    let short: Result<MemoryMap<NullDevice>, MemoryMapError> =
        MemoryMap::builder().ram(0x0000, 0x7FFF).try_build();
    assert_eq!(Some(MemoryMapError::Coverage), short.err());
    let empty: Result<MemoryMap<NullDevice>, MemoryMapError> = MemoryMap::builder().try_build();
    assert_eq!(Some(MemoryMapError::Coverage), empty.err());
}

#[test]
fn try_build_reports_a_rom_of_the_wrong_size() {
    let wrong: Result<MemoryMap<NullDevice>, MemoryMapError> = MemoryMap::builder()
        .ram(0x0000, 0xFFFB)
        .try_rom(0xFFFC, 0xFFFF, vec![0x00, 0x80, 0x00])
        .try_build();
    assert_eq!(Some(MemoryMapError::RomSize), wrong.err());
}

#[test]
fn try_build_reports_an_inverted_range() {
    let inverted: Result<MemoryMap<NullDevice>, MemoryMapError> =
        MemoryMap::builder().try_ram(0x8000, 0x7FFF).ram(0x0000, 0xFFFF).try_build();
    assert_eq!(Some(MemoryMapError::InvalidRange), inverted.err());
    let inverted_rom: Result<MemoryMap<NullDevice>, MemoryMapError> =
        MemoryMap::builder().ram(0x0000, 0xFFFF).try_rom(0x10, 0x0F, vec![]).try_build();
    assert_eq!(Some(MemoryMapError::InvalidRange), inverted_rom.err());
}

#[test]
fn a_peripheral_is_added_whatever_its_range_is() {
    // a range that holds no address, between two others
    let mut memory: MemoryMap<IODevice> = MemoryMap::builder()
        .ram(0x0000, 0x7FFF)
        .peripheral(0x8000, 0x7FFF, IODevice::new())
        .ram(0x8000, 0xFFFF)
        .build();
    memory.write().byte(0x7FFF, 1);
    memory.write().byte(0x8000, 2);
    assert_eq!(1, memory.read().byte(0x7FFF));
    assert_eq!(2, memory.read().byte(0x8000));
    assert!(memory.peripheral(0x7FFF).is_none());
    assert!(memory.peripheral(0x8000).is_none());
    // the device is stepped all the same: with nothing in its queue it asks for nothing
    assert_eq!(None, memory.step());

    let mut waiting = IODevice::new();
    waiting.key_down(Key::A);
    let mut memory: MemoryMap<IODevice> = MemoryMap::builder()
        .ram(0x0000, 0x7FFF)
        .peripheral(0x8000, 0x7FFF, waiting)
        .ram(0x8000, 0xFFFF)
        .build();
    assert_eq!(Some(InterruptType::Maskable), memory.step());
    assert_eq!(None, memory.step());
}

#[test]
fn a_range_that_holds_no_address_must_stand_before_the_segment_at_its_start() {
    let behind: Result<MemoryMap<NullDevice>, MemoryMapError> = MemoryMap::builder()
        .ram(0x0000, 0x7FFF)
        .ram(0x8000, 0xFFFF)
        .peripheral(0x8000, 0x7FFF, NullDevice::new())
        .try_build();
    assert_eq!(Some(MemoryMapError::Gap), behind.err());
    let within: Result<MemoryMap<NullDevice>, MemoryMapError> = MemoryMap::builder()
        .ram(0x0000, 0xFFFF)
        .peripheral(0x10, 0x0F, NullDevice::new())
        .try_build();
    assert_eq!(Some(MemoryMapError::Gap), within.err());
    let inverted: Result<MemoryMap<NullDevice>, MemoryMapError> = MemoryMap::builder()
        .ram(0x0000, 0x0004)
        .peripheral(0x0005, 0x0003, NullDevice::new())
        .ram(0x0004, 0xFFFF)
        .try_build();
    assert_eq!(Some(MemoryMapError::Gap), inverted.err());
    let alone: Result<MemoryMap<NullDevice>, MemoryMapError> =
        MemoryMap::builder().peripheral(0x8000, 0x7FFF, NullDevice::new()).try_build();
    assert_eq!(Some(MemoryMapError::Gap), alone.err());
}

#[test]
fn segments_are_added_after_a_mistake_too() {
    let result: Result<MemoryMap<NullDevice>, MemoryMapError> = MemoryMap::builder()
        .try_ram(0x8000, 0x7FFF)
        .try_ram(0x0000, 0xFFFF)
        .try_build();
    assert_eq!(Some(MemoryMapError::InvalidRange), result.err());
}

#[test]
fn the_first_mistake_is_the_one_reported() {
    let result: Result<MemoryMap<NullDevice>, MemoryMapError> = MemoryMap::builder()
        .try_rom(0xFFFC, 0xFFFF, vec![0x00])
        .try_ram(0x8000, 0x7FFF)
        .try_build();
    assert_eq!(Some(MemoryMapError::RomSize), result.err());
}

fn ram_and_rom() -> MemoryMap<NullDevice> {
    let mut rom = vec![0u8; 0x1000];
    for i in 0..rom.len() {
        rom[i] = (i % 251) as u8;
    }
    MemoryMap::builder().ram(0x0000, 0xEFFF).rom(0xF000, 0xFFFF, rom).build()
}

#[test]
fn ram_returns_what_was_written() {
    let mut memory = ram_and_rom();
    for addr in [0x0000u16, 0x0001, 0x00FF, 0x0100, 0x01FF, 0x7FFF, 0xEFFF] {
        for value in [0u8, 1, 0x7F, 0x80, 0xFF] {
            memory.write().byte(addr, value);
            assert_eq!(value, memory.read().byte(addr));
            assert_eq!(value, memory.debug_read().byte(addr));
        }
    }
}

#[test]
fn a_write_to_ram_is_seen_at_its_address_only() {
    let mut memory = ram_and_rom();
    memory.write().byte(0x0200, 0x11);
    memory.write().byte(0x0201, 0x22);
    memory.write().byte(0x0200, 0x33);
    assert_eq!(0x33, memory.read().byte(0x0200));
    assert_eq!(0x22, memory.read().byte(0x0201));
    assert_eq!(0x00, memory.read().byte(0x0202));
    assert_eq!(0x00, memory.read().byte(0x01FF));
}

#[test]
fn rom_keeps_its_bytes() {
    let mut memory = ram_and_rom();
    for addr in [0xF000u16, 0xF001, 0xF0FA, 0xFFFF] {
        let before = memory.read().byte(addr);
        assert_eq!(((addr - 0xF000) as usize % 251) as u8, before);
        memory.write().byte(addr, before.wrapping_add(1));
        assert_eq!(before, memory.read().byte(addr));
        assert_eq!(before, memory.debug_read().byte(addr));
    }
}

fn keyboard_system() -> MemoryMap<IODevice> {
    MemoryMap::builder()
        .ram(0x0000, 0xDFFE)
        .peripheral(0xDFFF, 0xDFFF, IODevice::new())
        .rom(0xE000, 0xFFFF, vec![0u8; 0x2000])
        .build()
}

#[test]
fn debug_reads_do_not_perturb_normal_reads() {
    let mut plain = keyboard_system();
    let mut watched = keyboard_system();
    for memory in [&mut plain, &mut watched] {
        let io = memory.peripheral_mut(0xDFFF).unwrap();
        io.key_down(Key::A);
        io.key_up(Key::A);
    }
    let first = plain.read().byte(0xDFFF);
    let second = plain.read().byte(0xDFFF);
    let third = plain.read().byte(0xDFFF);

    assert_eq!(0, watched.debug_read().byte(0xDFFF));
    assert_eq!(first, watched.read().byte(0xDFFF));
    for _ in 0..5 {
        assert_eq!(0, watched.debug_read().byte(0xDFFF));
        assert_eq!(0, watched.debug_read().word(0xDFFE));
    }
    assert_eq!(second, watched.read().byte(0xDFFF));
    assert_eq!(0, watched.debug_read().byte(0xDFFF));
    assert_eq!(third, watched.read().byte(0xDFFF));

    assert_eq!(0x01, first);
    assert_eq!(b'A', second);
    assert_eq!(0x02, third);
}

#[test]
fn normal_reads_around_debug_reads() {
    let mut plain = keyboard_system();
    let mut watched = keyboard_system();
    for memory in [&mut plain, &mut watched] {
        memory.peripheral_mut(0xDFFF).unwrap().key_down(Key::Key7);
    }
    let first = plain.read().byte(0xDFFF);
    let second = plain.read().byte(0xDFFF);
    assert_eq!(
        (first, second),
        read_around_debug_reads(&mut watched, 0xDFFF, &[0xDFFF, 0x0000, 0xDFFF, 0xE000], 0xDFFF)
    );
    assert_eq!((0x01, b'7'), (first, second));
    assert_eq!(0, watched.read().byte(0xDFFF));
}

#[test]
fn plain_devices_do_nothing_in_their_step() {
    let mut memory = ram_and_rom();
    let mut ram = RAMDevice::new(0x1000, 4);
    ram.write_byte(0x1001, 5);
    assert_eq!(None, ram.step(&mut memory));
    assert_eq!(5, ram.read_byte(0x1001));
    let mut rom = ROMDevice::new(0x2000, vec![1, 2, 3]);
    assert_eq!(None, rom.step(&mut memory));
    assert_eq!(2, rom.read_byte(0x2001));
    let mut null = NullDevice::new();
    assert_eq!(None, null.step(&mut memory));
    assert_eq!(0, null.read_byte_mut(0));
    null.write_byte(0, 1);
    assert_eq!(0, null.read_byte(0));
    assert!(!null.requires_step());
}

#[test]
fn words_are_read_low_byte_first() {
    let mut memory = ram_and_rom();
    memory.write().byte(0x1000, 0x34);
    memory.write().byte(0x1001, 0x12);
    assert_eq!(0x1234, memory.read().word(0x1000));
    assert_eq!(0x1234, memory.debug_read().word(0x1000));
    assert_eq!(0x1234, read_word(&mut memory, 0x1000));
}

#[test]
fn zero_page_words_wrap_within_page_zero() {
    let mut memory = ram_and_rom();
    memory.write().byte(0x00FF, 0x34);
    memory.write().byte(0x0000, 0x12);
    memory.write().byte(0x0100, 0x56);
    assert_eq!(0x1234, memory.read().word_zero_page(0xFF));
    assert_eq!(0x1234, memory.debug_read().word_zero_page(0xFF));
    assert_eq!(0x1234, read_word_zero_page(&mut memory, 0xFF));
    assert_eq!(0x5634, memory.read().word(0x00FF));
}

#[test]
fn same_page_words_take_the_high_byte_from_the_page_of_the_low_byte() {
    let mut memory = ram_and_rom();
    memory.write().byte(0x10FF, 0x34);
    memory.write().byte(0x1000, 0x12);
    memory.write().byte(0x1100, 0x56);
    assert_eq!(0x1234, read_word_same_page(&mut memory, 0x10FF));
    assert_eq!(0x5634, read_word(&mut memory, 0x10FF));
    memory.write().byte(0x1080, 0x78);
    memory.write().byte(0x1081, 0x9A);
    assert_eq!(0x9A78, read_word_same_page(&mut memory, 0x1080));
}

#[test]
fn word_reads_wrap_round_the_end_of_the_address_space() {
    let mut memory: MemoryMap<NullDevice> = MemoryMap::builder().ram(0x0000, 0xFFFF).build();
    memory.write().byte(0xFFFF, 0xCD);
    memory.write().byte(0x0000, 0xAB);
    assert_eq!(0xABCD, memory.read().word(0xFFFF));
}

#[test]
fn dma_slices_copy_a_range() {
    let mut memory = ram_and_rom();
    for i in 0..8u16 {
        memory.write().byte(0x2000 + i, 0x10 + i as u8);
    }
    let mut buffer = [0u8; 8];
    memory.read().dma_slice(&mut buffer, 0x2000);
    assert_eq!([0x10, 0x11, 0x12, 0x13, 0x14, 0x15, 0x16, 0x17], buffer);

    let mut debug = [0u8; 4];
    memory.debug_read().dma_slice(&mut debug, 0x2002);
    assert_eq!([0x12, 0x13, 0x14, 0x15], debug);

    let mut direct = [0u8; 3];
    read_slice(&mut memory, &mut direct, 0x2005);
    assert_eq!([0x15, 0x16, 0x17], direct);

    let mut nothing: [u8; 0] = [];
    memory.read().dma_slice(&mut nothing, 0x2000);
}

#[test]
fn dma_slices_wrap_round_the_end_of_the_address_space() {
    let mut memory: MemoryMap<NullDevice> = MemoryMap::builder().ram(0x0000, 0xFFFF).build();
    memory.write().byte(0xFFFE, 1);
    memory.write().byte(0xFFFF, 2);
    memory.write().byte(0x0000, 3);
    memory.write().byte(0x0001, 4);
    let mut buffer = [0u8; 4];
    memory.read().dma_slice(&mut buffer, 0xFFFE);
    assert_eq!([1, 2, 3, 4], buffer);
}

#[test]
fn the_bus_operations_of_the_map() {
    let mut memory = ram_and_rom();
    memory.write_byte(0x0042, 0x99);
    assert_eq!(0x99, memory.read_byte(0x0042));
    assert_eq!(0x99, memory.debug_byte(0x0042));
    assert_eq!(1, memory.debug_byte(0xF001));
}

#[test]
fn a_null_peripheral_reads_zero_and_ignores_writes() {
    let mut memory: MemoryMap<NullDevice> = MemoryMap::builder()
        .ram(0x0000, 0x7FFF)
        .peripheral(0x8000, 0x8FFF, NullDevice::new())
        .ram(0x9000, 0xFFFF)
        .build();
    memory.write().byte(0x8000, 0x55);
    assert_eq!(0, memory.read().byte(0x8000));
    assert_eq!(0, memory.debug_read().byte(0x8000));
    assert_eq!(None, memory.step());
    assert!(memory.peripheral(0x8000).is_some());
    assert!(memory.peripheral(0x7FFF).is_none());
    assert!(memory.peripheral_mut(0x9000).is_none());
}

#[test]
fn ram_and_rom_devices_answer_within_their_range() {
    let mut ram = RAMDevice::new(0x1000, 0x10);
    assert_eq!(0, ram.read_byte(0x1000));
    ram.write_byte(0x100F, 7);
    assert_eq!(7, ram.read_byte(0x100F));
    assert_eq!(7, ram.read_byte_mut(0x100F));
    ram.write_byte(0x1010, 9);
    assert_eq!(0, ram.read_byte(0x1010));
    assert_eq!(0, ram.read_byte(0x0FFF));
    assert!(!ram.requires_step());

    let mut rom = ROMDevice::new(0x2000, vec![1, 2, 3]);
    assert_eq!(1, rom.read_byte(0x2000));
    assert_eq!(3, rom.read_byte_mut(0x2002));
    rom.write_byte(0x2000, 9);
    assert_eq!(1, rom.read_byte(0x2000));
    assert_eq!(0, rom.read_byte(0x2003));
    assert!(!rom.requires_step());
}

#[test]
fn step_reports_the_interrupt_of_a_device() {
    let mut memory = keyboard_system();
    assert_eq!(None, memory.step());
    memory.peripheral_mut(0xDFFF).unwrap().key_down(Key::Space);
    assert_eq!(Some(InterruptType::Maskable), memory.step());
    assert_eq!(None, memory.step());
    assert_eq!(0x01, memory.read().byte(0xDFFF));
    assert_eq!(None, memory.step());
    assert_eq!(b' ', memory.read().byte(0xDFFF));
    assert_eq!(None, memory.step());
}

#[test]
fn interrupts_of_one_step_merge_into_one() {
    let maskable = Some(InterruptType::Maskable);
    let non_maskable = Some(InterruptType::NonMaskable);
    assert_eq!(None, InterruptType::merge(None, None));
    assert_eq!(maskable, InterruptType::merge(None, maskable));
    assert_eq!(non_maskable, InterruptType::merge(None, non_maskable));
    assert_eq!(maskable, InterruptType::merge(maskable, None));
    assert_eq!(maskable, InterruptType::merge(maskable, maskable));
    assert_eq!(non_maskable, InterruptType::merge(maskable, non_maskable));
    assert_eq!(non_maskable, InterruptType::merge(non_maskable, None));
    assert_eq!(non_maskable, InterruptType::merge(non_maskable, maskable));
    assert_eq!(non_maskable, InterruptType::merge(non_maskable, non_maskable));
}
