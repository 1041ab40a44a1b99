use hassel_emu::hassel::graphics_device::{
    IOState, CMD_CLEAR_SCREEN, CMD_SET_COLOR, CMD_SET_MODE, CMD_SET_POSITION, CMD_SET_VALUE,
    CMD_SET_VALUES_DMA, DEFAULT_BG_COLOR, DEFAULT_COLOR, FRAME_BUFFER_SIZE, SCREEN_HEIGHT_CHARS,
    SCREEN_WIDTH_CHARS,
};
use hassel_emu::hassel::io_device::contains_key;
use hassel_emu::hassel::{
    GraphicsDevice, HasselError, HasselSystemBuilder, IODevice, Key, Peripherals,
    SCREEN_HEIGHT_PIXELS, SCREEN_WIDTH_PIXELS,
};
use hassel_emu::{
    Cpu, InterruptType, MemoryMap, MemoryMapError, MemoryMappedDevice, NullDevice, ReadMemory,
    ReadMemoryMut, SteppedDevice, WriteMemory,
};

fn font_with_glyph(code_point: u8, pixels: &[(usize, usize)]) -> Vec<u8> {
    let mut font = vec![0u8; 288 * 128];
    for &(row, col) in pixels {
        let x = (code_point as usize % 32) * 9 + col;
        let y = (code_point as usize / 32) * 16 + row;
        font[y * 288 + x] = 1;
    }
    font
}

fn ram() -> MemoryMap<NullDevice> {
    MemoryMap::builder().ram(0x0000, 0xFFFF).build()
}

#[test]
fn test_render_out_of_bounds() {
    // Expectation: writing out of bounds should not crash
    let address_doesnt_matter = 0;
    let mut bus = GraphicsDevice::new(vec![0u8; 288 * 128]);
    for y in 0..256 {
        for x in 0..256 {
            bus.write_byte(address_doesnt_matter, CMD_SET_POSITION);
            bus.write_byte(address_doesnt_matter, x as u8);
            bus.write_byte(address_doesnt_matter, y as u8);
            bus.write_byte(address_doesnt_matter, CMD_SET_VALUE);
            bus.write_byte(address_doesnt_matter, 'h' as u8);
        }
    }

    bus.write_byte(address_doesnt_matter, CMD_SET_POSITION);
    bus.write_byte(address_doesnt_matter, 0);
    bus.write_byte(address_doesnt_matter, 0);

    for _ in 0..(SCREEN_WIDTH_CHARS * SCREEN_HEIGHT_CHARS + 1) {
        bus.write_byte(address_doesnt_matter, CMD_SET_VALUE);
        bus.write_byte(address_doesnt_matter, 'h' as u8);
    }
}

#[test]
fn drawing_out_of_bounds_does_not_crash() {
    let mut memory = ram();
    let mut device = GraphicsDevice::new(font_with_glyph(b'h', &[(0, 0), (15, 8)]));
    for y in [0u8, 29, 30, 31, 100, 255] {
        for x in [0u8, 70, 71, 72, 200, 255] {
            device.write_byte(0, CMD_SET_POSITION);
            device.write_byte(0, x);
            device.write_byte(0, y);
            assert_eq!(None, device.step(&mut memory));
            device.write_byte(0, CMD_SET_VALUE);
            device.write_byte(0, b'h');
            assert_eq!(None, device.step(&mut memory));
            device.write_byte(0, CMD_SET_VALUE);
            device.write_byte(0, b'\n');
            assert_eq!(None, device.step(&mut memory));
        }
    }
    assert_eq!(FRAME_BUFFER_SIZE, device.frame_buffer().len());
}

#[test]
fn a_new_screen_is_empty() {
    let device = GraphicsDevice::new(Vec::new());
    assert_eq!(SCREEN_WIDTH_PIXELS * SCREEN_HEIGHT_PIXELS, device.frame_buffer().len());
    assert!(device.frame_buffer().iter().all(|&pixel| pixel == DEFAULT_BG_COLOR));
    assert_eq!(0xFF000000, DEFAULT_BG_COLOR);
    assert_eq!(0, device.read_byte(0xDFFE));
    assert!(device.requires_step());
}

#[test]
fn a_character_is_drawn_at_the_cursor() {
    let mut memory = ram();
    let mut device = GraphicsDevice::new(font_with_glyph(b'A', &[(0, 0), (3, 4), (15, 8)]));
    device.write_byte(0, CMD_SET_POSITION);
    device.write_byte(0, 2);
    device.write_byte(0, 1);
    device.step(&mut memory);
    device.write_byte(0, CMD_SET_VALUE);
    device.write_byte(0, b'A');
    assert!(device.frame_buffer().iter().all(|&pixel| pixel == DEFAULT_BG_COLOR));
    device.step(&mut memory);

    let origin = 16 * 640 + 2 * 9;
    let lit = [origin, origin + 3 * 640 + 4, origin + 15 * 640 + 8];
    for (index, &pixel) in device.frame_buffer().iter().enumerate() {
        if lit.contains(&index) {
            assert_eq!(DEFAULT_COLOR, pixel);
        } else {
            assert_eq!(DEFAULT_BG_COLOR, pixel);
        }
    }

    // the cursor has moved on: the next character stands one cell to the right
    device.write_byte(0, CMD_SET_VALUE);
    device.write_byte(0, b'A');
    device.step(&mut memory);
    assert_eq!(DEFAULT_COLOR, device.frame_buffer()[origin + 9]);
    assert_eq!(DEFAULT_COLOR, device.frame_buffer()[origin]);

    // a blank glyph over the first cell takes its pixels away
    device.write_byte(0, CMD_SET_POSITION);
    device.write_byte(0, 2);
    device.write_byte(0, 1);
    device.step(&mut memory);
    device.write_byte(0, CMD_SET_VALUE);
    device.write_byte(0, b'B');
    device.step(&mut memory);
    assert_eq!(DEFAULT_BG_COLOR, device.frame_buffer()[origin]);
    assert_eq!(DEFAULT_COLOR, device.frame_buffer()[origin + 9]);
}

#[test]
fn line_feed_and_carriage_return_move_the_cursor() {
    let mut memory = ram();
    let mut device = GraphicsDevice::new(font_with_glyph(b'x', &[(0, 0)]));
    for &value in &[b'x', b'x', b'\n', b'x', b'x', b'\r', b'x'] {
        device.write_byte(0, CMD_SET_VALUE);
        device.write_byte(0, value);
        device.step(&mut memory);
    }
    let lit: Vec<usize> = device
        .frame_buffer()
        .iter()
        .enumerate()
        .filter(|(_, &pixel)| pixel == DEFAULT_COLOR)
        .map(|(index, _)| index)
        .collect();
    assert_eq!(vec![0, 9, 16 * 640, 16 * 640 + 9], lit);
}

#[test]
fn the_cursor_wraps_at_the_end_of_a_line_and_of_the_screen() {
    let mut memory = ram();
    let mut device = GraphicsDevice::new(font_with_glyph(b'x', &[(0, 0)]));
    device.write_byte(0, CMD_SET_POSITION);
    device.write_byte(0, 70);
    device.write_byte(0, 29);
    device.step(&mut memory);
    for _ in 0..2 {
        device.write_byte(0, CMD_SET_VALUE);
        device.write_byte(0, b'x');
        device.step(&mut memory);
    }
    assert_eq!(DEFAULT_COLOR, device.frame_buffer()[29 * 16 * 640 + 70 * 9]);
    assert_eq!(DEFAULT_COLOR, device.frame_buffer()[0]);
}

#[test]
fn clear_screen_takes_every_pixel_away() {
    let mut memory = ram();
    let mut device = GraphicsDevice::new(font_with_glyph(b'x', &[(0, 0), (1, 1)]));
    device.write_byte(0, CMD_SET_VALUE);
    device.write_byte(0, b'x');
    device.step(&mut memory);
    assert!(device.frame_buffer().iter().any(|&pixel| pixel == DEFAULT_COLOR));
    device.write_byte(0, CMD_CLEAR_SCREEN);
    device.step(&mut memory);
    assert!(device.frame_buffer().iter().all(|&pixel| pixel == DEFAULT_BG_COLOR));
    assert_eq!(FRAME_BUFFER_SIZE, device.frame_buffer().len());
}

#[test]
fn a_range_of_memory_is_shown_by_dma() {
    let mut memory = ram();
    memory.write().byte(0x1234, b'x');
    memory.write().byte(0x1235, b'\n');
    memory.write().byte(0x1236, b'x');
    memory.write().byte(0x1237, b'x');
    let mut device = GraphicsDevice::new(font_with_glyph(b'x', &[(0, 0)]));
    device.write_byte(0, CMD_SET_VALUES_DMA);
    device.write_byte(0, 0x12);
    device.write_byte(0, 0x34);
    device.step(&mut memory);
    assert!(device.frame_buffer().iter().all(|&pixel| pixel == DEFAULT_BG_COLOR));
    device.write_byte(0, 3);
    device.step(&mut memory);
    let lit: Vec<usize> = device
        .frame_buffer()
        .iter()
        .enumerate()
        .filter(|(_, &pixel)| pixel == DEFAULT_COLOR)
        .map(|(index, _)| index)
        .collect();
    assert_eq!(vec![0, 16 * 640], lit);
}

#[test]
fn the_command_state_takes_bytes_one_by_one() {
    let listening = IOState::Listening;
    assert_eq!(IOState::ClearScreen, listening.received(CMD_CLEAR_SCREEN));
    assert_eq!(IOState::SetMode { mode: None }, listening.received(CMD_SET_MODE));
    assert_eq!(IOState::SetPosition { x: None, y: None }, listening.received(CMD_SET_POSITION));
    assert_eq!(IOState::SetColor { color: None }, listening.received(CMD_SET_COLOR));
    assert_eq!(IOState::SetValue { value: None }, listening.received(CMD_SET_VALUE));
    assert_eq!(
        IOState::SetValuesDma { high: None, low: None, length: None },
        listening.received(CMD_SET_VALUES_DMA)
    );
    assert_eq!(IOState::Listening, listening.received(0));
    assert_eq!(IOState::Listening, listening.received(7));
    assert_eq!(IOState::Listening, IOState::ClearScreen.received(5));
    assert_eq!(IOState::SetMode { mode: Some(9) }, IOState::SetMode { mode: Some(1) }.received(9));
    assert_eq!(
        IOState::SetPosition { x: Some(1), y: None },
        IOState::SetPosition { x: None, y: None }.received(1)
    );
    assert_eq!(
        IOState::SetPosition { x: Some(1), y: Some(3) },
        IOState::SetPosition { x: Some(1), y: Some(2) }.received(3)
    );
    assert_eq!(IOState::SetColor { color: Some(4) }, IOState::SetColor { color: None }.received(4));
    let dma = IOState::SetValuesDma { high: None, low: None, length: None };
    let dma = dma.received(1).received(2).received(3);
    assert_eq!(IOState::SetValuesDma { high: Some(1), low: Some(2), length: Some(3) }, dma);
    assert_eq!(
        IOState::SetValuesDma { high: Some(1), low: Some(2), length: Some(4) },
        dma.received(4)
    );
}

#[test]
fn an_incomplete_command_waits() {
    let mut memory = ram();
    let mut device = GraphicsDevice::new(font_with_glyph(b'x', &[(0, 0)]));
    device.write_byte(0, CMD_SET_VALUE);
    device.step(&mut memory);
    device.step(&mut memory);
    device.write_byte(0, b'x');
    assert_eq!(DEFAULT_BG_COLOR, device.frame_buffer()[0]);
    device.step(&mut memory);
    assert_eq!(DEFAULT_COLOR, device.frame_buffer()[0]);
    device.write_byte(0, CMD_SET_MODE);
    device.write_byte(0, 1);
    device.step(&mut memory);
    device.write_byte(0, CMD_SET_COLOR);
    device.write_byte(0, 1);
    device.step(&mut memory);
    device.write_byte(0, CMD_CLEAR_SCREEN);
    device.step(&mut memory);
    assert_eq!(DEFAULT_BG_COLOR, device.frame_buffer()[0]);
}

#[test]
fn key_codes_are_characters_or_numbers_from_128_on() {
    assert_eq!(b'0', Key::Key0.code());
    assert_eq!(b'9', Key::Key9.code());
    assert_eq!(b'A', Key::A.code());
    assert_eq!(b'Z', Key::Z.code());
    assert_eq!(b' ', Key::Space.code());
    assert_eq!(b'\t', Key::Tab.code());
    assert_eq!(b'\\', Key::Backslash.code());
    assert_eq!(b'\n', Key::Enter.code());
    assert_eq!(128, Key::Backspace.code());
    assert_eq!(131, Key::F1.code());
    assert_eq!(145, Key::F15.code());
    assert_eq!(149, Key::Up.code());
    assert_eq!(185, Key::RightSuper.code());
    assert_eq!(255, Key::Unknown.code());
    let code: u8 = Key::Escape.into();
    assert_eq!(152, code);
    assert_eq!(Key::Escape, Key::from(152));
    assert_eq!(Key::Unknown, Key::from(186));
    assert_eq!(Key::Unknown, Key::from(0));
    assert_eq!(Key::Unknown, Key::from_code(b'a'));
    for code in 0..=255u8 {
        let key = Key::from(code);
        if key != Key::Unknown {
            assert_eq!(code, key.code());
        }
    }
}

#[test]
fn key_events_queue_up_and_are_read_in_order() {
    let mut io = IODevice::new();
    let mut memory = ram();
    assert_eq!(0, io.read_byte_mut(0xDFFF));
    assert_eq!(None, io.step(&mut memory));
    io.key_down(Key::A);
    io.key_up(Key::A);
    assert_eq!(0, io.read_byte(0xDFFF));
    assert_eq!(Some(InterruptType::Maskable), io.step(&mut memory));
    assert_eq!(None, io.step(&mut memory));
    assert_eq!(0x01, io.read_byte_mut(0xDFFF));
    assert_eq!(None, io.step(&mut memory));
    assert_eq!(b'A', io.read_byte_mut(0xDFFF));
    assert_eq!(0x02, io.read_byte_mut(0xDFFF));
    io.key_down(Key::B);
    assert_eq!(Some(InterruptType::Maskable), io.step(&mut memory));
    assert_eq!(b'A', io.read_byte_mut(0xDFFF));
    assert_eq!(0x01, io.read_byte_mut(0xDFFF));
    assert_eq!(b'B', io.read_byte_mut(0xDFFF));
    assert_eq!(0, io.read_byte_mut(0xDFFF));
    io.write_byte(0xDFFF, 7);
    assert_eq!(0, io.read_byte_mut(0xDFFF));
    assert!(io.requires_step());
}

#[test]
fn changes_of_the_keys_that_are_down_are_announced() {
    let mut io = IODevice::new();
    io.keys_changed(&[], &[Key::A, Key::B]);
    io.keys_changed(&[Key::A, Key::B], &[Key::B, Key::C]);
    io.keys_changed(&[Key::B, Key::C], &[Key::B, Key::C]);
    io.keys_changed(&[Key::B, Key::C], &[]);
    let mut read = Vec::new();
    loop {
        let byte = io.read_byte_mut(0xDFFF);
        if byte == 0 {
            break;
        }
        read.push(byte);
    }
    assert_eq!(
        vec![0x01, b'A', 0x01, b'B', 0x01, b'C', 0x02, b'A', 0x02, b'B', 0x02, b'C'],
        read
    );
    assert!(contains_key(&[Key::A, Key::B], Key::B));
    assert!(!contains_key(&[Key::A, Key::B], Key::C));
    assert!(!contains_key(&[], Key::A));
}

#[test]
fn a_full_queue_drops_responses() {
    let mut io = IODevice::new();
    for _ in 0..20 {
        io.key_down(Key::Key1);
    }
    let mut read = 0;
    while io.read_byte_mut(0xDFFF) != 0 {
        read += 1;
    }
    assert_eq!(30, read);
}

#[test]
fn the_two_devices_answer_each_at_its_address() {
    let mut memory = ram();
    memory.write().byte(0x0400, b'x');
    let graphics = GraphicsDevice::new(font_with_glyph(b'x', &[(0, 0)]));
    let mut peripherals = Peripherals::new(graphics, IODevice::new());
    peripherals.io.key_down(Key::C);
    assert_eq!(0, peripherals.read_byte(0xDFFF));
    assert_eq!(0, peripherals.read_byte_mut(0xDFFE));
    assert_eq!(0, peripherals.read_byte_mut(0x1234));
    assert_eq!(0x01, peripherals.read_byte_mut(0xDFFF));
    peripherals.write_byte(0xDFFF, CMD_SET_VALUE);
    peripherals.write_byte(0x1234, CMD_SET_VALUE);
    peripherals.write_byte(0xDFFE, CMD_SET_VALUES_DMA);
    peripherals.write_byte(0xDFFE, 0x04);
    peripherals.write_byte(0xDFFE, 0x00);
    peripherals.write_byte(0xDFFE, 1);
    // the byte that was read has not left anything new in the queue
    assert_eq!(None, peripherals.step(&mut memory));
    assert_eq!(DEFAULT_COLOR, peripherals.graphics.frame_buffer()[0]);
    peripherals.io.key_up(Key::C);
    assert_eq!(Some(InterruptType::Maskable), peripherals.step(&mut memory));
    assert_eq!(None, peripherals.step(&mut memory));
    assert!(peripherals.requires_step());
}

#[test]
fn the_hasseldorf_system_has_ram_devices_and_rom() {
    let mut rom = vec![0xEAu8; 0x2000];
    rom[0x1FFC] = 0x00;
    rom[0x1FFD] = 0xE0;
    let mut memory = HasselSystemBuilder::new()
        .rom(rom)
        .font(font_with_glyph(b'x', &[(0, 0)]))
        .build();
    memory.write().byte(0xDFFD, 0x11);
    assert_eq!(0x11, memory.read().byte(0xDFFD));
    assert_eq!(0xEA, memory.read().byte(0xE000));
    memory.write().byte(0xE000, 0x00);
    assert_eq!(0xEA, memory.read().byte(0xE000));
    assert_eq!(0, memory.debug_read().byte(0xDFFE));
    assert!(memory.peripheral(0xDFFE).is_some());
    assert!(memory.peripheral(0xDFFF).is_some());
    assert!(memory.peripheral(0xDFFD).is_none());
    assert!(memory.peripheral(0xE000).is_none());

    memory.peripheral_mut(0xDFFF).unwrap().io.key_down(Key::Q);
    assert_eq!(Some(InterruptType::Maskable), memory.step());
    assert_eq!(0x01, memory.read().byte(0xDFFF));
    assert_eq!(b'Q', memory.read().byte(0xDFFF));

    memory.write().byte(0xDFFE, CMD_SET_VALUE);
    memory.write().byte(0xDFFE, b'x');
    assert_eq!(None, memory.step());
    assert_eq!(DEFAULT_COLOR, memory.peripheral(0xDFFE).unwrap().graphics.frame_buffer()[0]);
}

#[test]
fn a_device_does_not_see_itself_while_it_is_stepped() {
    let rom = vec![0u8; 0x2000];
    let mut memory = HasselSystemBuilder::new()
        .rom(rom)
        .font(font_with_glyph(1, &[(0, 0)]))
        .build();
    memory.peripheral_mut(0xDFFF).unwrap().io.key_down(Key::A);
    memory.write().byte(0xDFFD, 1);
    // show the three bytes from 0xDFFD on: RAM, and the two registers
    memory.write().byte(0xDFFE, CMD_SET_VALUES_DMA);
    memory.write().byte(0xDFFE, 0xDF);
    memory.write().byte(0xDFFE, 0xFD);
    memory.write().byte(0xDFFE, 3);
    assert_eq!(Some(InterruptType::Maskable), memory.step());
    let peripherals = memory.peripheral(0xDFFE).unwrap();
    assert_eq!(DEFAULT_COLOR, peripherals.graphics.frame_buffer()[0]);
    assert_eq!(DEFAULT_BG_COLOR, peripherals.graphics.frame_buffer()[9]);
    assert_eq!(DEFAULT_BG_COLOR, peripherals.graphics.frame_buffer()[18]);
    // the queue of the keyboard was not read by the DMA
    assert_eq!(0x01, memory.read().byte(0xDFFF));
}

#[test]
fn the_hasseldorf_system_is_built_after_a_test_of_its_rom() {
    let mut rom = vec![0u8; 0x2000];
    rom[0] = 0x42;
    let mut memory = HasselSystemBuilder::new().rom(rom).try_build().unwrap();
    assert_eq!(0x42, memory.read().byte(0xE000));
    assert!(memory.peripheral(0xDFFE).is_some());
}

#[test]
fn the_hasseldorf_system_needs_a_rom_of_the_right_size() {
    assert_eq!(Some(HasselError::MissingRom), HasselSystemBuilder::new().try_build().err());
    assert_eq!(
        Some(HasselError::Memory(MemoryMapError::RomSize)),
        HasselSystemBuilder::new().rom(vec![0u8; 0x1FFF]).try_build().err()
    );
    assert_eq!(
        Some(HasselError::Memory(MemoryMapError::RomSize)),
        HasselSystemBuilder::new().rom(vec![0u8; 31744]).try_build().err()
    );
}

#[test]
fn a_hasseldorf_program_writes_to_the_screen() {
    let mut rom = vec![0xEAu8; 0x2000];
    // LDA #5; STA $DFFE; LDA #'x'; STA $DFFE; JMP $E00A
    let code = [0xA9, 0x05, 0x8D, 0xFE, 0xDF, 0xA9, b'x', 0x8D, 0xFE, 0xDF, 0x4C, 0x0A, 0xE0];
    rom[..code.len()].copy_from_slice(&code);
    rom[0x1FFC] = 0x00;
    rom[0x1FFD] = 0xE0;
    let memory = HasselSystemBuilder::new()
        .rom(rom)
        .font(font_with_glyph(b'x', &[(2, 3)]))
        .build();
    let mut cpu = Cpu::new(memory);
    for _ in 0..5 {
        assert!(cpu.step().is_ok());
    }
    let peripherals = cpu.memory().peripheral(0xDFFE).unwrap();
    assert_eq!(DEFAULT_COLOR, peripherals.graphics.frame_buffer()[2 * 640 + 3]);
    assert_eq!(0xE00A, cpu.registers().pc);
}
