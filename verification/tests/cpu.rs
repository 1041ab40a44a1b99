use hassel_emu::emulator::Emulator;
use hassel_emu::hassel::{IODevice, Key};
use hassel_emu::{
    Cpu, DecodeError, InterruptType, MemoryMap, NullDevice, ReadMemory, ReadMemoryMut,
    WriteMemory,
};

fn program(rom_start: u16, rom: Vec<u8>) -> MemoryMap<NullDevice> {
    MemoryMap::builder().ram(0x0000, rom_start - 1).rom(rom_start, 0xFFFF, rom).build()
}

fn ram_with_reset_vector(entry: u16) -> MemoryMap<NullDevice> {
    let mut memory: MemoryMap<NullDevice> =
        MemoryMap::builder().ram(0x0000, 0xFFFF).build();
    memory.write().byte(0xFFFC, (entry & 0xFF) as u8);
    memory.write().byte(0xFFFD, (entry >> 8) as u8);
    memory
}

#[test]
fn reset_vector() {
    let memory_map = program(0xFFFC, vec![0x00, 0x80, 0x00, 0x00]);
    let cpu = Cpu::new(memory_map);
    assert_eq!(0x8000, cpu.registers().pc);
    assert!(cpu.registers().status.interrupt_inhibit());
    assert_eq!(0xFF, cpu.registers().sp);
    assert_eq!(0x24, cpu.registers().status.value());
}

#[test]
fn simple_program() {
    // This is a simple ROM that has two instructions:
    //   LDA #3
    //   STA $00
    let rom: Vec<u8> = vec![
        0xA9, 0x03, 0x85, 0x00, 0x4C, 0xF6, 0xFF, 0x00, 0xF6, 0xFF, 0xF2, 0xFF, 0xF6, 0xFF,
    ];

    // Here, we define our architecture
    let memory_map: MemoryMap<NullDevice> =
        MemoryMap::builder().ram(0x0000, 0xFFF1).rom(0xFFF2, 0xFFFF, rom).build();

    // Then create our emulator and step it twice
    let mut cpu = Cpu::new(memory_map);
    assert_eq!(0xFFF2, cpu.registers().pc);
    assert_eq!(Ok(2), cpu.step());
    assert_eq!(Ok(3), cpu.step());

    // We should see 3 at address 0x0000
    assert_eq!(3u8, cpu.memory().debug_read().byte(0x0000));
    assert_eq!(3, cpu.registers().a);
    assert_eq!(0xFFF6, cpu.registers().pc);

    assert_eq!(Ok(3), cpu.step());
    assert_eq!(0xFFF6, cpu.registers().pc);
}

#[test]
fn indirect_jmp_page_bug() {
    let mut rom = vec![0u8; 0xF000];
    rom[0x0000] = 0x12;
    rom[0x00FF] = 0x34;
    rom[0x0100] = 0x56;
    // JMP ($10FF)
    rom[0x1000] = 0x6C;
    rom[0x1001] = 0xFF;
    rom[0x1002] = 0x10;
    // the reset vector
    rom[0xEFFC] = 0x00;
    rom[0xEFFD] = 0x20;
    let mut cpu = Cpu::new(program(0x1000, rom));
    assert_eq!(0x2000, cpu.registers().pc);
    assert_eq!(Ok(5), cpu.step());
    assert_eq!(0x1234, cpu.registers().pc);
}

#[test]
fn brk_sequence() {
    let mut memory = ram_with_reset_vector(0x0FFF);
    // CLI, so that the status word is 0x20 when BRK stands at 0x1000
    memory.write().byte(0x0FFF, 0x58);
    memory.write().byte(0x1000, 0x00);
    memory.write().byte(0xFFFE, 0x00);
    memory.write().byte(0xFFFF, 0x90);
    let mut cpu = Cpu::new(memory);
    assert_eq!(Ok(2), cpu.step());
    assert_eq!(0xFF, cpu.registers().sp);
    assert_eq!(0x20, cpu.registers().status.value());
    assert_eq!(0x1000, cpu.registers().pc);

    assert_eq!(Ok(7), cpu.step());
    assert_eq!(0x9000, cpu.registers().pc);
    assert_eq!(0xFC, cpu.registers().sp);
    assert!(cpu.registers().status.brk());
    assert_eq!(0x10, cpu.memory().debug_read().byte(0x01FF));
    assert_eq!(0x02, cpu.memory().debug_read().byte(0x01FE));
    assert_eq!(0x30, cpu.memory().debug_read().byte(0x01FD));
}

#[test]
fn writes_are_committed_in_their_order() {
    let mut memory = ram_with_reset_vector(0x0200);
    // JSR $0300 with the stack pointer at 0x00: the two pushes wrap
    memory.write().byte(0x0200, 0x20);
    memory.write().byte(0x0201, 0x00);
    memory.write().byte(0x0202, 0x03);
    let mut cpu = Cpu::new(memory);
    assert_eq!(Ok(6), cpu.step());
    assert_eq!(0x0300, cpu.registers().pc);
    assert_eq!(0xFD, cpu.registers().sp);
    assert_eq!(0x02, cpu.memory().debug_read().byte(0x01FF));
    assert_eq!(0x02, cpu.memory().debug_read().byte(0x01FE));
}

#[test]
fn a_handler_does_not_see_its_own_writes() {
    let mut memory = ram_with_reset_vector(0x0200);
    // INC $10 reads 0x41 and writes 0x42 when the instruction is committed
    memory.write().byte(0x0010, 0x41);
    memory.write().byte(0x0200, 0xE6);
    memory.write().byte(0x0201, 0x10);
    let mut cpu = Cpu::new(memory);
    assert_eq!(0x41, cpu.memory().debug_read().byte(0x0010));
    assert_eq!(Ok(5), cpu.execute());
    assert_eq!(0x42, cpu.memory().debug_read().byte(0x0010));
    assert_eq!(0x0202, cpu.registers().pc);
}

#[test]
fn a_byte_that_is_no_opcode_stops_the_step() {
    let mut memory = ram_with_reset_vector(0x0200);
    memory.write().byte(0x0200, 0x02);
    let mut cpu = Cpu::new(memory);
    assert_eq!(Err(DecodeError { pc: 0x0200, opcode: 0x02 }), cpu.step());
    assert_eq!(0x0200, cpu.registers().pc);
    assert_eq!(0xFF, cpu.registers().sp);
}

#[test]
fn a_maskable_interrupt_is_held_back_by_the_inhibit_flag() {
    let mut memory = ram_with_reset_vector(0x0200);
    memory.write().byte(0xFFFE, 0x00);
    memory.write().byte(0xFFFF, 0x90);
    let mut cpu = Cpu::new(memory);
    assert!(cpu.registers().status.interrupt_inhibit());
    assert!(!cpu.request_interrupt());
    assert_eq!(0x0200, cpu.registers().pc);
    assert_eq!(0xFF, cpu.registers().sp);
    cpu.deliver(Some(InterruptType::Maskable));
    assert_eq!(0x0200, cpu.registers().pc);
    cpu.deliver(None);
    assert_eq!(0x0200, cpu.registers().pc);
}

#[test]
fn a_maskable_interrupt_pushes_and_jumps_through_its_vector() {
    let mut memory = ram_with_reset_vector(0x1234);
    memory.write().byte(0xFFFE, 0x00);
    memory.write().byte(0xFFFF, 0x90);
    // CLI
    memory.write().byte(0x1234, 0x58);
    let mut cpu = Cpu::new(memory);
    assert_eq!(Ok(2), cpu.step());
    assert!(!cpu.registers().status.interrupt_inhibit());
    assert!(cpu.request_interrupt());
    assert_eq!(0x9000, cpu.registers().pc);
    assert_eq!(0xFC, cpu.registers().sp);
    assert_eq!(0x12, cpu.memory().debug_read().byte(0x01FF));
    assert_eq!(0x35, cpu.memory().debug_read().byte(0x01FE));
    assert_eq!(0x20, cpu.memory().debug_read().byte(0x01FD));
    assert!(!cpu.registers().status.brk());
}

#[test]
fn a_non_maskable_interrupt_is_always_delivered() {
    let mut memory = ram_with_reset_vector(0x0200);
    memory.write().byte(0xFFFA, 0x00);
    memory.write().byte(0xFFFB, 0xA0);
    let mut cpu = Cpu::new(memory);
    assert!(cpu.registers().status.interrupt_inhibit());
    cpu.request_non_maskable_interrupt();
    assert_eq!(0xA000, cpu.registers().pc);
    assert_eq!(0xFC, cpu.registers().sp);
    assert_eq!(0x02, cpu.memory().debug_read().byte(0x01FF));
    assert_eq!(0x00, cpu.memory().debug_read().byte(0x01FE));
    assert_eq!(0x24, cpu.memory().debug_read().byte(0x01FD));

    cpu.deliver(Some(InterruptType::NonMaskable));
    assert_eq!(0xA000, cpu.registers().pc);
    assert_eq!(0xF9, cpu.registers().sp);
}

#[test]
fn a_step_delivers_the_interrupt_of_a_device() {
    let mut rom = vec![0xEAu8; 0x2000];
    // CLI at the reset entry, then no-operations
    rom[0x0000] = 0x58;
    rom[0x1FFC] = 0x00;
    rom[0x1FFD] = 0xE0;
    rom[0x1FFE] = 0x00;
    rom[0x1FFF] = 0xF0;
    let memory: MemoryMap<IODevice> = MemoryMap::builder()
        .ram(0x0000, 0xDFFE)
        .peripheral(0xDFFF, 0xDFFF, IODevice::new())
        .rom(0xE000, 0xFFFF, rom)
        .build();
    let mut cpu = Cpu::new(memory);
    assert_eq!(0xE000, cpu.registers().pc);
    assert_eq!(Ok(2), cpu.step());
    assert_eq!(0xE001, cpu.registers().pc);
    assert_eq!(Ok(2), cpu.step());
    assert_eq!(0xE002, cpu.registers().pc);

    cpu.memory_mut().peripheral_mut(0xDFFF).unwrap().key_down(Key::A);
    // the cycles of the interrupt sequence are not counted
    assert_eq!(Ok(2), cpu.step());
    assert_eq!(0xF000, cpu.registers().pc);
    assert_eq!(0xFC, cpu.registers().sp);
    assert_eq!(0xE0, cpu.memory().debug_read().byte(0x01FF));
    assert_eq!(0x03, cpu.memory().debug_read().byte(0x01FE));
    assert_eq!(0x01, cpu.memory_mut().read().byte(0xDFFF));
    assert_eq!(0x41, cpu.memory_mut().read().byte(0xDFFF));
}

#[test]
fn reset_can_be_called_again() {
    let memory = ram_with_reset_vector(0x0200);
    let mut cpu = Cpu::new(memory);
    cpu.memory_mut().write().byte(0xFFFC, 0x00);
    cpu.memory_mut().write().byte(0xFFFD, 0x30);
    assert_eq!(0x0200, cpu.registers().pc);
    cpu.reset();
    assert_eq!(0x3000, cpu.registers().pc);
    assert!(cpu.registers().status.interrupt_inhibit());
}

#[test]
fn an_emulator_halts_in_a_jump_to_itself() {
    let rom: Vec<u8> = vec![
        0xA9, 0x03, 0x85, 0x00, 0x4C, 0xF6, 0xFF, 0x00, 0xF6, 0xFF, 0xF2, 0xFF, 0xF6, 0xFF,
    ];
    let memory_map: MemoryMap<NullDevice> =
        MemoryMap::builder().ram(0x0000, 0xFFF1).rom(0xFFF2, 0xFFFF, rom).build();
    let mut emulator = Emulator::new(memory_map);
    assert!(!emulator.is_halted());
    assert_eq!(Ok(2), emulator.step());
    assert!(!emulator.is_halted());
    assert_eq!(Ok(3), emulator.step());
    assert!(!emulator.is_halted());
    assert_eq!(Ok(3), emulator.step());
    assert!(emulator.is_halted());
    assert_eq!(0xFFF6, emulator.cpu().registers().pc);
    emulator.reset();
    assert!(!emulator.is_halted());
    assert_eq!(0xFFF2, emulator.cpu().registers().pc);
}
