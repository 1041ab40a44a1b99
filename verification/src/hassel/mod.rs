//! The Hasseldorf computer: its keyboard and graphics devices, and the
//! memory map that holds them.

use vstd::prelude::*;
use crate::memory::{
    DeviceModel, MemoryMap, MemoryMapError, SegmentModel, fresh_ram, fresh_rom,
    lemma_gapless_is_tiling, segment_misplaced,
};

pub mod graphics_device;
pub mod io_device;
pub mod key;
pub mod peripherals;

pub use graphics_device::{GraphicsDevice, GraphicsModel, SCREEN_HEIGHT_PIXELS, SCREEN_WIDTH_PIXELS};
pub use io_device::{IODevice, IoModel};
pub use key::Key;
pub use peripherals::{Peripherals, PeripheralsModel};

verus! {

/// The size of the ROM of the Hasseldorf computer.
pub const REQUIRED_ROM_SIZE: usize = 0x2000;

/// Why a Hasseldorf system could not be built.
#[derive(Copy, Clone, Debug, PartialEq, Eq, Structural)]
pub enum HasselError {
    /// No ROM was given.
    MissingRom,
    /// The memory map could not be built: the ROM has not the size that the
    /// system requires.
    Memory(MemoryMapError),
}

/// Builds the memory map of the Hasseldorf computer: RAM from 0x0000 to
/// 0xDFFD, the registers of the two devices at 0xDFFE and 0xDFFF, and ROM
/// from 0xE000 to 0xFFFF.
pub struct HasselSystemBuilder {
    rom: Option<Vec<u8>>,
    font: Vec<u8>,
}

/// The model of the builder: the ROM, if one was given, and the font.
pub struct HasselSystemModel {
    pub rom: Option<Seq<u8>>,
    pub font: Seq<u8>,
}

impl View for HasselSystemBuilder {
    type V = HasselSystemModel;

    closed spec fn view(&self) -> HasselSystemModel {
        HasselSystemModel {
            rom: match self.rom {
                Some(rom) => Some(rom@),
                None => None,
            },
            font: self.font@,
        }
    }
}

/// The memory map of a Hasseldorf computer that was just built.
pub open spec fn hassel_memory(rom: Seq<u8>, font: Seq<u8>) -> Seq<SegmentModel<PeripheralsModel>> {
    seq![
        fresh_ram(0x0000, 0xDFFD),
        SegmentModel {
            start: 0xDFFE,
            end_inclusive: 0xDFFF,
            requires_step: true,
            device: DeviceModel::Peripheral(
                PeripheralsModel {
                    graphics: GraphicsModel {
                        frame_buffer: Seq::new(
                            graphics_device::FRAME_BUFFER_SIZE as nat,
                            |i: int| graphics_device::DEFAULT_BG_COLOR,
                        ),
                        font: font,
                        next_command: graphics_device::IOState::Listening,
                        cursor_x: 0,
                        cursor_y: 0,
                    },
                    io: IoModel { response_queue: Seq::empty(), last_interrupt_size: 0 },
                },
            ),
        },
        fresh_rom(0xE000, 0xFFFF, rom),
    ]
}

impl HasselSystemBuilder {
    /// A builder with no ROM and an empty font, with which every glyph is
    /// blank.
    pub fn new() -> (r: HasselSystemBuilder)
        ensures
            r@ == (HasselSystemModel { rom: None, font: Seq::empty() }),
    {
        HasselSystemBuilder { rom: None, font: Vec::new() }
    }

    /// Gives the ROM of the system.
    pub fn rom(self, rom: Vec<u8>) -> (r: HasselSystemBuilder)
        ensures
            r@ == (HasselSystemModel { rom: Some(rom@), ..self@ }),
    {
        let mut builder = self;
        builder.rom = Some(rom);
        builder
    }

    /// Gives the font that the graphics device draws with.
    pub fn font(self, font: Vec<u8>) -> (r: HasselSystemBuilder)
        ensures
            r@ == (HasselSystemModel { font: font@, ..self@ }),
    {
        let mut builder = self;
        builder.font = font;
        builder
    }

    /// Builds the memory map from a ROM of the required size. The devices are
    /// in the map; the host reaches them through [`MemoryMap::peripheral`] and
    /// [`MemoryMap::peripheral_mut`] at the address of either register.
    /// [`HasselSystemBuilder::try_build`] tests whether there is such a ROM.
    pub fn build(self) -> (r: MemoryMap<Peripherals>)
        requires
            self@.rom matches Some(rom) && rom.len() == REQUIRED_ROM_SIZE,
        ensures
            r.wf(),
            r@ == hassel_memory(self@.rom->Some_0, self@.font),
    {
        let rom = self.rom.unwrap();
        let ghost rom_bytes = rom@;
        let ghost font_bytes = self.font@;

        let graphics = GraphicsDevice::new(self.font);
        let io = IODevice::new();
        let peripherals = Peripherals::new(graphics, io);

        let with_ram = MemoryMap::builder().ram(0x0000, 0xDFFD);
        let with_devices = with_ram.peripheral(0xDFFE, 0xDFFF, peripherals);
        let with_rom = with_devices.rom(0xE000, 0xFFFF, rom);
        proof {
            assert(with_ram@.segments =~= seq![fresh_ram(0x0000, 0xDFFD)]);
            assert(with_devices@.segments.len() == 2);
            assert(with_rom@.segments =~= hassel_memory(rom_bytes, font_bytes));
            assert(!segment_misplaced(with_rom@.segments, 0));
            assert(!segment_misplaced(with_rom@.segments, 1));
            assert(!segment_misplaced(with_rom@.segments, 2));
            lemma_gapless_is_tiling(with_rom@.segments);
        }
        with_rom.build()
    }

    /// Builds the memory map if a ROM of the required size was given, and
    /// says what is amiss if not.
    pub fn try_build(self) -> (r: Result<MemoryMap<Peripherals>, HasselError>)
        ensures
            match r {
                Ok(memory) => {
                    &&& self@.rom matches Some(rom)
                    &&& rom.len() == REQUIRED_ROM_SIZE
                    &&& memory.wf()
                    &&& memory@ == hassel_memory(rom, self@.font)
                },
                Err(error) => match self@.rom {
                    Some(rom) => rom.len() != REQUIRED_ROM_SIZE && error == HasselError::Memory(
                        MemoryMapError::RomSize,
                    ),
                    None => error == HasselError::MissingRom,
                },
            },
    {
        match &self.rom {
            Some(rom) => {
                if rom.len() != REQUIRED_ROM_SIZE {
                    return Err(HasselError::Memory(MemoryMapError::RomSize));
                }
            },
            None => {
                return Err(HasselError::MissingRom);
            },
        }
        Ok(self.build())
    }
}

} // verus!
