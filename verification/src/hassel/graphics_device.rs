//! The graphics device: a text screen of 71 by 30 characters in a frame
//! buffer of 640 by 480 pixels. The processor sends it commands byte by
//! byte; the device carries a command out in the step after its last byte.

use vstd::prelude::*;
use crate::memory::{
    InterruptType, MemoryBus, MemoryMappedDevice, SteppedDevice, lemma_read_slice_keeps_layout,
    read_slice, read_slice_model,
};

verus! {

pub const CHAR_WIDTH: usize = 9;

pub const CHAR_HEIGHT: usize = 16;

pub const SCREEN_WIDTH_CHARS: usize = 71;

pub const SCREEN_HEIGHT_CHARS: usize = 30;

pub const SCREEN_WIDTH_PIXELS: usize = 640;

pub const SCREEN_HEIGHT_PIXELS: usize = 480;

pub const FRAME_BUFFER_SIZE: usize = SCREEN_WIDTH_PIXELS * SCREEN_HEIGHT_PIXELS;

/// The width in pixels of the image that holds the glyphs of the font, 32 to
/// a row, one byte for each pixel.
pub const FONT_WIDTH: usize = 288;

pub const FONT_CHARS_PER_ROW: usize = FONT_WIDTH / CHAR_WIDTH;

pub const DEFAULT_COLOR: u32 = 0xFFADAAAD;

pub const DEFAULT_BG_COLOR: u32 = 0xFF000000;

pub const CMD_CLEAR_SCREEN: u8 = 1;

pub const CMD_SET_MODE: u8 = 2;

pub const CMD_SET_POSITION: u8 = 3;

pub const CMD_SET_COLOR: u8 = 4;

pub const CMD_SET_VALUE: u8 = 5;

pub const CMD_SET_VALUES_DMA: u8 = 6;

/// The command that the device is taking in, with the bytes of it that have
/// arrived.
#[derive(Copy, Clone, Debug, PartialEq, Eq, Structural)]
pub enum IOState {
    Listening,
    ClearScreen,
    SetMode { mode: Option<u8> },
    SetPosition { x: Option<u8>, y: Option<u8> },
    SetColor { color: Option<u8> },
    SetValue { value: Option<u8> },
    SetValuesDma { high: Option<u8>, low: Option<u8>, length: Option<u8> },
}

impl IOState {
    /// The state after one more byte arrived. While the device listens, the
    /// byte chooses the command; a byte that is no command is ignored. In a
    /// command, the byte fills the first operand that is still missing; when
    /// none is missing, it replaces the last.
    pub open spec fn spec_received(self, val: u8) -> IOState {
        match self {
            IOState::Listening => {
                if val == CMD_CLEAR_SCREEN {
                    IOState::ClearScreen
                } else if val == CMD_SET_MODE {
                    IOState::SetMode { mode: None }
                } else if val == CMD_SET_POSITION {
                    IOState::SetPosition { x: None, y: None }
                } else if val == CMD_SET_COLOR {
                    IOState::SetColor { color: None }
                } else if val == CMD_SET_VALUE {
                    IOState::SetValue { value: None }
                } else if val == CMD_SET_VALUES_DMA {
                    IOState::SetValuesDma { high: None, low: None, length: None }
                } else {
                    IOState::Listening
                }
            },
            IOState::ClearScreen => IOState::Listening,
            IOState::SetMode { .. } => IOState::SetMode { mode: Some(val) },
            IOState::SetPosition { x, y } => {
                if x is None {
                    IOState::SetPosition { x: Some(val), y: y }
                } else {
                    IOState::SetPosition { x: x, y: Some(val) }
                }
            },
            IOState::SetColor { .. } => IOState::SetColor { color: Some(val) },
            IOState::SetValue { .. } => IOState::SetValue { value: Some(val) },
            IOState::SetValuesDma { high, low, length } => {
                if high is None {
                    IOState::SetValuesDma { high: Some(val), low: low, length: length }
                } else if low is None {
                    IOState::SetValuesDma { high: high, low: Some(val), length: length }
                } else {
                    IOState::SetValuesDma { high: high, low: low, length: Some(val) }
                }
            },
        }
    }

    /// Whether the command is complete, so that the next step carries it out.
    pub open spec fn complete(self) -> bool {
        match self {
            IOState::Listening => false,
            IOState::ClearScreen => true,
            IOState::SetMode { mode } => mode is Some,
            IOState::SetPosition { x, y } => x is Some && y is Some,
            IOState::SetColor { color } => color is Some,
            IOState::SetValue { value } => value is Some,
            IOState::SetValuesDma { high, low, length } => high is Some && low is Some
                && length is Some,
        }
    }

    /// The state after one more byte arrived.
    #[verifier::when_used_as_spec(spec_received)]
    pub fn received(self, val: u8) -> (r: IOState)
        ensures
            r == self.spec_received(val),
    {
        match self {
            IOState::Listening => match val {
                CMD_CLEAR_SCREEN => IOState::ClearScreen,
                CMD_SET_MODE => IOState::SetMode { mode: None },
                CMD_SET_POSITION => IOState::SetPosition { x: None, y: None },
                CMD_SET_COLOR => IOState::SetColor { color: None },
                CMD_SET_VALUE => IOState::SetValue { value: None },
                CMD_SET_VALUES_DMA => IOState::SetValuesDma { high: None, low: None, length: None },
                _ => IOState::Listening,
            },
            IOState::ClearScreen => IOState::Listening,
            IOState::SetMode { .. } => IOState::SetMode { mode: Some(val) },
            IOState::SetPosition { x, y } => {
                if x.is_none() {
                    IOState::SetPosition { x: Some(val), y: y }
                } else {
                    IOState::SetPosition { x: x, y: Some(val) }
                }
            },
            IOState::SetColor { .. } => IOState::SetColor { color: Some(val) },
            IOState::SetValue { .. } => IOState::SetValue { value: Some(val) },
            IOState::SetValuesDma { high, low, length } => {
                if high.is_none() {
                    IOState::SetValuesDma { high: Some(val), low: low, length: length }
                } else if low.is_none() {
                    IOState::SetValuesDma { high: high, low: Some(val), length: length }
                } else {
                    IOState::SetValuesDma { high: high, low: low, length: Some(val) }
                }
            },
        }
    }
}

/// The colour of one pixel of a glyph: the colour of the text where the font
/// image has a byte other than 0, the colour of the background where it has
/// a 0 or no byte at all.
pub open spec fn glyph_pixel(font: Seq<u8>, code_point: u8, row: int, col: int) -> u32 {
    let src_index = ((code_point / 32) * CHAR_HEIGHT + row) * FONT_WIDTH + (code_point % 32)
        * CHAR_WIDTH + col;
    if src_index < font.len() && font[src_index] != 0 {
        DEFAULT_COLOR
    } else {
        DEFAULT_BG_COLOR
    }
}

/// The index in the frame buffer of the top left pixel of a character cell.
pub open spec fn cell_origin(x_chr: u8, y_chr: u8) -> int {
    (y_chr * CHAR_HEIGHT) * SCREEN_WIDTH_PIXELS + x_chr * CHAR_WIDTH
}

/// Whether the pixel at `index` lies in the first `rows` rows of the
/// character cell.
pub open spec fn in_cell(x_chr: u8, y_chr: u8, rows: int, index: int) -> bool {
    let d = index - cell_origin(x_chr, y_chr);
    d >= 0 && d / 640 < rows && d % 640 < CHAR_WIDTH
}

/// The frame buffer after a glyph was drawn into a character cell: the
/// pixels of the cell take the colours of the glyph, as far as the cell lies
/// in the frame buffer, and all the others stay.
pub open spec fn blitted(
    frame_buffer: Seq<u32>,
    font: Seq<u8>,
    x_chr: u8,
    y_chr: u8,
    code_point: u8,
) -> Seq<u32> {
    Seq::new(
        frame_buffer.len(),
        |i: int|
            if in_cell(x_chr, y_chr, CHAR_HEIGHT as int, i) {
                let d = i - cell_origin(x_chr, y_chr);
                glyph_pixel(font, code_point, d / 640, d % 640)
            } else {
                frame_buffer[i]
            },
    )
}

/// The model of the graphics device.
pub struct GraphicsModel {
    pub frame_buffer: Seq<u32>,
    pub font: Seq<u8>,
    pub next_command: IOState,
    pub cursor_x: u8,
    pub cursor_y: u8,
}

impl GraphicsModel {
    /// The device after a character was put at the cursor. A line feed takes
    /// the cursor to the start of the next line, a carriage return to the
    /// start of its line. Any other character is drawn, and the cursor moves
    /// on: behind the last column to the start of the next line, behind the
    /// last line to the first.
    pub open spec fn put(self, code_point: u8) -> GraphicsModel {
        if code_point == 10 {
            GraphicsModel { cursor_x: 0, cursor_y: self.cursor_y.wrapping_add(1), ..self }
        } else if code_point == 13 {
            GraphicsModel { cursor_x: 0, ..self }
        } else {
            let frame_buffer = blitted(
                self.frame_buffer,
                self.font,
                self.cursor_x,
                self.cursor_y,
                code_point,
            );
            let next_x = self.cursor_x.wrapping_add(1);
            let next_y = self.cursor_y.wrapping_add(1);
            if next_x >= SCREEN_WIDTH_CHARS {
                GraphicsModel {
                    frame_buffer: frame_buffer,
                    cursor_x: 0,
                    cursor_y: if next_y >= SCREEN_HEIGHT_CHARS {
                        0
                    } else {
                        next_y
                    },
                    ..self
                }
            } else {
                GraphicsModel { frame_buffer: frame_buffer, cursor_x: next_x, ..self }
            }
        }
    }

    /// The device after the characters were put, one after the other.
    pub open spec fn put_all(self, code_points: Seq<u8>) -> GraphicsModel
        decreases code_points.len(),
    {
        if code_points.len() == 0 {
            self
        } else {
            self.put_all(code_points.drop_last()).put(code_points.last())
        }
    }

    /// The bytes that the next step reads from memory, if it reads any: a
    /// complete command to show a range of memory names their address and
    /// their number.
    pub open spec fn dma_request(self) -> Option<(u16, u8)> {
        match self.next_command {
            IOState::SetValuesDma { high: Some(high), low: Some(low), length: Some(length) } => {
                Some(((high * 256 + low) as u16, length))
            },
            _ => None,
        }
    }

    /// The device after a step, in which it read `dma` from memory if it had
    /// to read: a complete command is carried out, and the device listens
    /// again; an incomplete one stays.
    pub open spec fn stepped(self, dma: Seq<u8>) -> GraphicsModel {
        if !self.next_command.complete() {
            self
        } else {
            let done = GraphicsModel { next_command: IOState::Listening, ..self };
            match self.next_command {
                IOState::ClearScreen => GraphicsModel {
                    frame_buffer: Seq::new(self.frame_buffer.len(), |i: int| DEFAULT_BG_COLOR),
                    ..done
                },
                IOState::SetPosition { x: Some(x), y: Some(y) } => GraphicsModel {
                    cursor_x: x,
                    cursor_y: y,
                    ..done
                },
                IOState::SetValue { value: Some(value) } => done.put(value),
                IOState::SetValuesDma { .. } => done.put_all(dma),
                _ => done,
            }
        }
    }
}

/// The graphics device.
pub struct GraphicsDevice {
    frame_buffer: Vec<u32>,
    font: Vec<u8>,
    next_command: IOState,
    cursor_x: u8,
    cursor_y: u8,
}

impl View for GraphicsDevice {
    type V = GraphicsModel;

    closed spec fn view(&self) -> GraphicsModel {
        GraphicsModel {
            frame_buffer: self.frame_buffer@,
            font: self.font@,
            next_command: self.next_command,
            cursor_x: self.cursor_x,
            cursor_y: self.cursor_y,
        }
    }
}

impl GraphicsDevice {
    /// A device with an empty screen that draws with the given font: an
    /// image of 288 by 128 pixels, one byte each, that holds the glyphs of the
    /// 256 characters, 32 to a row, each 9 pixels wide and 16 high.
    pub fn new(font: Vec<u8>) -> (r: GraphicsDevice)
        ensures
            r@ == (GraphicsModel {
                frame_buffer: Seq::new(FRAME_BUFFER_SIZE as nat, |i: int| DEFAULT_BG_COLOR),
                font: font@,
                next_command: IOState::Listening,
                cursor_x: 0,
                cursor_y: 0,
            }),
    {
        let frame_buffer: Vec<u32> = vec![DEFAULT_BG_COLOR; FRAME_BUFFER_SIZE];
        proof {
            assert(frame_buffer@ =~= Seq::new(FRAME_BUFFER_SIZE as nat, |i: int| DEFAULT_BG_COLOR));
        }
        GraphicsDevice {
            frame_buffer: frame_buffer,
            font: font,
            next_command: IOState::Listening,
            cursor_x: 0,
            cursor_y: 0,
        }
    }

    /// The pixels of the screen, row by row.
    pub fn frame_buffer(&self) -> (r: &[u32])
        ensures
            r@ == self@.frame_buffer,
    {
        self.frame_buffer.as_slice()
    }

    fn put_chr(&mut self, code_point: u8)
        ensures
            final(self)@ == old(self)@.put(code_point),
    {
        if code_point == 10 {
            self.cursor_x = 0;
            self.cursor_y = self.cursor_y.wrapping_add(1);
        } else if code_point == 13 {
            self.cursor_x = 0;
        } else {
            let (x, y) = (self.cursor_x, self.cursor_y);
            self.blit_chr(x, y, code_point);
            self.cursor_x = self.cursor_x.wrapping_add(1);
            if self.cursor_x as usize >= SCREEN_WIDTH_CHARS {
                self.cursor_x = 0;
                self.cursor_y = self.cursor_y.wrapping_add(1);
                if self.cursor_y as usize >= SCREEN_HEIGHT_CHARS {
                    self.cursor_y = 0;
                }
            }
        }
    }

    fn blit_chr(&mut self, x_chr: u8, y_chr: u8, code_point: u8)
        ensures
            final(self)@ == (GraphicsModel {
                frame_buffer: blitted(
                    old(self)@.frame_buffer,
                    old(self)@.font,
                    x_chr,
                    y_chr,
                    code_point,
                ),
                ..old(self)@
            }),
    {
        let src_start_x: usize = (code_point as usize % FONT_CHARS_PER_ROW) * CHAR_WIDTH;
        let src_start_y: usize = (code_point as usize / FONT_CHARS_PER_ROW) * CHAR_HEIGHT;

        let dst_start_x: usize = x_chr as usize * CHAR_WIDTH;
        let dst_start_y: usize = y_chr as usize * CHAR_HEIGHT;

        let mut row: usize = 0;
        while row < CHAR_HEIGHT
            invariant
                row <= CHAR_HEIGHT,
                src_start_x == (code_point % 32) * CHAR_WIDTH,
                src_start_y == (code_point / 32) * CHAR_HEIGHT,
                dst_start_x == x_chr * CHAR_WIDTH,
                dst_start_y == y_chr * CHAR_HEIGHT,
                self.font == old(self).font,
                self.next_command == old(self).next_command,
                self.cursor_x == old(self).cursor_x,
                self.cursor_y == old(self).cursor_y,
                self.frame_buffer@.len() == old(self).frame_buffer@.len(),
                forall|i: int|
                    0 <= i < self.frame_buffer@.len() ==> #[trigger] self.frame_buffer@[i] == (
                    if in_cell(x_chr, y_chr, row as int, i) {
                        glyph_pixel(
                            self.font@,
                            code_point,
                            (i - cell_origin(x_chr, y_chr)) / 640,
                            (i - cell_origin(x_chr, y_chr)) % 640,
                        )
                    } else {
                        old(self).frame_buffer@[i]
                    }),
            decreases CHAR_HEIGHT - row,
        {
            let mut col: usize = 0;
            while col < CHAR_WIDTH
                invariant
                    row < CHAR_HEIGHT,
                    col <= CHAR_WIDTH,
                    src_start_x == (code_point % 32) * CHAR_WIDTH,
                    src_start_y == (code_point / 32) * CHAR_HEIGHT,
                    dst_start_x == x_chr * CHAR_WIDTH,
                    dst_start_y == y_chr * CHAR_HEIGHT,
                    self.font == old(self).font,
                    self.next_command == old(self).next_command,
                    self.cursor_x == old(self).cursor_x,
                    self.cursor_y == old(self).cursor_y,
                    self.frame_buffer@.len() == old(self).frame_buffer@.len(),
                    forall|i: int|
                        0 <= i < self.frame_buffer@.len() ==> #[trigger] self.frame_buffer@[i] == (
                        if in_cell(x_chr, y_chr, row as int, i) || (in_cell(
                            x_chr,
                            y_chr,
                            row as int + 1,
                            i,
                        ) && (i - cell_origin(x_chr, y_chr)) % 640 < col) {
                            glyph_pixel(
                                self.font@,
                                code_point,
                                (i - cell_origin(x_chr, y_chr)) / 640,
                                (i - cell_origin(x_chr, y_chr)) % 640,
                            )
                        } else {
                            old(self).frame_buffer@[i]
                        }),
                decreases CHAR_WIDTH - col,
            {
                let src_index: usize = (src_start_y + row) * FONT_WIDTH + src_start_x + col;
                let dst_index: usize = (dst_start_y + row) * SCREEN_WIDTH_PIXELS + dst_start_x
                    + col;
                let lit: bool = src_index < self.font.len() && self.font[src_index] != 0;
                if dst_index < self.frame_buffer.len() {
                    let pixel: u32 = if lit {
                        DEFAULT_COLOR
                    } else {
                        DEFAULT_BG_COLOR
                    };
                    self.frame_buffer[dst_index] = pixel;
                }
                col += 1;
            }
            row += 1;
        }
        proof {
            assert(self.frame_buffer@ =~= blitted(
                old(self)@.frame_buffer,
                old(self)@.font,
                x_chr,
                y_chr,
                code_point,
            ));
        }
    }

    fn clear_screen(&mut self)
        ensures
            final(self)@ == (GraphicsModel {
                frame_buffer: Seq::new(old(self)@.frame_buffer.len(), |i: int| DEFAULT_BG_COLOR),
                ..old(self)@
            }),
    {
        let n: usize = self.frame_buffer.len();
        let mut i: usize = 0;
        while i < n
            invariant
                i <= n,
                n == self.frame_buffer@.len(),
                n == old(self).frame_buffer@.len(),
                self.font == old(self).font,
                self.next_command == old(self).next_command,
                self.cursor_x == old(self).cursor_x,
                self.cursor_y == old(self).cursor_y,
                forall|j: int| 0 <= j < i ==> self.frame_buffer@[j] == DEFAULT_BG_COLOR,
            decreases n - i,
        {
            self.frame_buffer[i] = DEFAULT_BG_COLOR;
            i += 1;
        }
        proof {
            assert(self.frame_buffer@ =~= Seq::new(
                old(self)@.frame_buffer.len(),
                |i: int| DEFAULT_BG_COLOR,
            ));
        }
    }

    fn put_chrs(&mut self, code_points: &Vec<u8>)
        ensures
            final(self)@ == old(self)@.put_all(code_points@),
    {
        let n: usize = code_points.len();
        let mut i: usize = 0;
        proof {
            assert(code_points@.take(0) =~= Seq::<u8>::empty());
        }
        while i < n
            invariant
                i <= n,
                n == code_points@.len(),
                self@ == old(self)@.put_all(code_points@.take(i as int)),
            decreases n - i,
        {
            proof {
                let next = code_points@.take(i as int + 1);
                assert(next.drop_last() =~= code_points@.take(i as int));
                assert(next.last() == code_points@[i as int]);
            }
            self.put_chr(code_points[i]);
            i += 1;
        }
        proof {
            assert(code_points@.take(n as int) =~= code_points@);
        }
    }
}

impl MemoryMappedDevice for GraphicsDevice {
    open spec fn peek_model(state: GraphicsModel, addr: u16) -> u8 {
        0
    }

    open spec fn read_model(state: GraphicsModel, addr: u16) -> (u8, GraphicsModel) {
        (0, state)
    }

    open spec fn write_model(state: GraphicsModel, addr: u16, val: u8) -> GraphicsModel {
        GraphicsModel { next_command: state.next_command.spec_received(val), ..state }
    }

    open spec fn needs_step() -> bool {
        true
    }

    fn read_byte(&self, _addr: u16) -> (r: u8) {
        0
    }

    fn read_byte_mut(&mut self, _addr: u16) -> (r: u8) {
        0
    }

    fn write_byte(&mut self, _addr: u16, val: u8) {
        self.next_command = self.next_command.received(val);
    }

    fn requires_step(&self) -> (r: bool) {
        true
    }

}

impl<M: MemoryBus> SteppedDevice<M> for GraphicsDevice {
    /// A step carries out a complete command. Only the command to show a
    /// range of memory reads the memory: the bytes of the range, by normal
    /// reads at ascending addresses.
    open spec fn step_model(state: GraphicsModel, memory: M::V) -> (
        Option<InterruptType>,
        GraphicsModel,
        M::V,
    ) {
        match state.dma_request() {
            Some((addr, length)) => (
                None,
                state.stepped(read_slice_model::<M>(memory, addr, length as nat).0),
                read_slice_model::<M>(memory, addr, length as nat).1,
            ),
            None => (None, state.stepped(Seq::empty()), memory),
        }
    }

    proof fn lemma_step_keeps_layout(state: GraphicsModel, memory: M::V) {
        match state.dma_request() {
            Some((addr, length)) => {
                lemma_read_slice_keeps_layout::<M>(memory, addr, length as nat);
            },
            None => {},
        }
    }

    fn step(&mut self, memory: &mut M) -> (r: Option<InterruptType>)
    {
        match self.next_command {
            IOState::Listening => {},
            IOState::ClearScreen => {
                self.clear_screen();
                self.next_command = IOState::Listening;
            },
            IOState::SetMode { mode } => {
                if mode.is_some() {
                    self.next_command = IOState::Listening;
                }
            },
            IOState::SetPosition { x, y } => {
                if x.is_some() && y.is_some() {
                    self.cursor_x = x.unwrap();
                    self.cursor_y = y.unwrap();
                    self.next_command = IOState::Listening;
                }
            },
            IOState::SetColor { color } => {
                if color.is_some() {
                    self.next_command = IOState::Listening;
                }
            },
            IOState::SetValue { value } => {
                if value.is_some() {
                    self.next_command = IOState::Listening;
                    self.put_chr(value.unwrap());
                }
            },
            IOState::SetValuesDma { high, low, length } => {
                if high.is_some() && low.is_some() && length.is_some() {
                    let addr: u16 = ((high.unwrap() as u16) * 256) + low.unwrap() as u16;
                    let mut buffer: Vec<u8> = vec![0u8; length.unwrap() as usize];
                    read_slice(memory, buffer.as_mut_slice(), addr);
                    self.next_command = IOState::Listening;
                    self.put_chrs(&buffer);
                }
            },
        }
        None
    }
}

} // verus!
