//! Console driver for an 80x25 text-mode character grid with a hardware
//! blink cursor.
//!
//! [`Writer`] owns the whole console state: the grid of character cells,
//! the column of the current (always-bottom) write row, the attribute used
//! for new text, and the two indexed CRTC registers that hold the cursor
//! position. On real hardware the grid aliases video memory and the
//! registers sit behind an address/data port pair; the embedding program
//! mirrors this state outward with volatile stores and port writes, under
//! one interrupts-off guard.

use vstd::prelude::*;
use vstd::string::StringSliceAdditionalSpecFns;

verus! {

/// Grid width in character cells.
pub const BUFFER_WIDTH: usize = 80;

/// Grid height in rows.
pub const BUFFER_HEIGHT: usize = 25;

/// The 4-bit color palette of the text mode, in hardware order: the
/// numeric code of each color is its position in this list, `Black` being
/// 0 and `White` being 15.
#[allow(dead_code)]
#[derive(Debug, Clone, Copy, PartialEq, Eq, Structural)]
pub enum Color {
    Black,
    Blue,
    Green,
    Cyan,
    Red,
    Magenta,
    Brown,
    LightGray,
    DarkGray,
    LightBlue,
    LightGreen,
    LightCyan,
    LightRed,
    Pink,
    Yellow,
    White,
}

impl Color {
    /// The 4-bit hardware code of the color.
    pub open spec fn spec_num(self) -> u8 {
        match self {
            Color::Black => 0,
            Color::Blue => 1,
            Color::Green => 2,
            Color::Cyan => 3,
            Color::Red => 4,
            Color::Magenta => 5,
            Color::Brown => 6,
            Color::LightGray => 7,
            Color::DarkGray => 8,
            Color::LightBlue => 9,
            Color::LightGreen => 10,
            Color::LightCyan => 11,
            Color::LightRed => 12,
            Color::Pink => 13,
            Color::Yellow => 14,
            Color::White => 15,
        }
    }

    /// The 4-bit hardware code of the color.
    pub fn num(self) -> (n: u8)
        ensures
            n == self.spec_num(),
            n < 16,
    {
        match self {
            Color::Black => 0,
            Color::Blue => 1,
            Color::Green => 2,
            Color::Cyan => 3,
            Color::Red => 4,
            Color::Magenta => 5,
            Color::Brown => 6,
            Color::LightGray => 7,
            Color::DarkGray => 8,
            Color::LightBlue => 9,
            Color::LightGreen => 10,
            Color::LightCyan => 11,
            Color::LightRed => 12,
            Color::Pink => 13,
            Color::Yellow => 14,
            Color::White => 15,
        }
    }
}

/// A packed text attribute: a 4-bit background color in the high nibble
/// and a 4-bit foreground color in the low nibble.
#[derive(Debug, Clone, Copy, PartialEq, Eq, Structural)]
pub struct ColorCode(pub u8);

impl ColorCode {
    /// The attribute byte that encodes a foreground on a background:
    /// `background << 4 | foreground`.
    pub open spec fn spec_new(foreground: Color, background: Color) -> ColorCode {
        ColorCode((background.spec_num() * 16 + foreground.spec_num()) as u8)
    }

    /// Packs a foreground and a background color into one attribute byte:
    /// background in the high nibble, foreground in the low nibble.
    pub fn new(foreground: Color, background: Color) -> (r: ColorCode)
        ensures
            r == ColorCode::spec_new(foreground, background),
    {
        ColorCode(background.num() * 16 + foreground.num())
    }
}

/// One character cell of the grid: a glyph byte and its color attribute.
#[derive(Debug, Clone, Copy, PartialEq, Eq, Structural)]
pub struct ScreenChar {
    pub ascii_character: u8,
    pub color_code: ColorCode,
}

/// A two-dimensional cursor position: `x` is the column, `y` the row.
#[derive(Debug, Clone, Copy, PartialEq, Eq, Structural)]
pub struct CursorPosition {
    pub x: u8,
    pub y: u8,
}

/// The console state as the contracts see it: the grid in row-major
/// order, the write column, the active attribute, and the two 8-bit CRTC
/// cursor registers.
#[verifier::ext_equal]
pub ghost struct ConsoleView {
    pub grid: Seq<ScreenChar>,
    pub column: nat,
    pub color: ColorCode,
    pub cursor_high: u8,
    pub cursor_low: u8,
}

/// The linear cursor offset held by the two CRTC registers, high byte
/// first: `high * 256 + low`. The hardware convention is that this equals
/// `y * 80 + x`.
pub open spec fn cursor_offset(v: ConsoleView) -> int {
    v.cursor_high * 256 + v.cursor_low
}

/// A well-formed console: one cell per position of the 80x25 grid, and a
/// write column that is at most the width (it rests at 80 after a row has
/// just been filled, until the next write scrolls).
pub open spec fn view_wf(v: ConsoleView) -> bool {
    v.grid.len() == 2000 && v.column <= 80
}

/// A blank cell: a space glyph in the given attribute.
pub open spec fn blank_cell(color: ColorCode) -> ScreenChar {
    ScreenChar { ascii_character: 32, color_code: color }
}

/// The glyph actually stored for an input byte: printable ASCII is kept,
/// anything else is replaced by the substitute glyph 0xfe.
pub open spec fn glyph_for(b: u8) -> u8 {
    if 0x20 <= b && b <= 0x7e {
        b
    } else {
        0xfe
    }
}

/// The grid after one scroll: every row moved up one place and a fresh
/// bottom row of blank cells in the given attribute.
pub open spec fn spec_scrolled_grid(grid: Seq<ScreenChar>, color: ColorCode) -> Seq<ScreenChar> {
    grid.subrange(80, 2000) + Seq::new(80, |i: int| blank_cell(color))
}

/// The console after a scroll: rows moved up, a blank bottom row in the
/// active attribute, and the write column back at 0. The cursor registers
/// are untouched.
pub open spec fn spec_new_line(v: ConsoleView) -> ConsoleView {
    ConsoleView {
        grid: spec_scrolled_grid(v.grid, v.color),
        column: 0,
        color: v.color,
        cursor_high: v.cursor_high,
        cursor_low: v.cursor_low,
    }
}

/// The console after one byte is written. A newline scrolls; any other
/// byte first scrolls if the row is full, then puts its glyph at the
/// write position of the bottom row and advances the column.
pub open spec fn spec_write_byte(v: ConsoleView, b: u8) -> ConsoleView {
    if b == 10 {
        spec_new_line(v)
    } else {
        let base = if v.column >= 80 {
            spec_new_line(v)
        } else {
            v
        };
        ConsoleView {
            grid: base.grid.update(
                1920 + base.column as int,
                ScreenChar { ascii_character: glyph_for(b), color_code: v.color },
            ),
            column: base.column + 1,
            color: base.color,
            cursor_high: base.cursor_high,
            cursor_low: base.cursor_low,
        }
    }
}

/// The console after a whole sequence of bytes is written in order.
pub open spec fn spec_write_bytes(v: ConsoleView, bs: Seq<u8>) -> ConsoleView
    decreases bs.len(),
{
    if bs.len() == 0 {
        v
    } else {
        spec_write_bytes(spec_write_byte(v, bs[0]), bs.drop_first())
    }
}

/// The console driver: column of the write row, active attribute, the
/// character grid in row-major order, and the CRTC cursor registers.
pub struct Writer {
    column_position: usize,
    color_code: ColorCode,
    buffer: Vec<ScreenChar>,
    registers: Registers,
}

/// Software image of the two indexed CRTC registers that hold the cursor
/// offset: index 0x0E selects the high byte, index 0x0F the low byte.
struct Registers {
    cursor_high: u8,
    cursor_low: u8,
}

impl View for Writer {
    type V = ConsoleView;

    closed spec fn view(&self) -> ConsoleView {
        ConsoleView {
            grid: self.buffer@,
            column: self.column_position as nat,
            color: self.color_code,
            cursor_high: self.registers.cursor_high,
            cursor_low: self.registers.cursor_low,
        }
    }
}

impl Writer {
    /// A well-formed writer: see [`view_wf`].
    pub open spec fn wf(self) -> bool {
        view_wf(self@)
    }

    /// A fresh console: a blank grid in white-on-black, the write column
    /// at 0, and the cursor registers cleared.
    pub fn new() -> (w: Writer)
        ensures
            w.wf(),
            w@.column == 0,
            w@.color == ColorCode::spec_new(Color::White, Color::Black),
            w@.cursor_high == 0,
            w@.cursor_low == 0,
            forall|i: int|
                0 <= i < 2000 ==> w@.grid[i] == blank_cell(
                    ColorCode::spec_new(Color::White, Color::Black),
                ),
    {
        let color_code = ColorCode::new(Color::White, Color::Black);
        let mut buffer: Vec<ScreenChar> = Vec::new();
        while buffer.len() < 2000
            invariant
                buffer@.len() <= 2000,
                forall|i: int| 0 <= i < buffer@.len() ==> buffer@[i] == blank_cell(color_code),
            decreases 2000 - buffer@.len(),
        {
            buffer.push(ScreenChar { ascii_character: 32, color_code });
        }
        Writer {
            column_position: 0,
            color_code,
            buffer,
            registers: Registers { cursor_high: 0, cursor_low: 0 },
        }
    }

    /// The cell at a grid position; `row` counts from the top.
    pub fn char_at(&self, row: usize, col: usize) -> (c: ScreenChar)
        requires
            self.wf(),
            row < 25,
            col < 80,
        ensures
            c == self@.grid[row * 80 + col],
    {
        self.buffer[row * 80 + col]
    }

    /// Overwrites one row with blank cells in the active attribute.
    fn clear_row(&mut self, row: usize)
        requires
            old(self).wf(),
            row < 25,
        ensures
            final(self).wf(),
            forall|i: int|
                0 <= i < 2000 && !(row * 80 <= i < row * 80 + 80) ==> final(self)@.grid[i] == old(
                    self,
                )@.grid[i],
            forall|i: int|
                row * 80 <= i < row * 80 + 80 ==> final(self)@.grid[i] == blank_cell(
                    old(self)@.color,
                ),
            final(self)@.column == old(self)@.column,
            final(self)@.color == old(self)@.color,
            final(self)@.cursor_high == old(self)@.cursor_high,
            final(self)@.cursor_low == old(self)@.cursor_low,
    {
        let blank = ScreenChar { ascii_character: 32u8, color_code: self.color_code };
        let mut col: usize = 0;
        while col < BUFFER_WIDTH
            invariant
                old(self).wf(),
                row < 25,
                col <= 80,
                self@.grid.len() == 2000,
                blank == blank_cell(old(self)@.color),
                forall|i: int|
                    0 <= i < 2000 && !(row * 80 <= i < row * 80 + col) ==> self@.grid[i] == old(
                        self,
                    )@.grid[i],
                forall|i: int|
                    row * 80 <= i < row * 80 + col ==> self@.grid[i] == blank_cell(
                        old(self)@.color,
                    ),
                self@.column == old(self)@.column,
                self@.color == old(self)@.color,
                self@.cursor_high == old(self)@.cursor_high,
                self@.cursor_low == old(self)@.cursor_low,
            decreases 80 - col,
        {
            self.buffer[row * BUFFER_WIDTH + col] = blank;
            col = col + 1;
        }
    }

    /// Scrolls: copies every row one place up, clears the bottom row to
    /// blanks in the active attribute, and resets the write column to 0.
    fn new_line(&mut self)
        requires
            old(self).wf(),
        ensures
            final(self).wf(),
            final(self)@ == spec_new_line(old(self)@),
    {
        let mut i: usize = 0;
        while i < 1920
            invariant
                old(self).wf(),
                i <= 1920,
                self@.grid.len() == 2000,
                forall|j: int| 0 <= j < i ==> self@.grid[j] == old(self)@.grid[j + 80],
                forall|j: int| i <= j < 2000 ==> self@.grid[j] == old(self)@.grid[j],
                self@.column == old(self)@.column,
                self@.color == old(self)@.color,
                self@.cursor_high == old(self)@.cursor_high,
                self@.cursor_low == old(self)@.cursor_low,
            decreases 1920 - i,
        {
            let moved = self.buffer[i + 80];
            self.buffer[i] = moved;
            i = i + 1;
        }
        self.clear_row(BUFFER_HEIGHT - 1);
        self.column_position = 0;
        proof {
            assert(self@.grid =~= spec_scrolled_grid(old(self)@.grid, old(self)@.color));
            assert(self@ =~= spec_new_line(old(self)@));
        }
    }

    /// Writes one byte at the write position of the bottom row. A newline
    /// scrolls instead; a full row scrolls first; a byte outside printable
    /// ASCII is stored as the substitute glyph, never raw.
    pub fn write_byte(&mut self, byte: u8)
        requires
            old(self).wf(),
        ensures
            final(self).wf(),
            final(self)@ == spec_write_byte(old(self)@, byte),
    {
        if byte == 10 {
            self.new_line();
        } else {
            if self.column_position >= BUFFER_WIDTH {
                self.new_line();
            }
            let glyph = if 0x20 <= byte && byte <= 0x7e {
                byte
            } else {
                0xfe
            };
            let col = self.column_position;
            let cell = ScreenChar { ascii_character: glyph, color_code: self.color_code };
            self.buffer[1920 + col] = cell;
            self.column_position = col + 1;
            proof {
                assert(self@ =~= spec_write_byte(old(self)@, byte));
            }
        }
    }

    /// Writes every byte of the string in order through [`Writer::write_byte`].
    /// The whole write is one call: callers that need several characters to
    /// land together must hold the driver's exclusive access for the call.
    pub fn write_string(&mut self, s: &str)
        requires
            old(self).wf(),
        ensures
            final(self).wf(),
            final(self)@ == spec_write_bytes(old(self)@, s.spec_bytes()),
    {
        let bytes = s.as_bytes();
        proof {
            assert(bytes@.take(0) =~= Seq::<u8>::empty());
        }
        let mut i: usize = 0;
        while i < bytes.len()
            invariant
                bytes@ == s.spec_bytes(),
                i <= bytes@.len(),
                self.wf(),
                self@ == spec_write_bytes(old(self)@, bytes@.take(i as int)),
            decreases bytes@.len() - i,
        {
            let b = bytes[i];
            proof {
                lemma_write_bytes_snoc(old(self)@, bytes@.take(i as int), bytes@[i as int]);
                assert(bytes@.take(i + 1) =~= bytes@.take(i as int).push(bytes@[i as int]));
            }
            self.write_byte(b);
            i = i + 1;
        }
        proof {
            assert(bytes@.take(bytes@.len() as int) =~= bytes@);
        }
    }

    /// Changes the color used by everything written from now on; nothing
    /// already on screen is touched.
    pub fn change_color(&mut self, foreground_color: Color, background_color: Color)
        requires
            old(self).wf(),
        ensures
            final(self).wf(),
            final(self)@.color == ColorCode::spec_new(foreground_color, background_color),
            final(self)@.grid == old(self)@.grid,
            final(self)@.column == old(self)@.column,
            final(self)@.cursor_high == old(self)@.cursor_high,
            final(self)@.cursor_low == old(self)@.cursor_low,
    {
        self.color_code = ColorCode::new(foreground_color, background_color);
    }

    /// Makes the new color the active one and repaints the attribute of
    /// every cell on screen with it, leaving every glyph, the write column
    /// and the cursor exactly as they were.
    pub fn change_screen_color(&mut self, foreground_color: Color, background_color: Color)
        requires
            old(self).wf(),
        ensures
            final(self).wf(),
            final(self)@.color == ColorCode::spec_new(foreground_color, background_color),
            final(self)@.grid.len() == old(self)@.grid.len(),
            forall|i: int|
                0 <= i < 2000 ==> final(self)@.grid[i].ascii_character == old(
                    self,
                )@.grid[i].ascii_character,
            forall|i: int|
                0 <= i < 2000 ==> final(self)@.grid[i].color_code == ColorCode::spec_new(
                    foreground_color,
                    background_color,
                ),
            final(self)@.column == old(self)@.column,
            final(self)@.cursor_high == old(self)@.cursor_high,
            final(self)@.cursor_low == old(self)@.cursor_low,
    {
        self.change_color(foreground_color, background_color);
        let code = self.color_code;
        let mut i: usize = 0;
        while i < 2000
            invariant
                old(self).wf(),
                i <= 2000,
                self@.grid.len() == 2000,
                code == ColorCode::spec_new(foreground_color, background_color),
                self@.color == code,
                forall|j: int|
                    0 <= j < i ==> self@.grid[j].ascii_character == old(
                        self,
                    )@.grid[j].ascii_character,
                forall|j: int| 0 <= j < i ==> self@.grid[j].color_code == code,
                forall|j: int| i <= j < 2000 ==> self@.grid[j] == old(self)@.grid[j],
                self@.column == old(self)@.column,
                self@.cursor_high == old(self)@.cursor_high,
                self@.cursor_low == old(self)@.cursor_low,
            decreases 2000 - i,
        {
            let glyph = self.buffer[i].ascii_character;
            self.buffer[i] = ScreenChar { ascii_character: glyph, color_code: code };
            i = i + 1;
        }
    }

    /// Selects a CRTC register through the index port and writes its data
    /// byte: index 0x0E is the high cursor byte, 0x0F the low one. The
    /// model keeps only these two registers, so a write anywhere else
    /// changes nothing here. On hardware the two port writes must run as
    /// one uninterruptible sequence; the embedding program masks
    /// interrupts around them.
    fn crtc_write(&mut self, address: u8, value: u8)
        requires
            old(self).wf(),
        ensures
            final(self).wf(),
            final(self)@.cursor_high == if address == 0x0E {
                value
            } else {
                old(self)@.cursor_high
            },
            final(self)@.cursor_low == if address == 0x0F {
                value
            } else {
                old(self)@.cursor_low
            },
            final(self)@.grid == old(self)@.grid,
            final(self)@.column == old(self)@.column,
            final(self)@.color == old(self)@.color,
    {
        if address == 0x0E {
            self.registers.cursor_high = value;
        } else if address == 0x0F {
            self.registers.cursor_low = value;
        }
    }

    /// Selects a CRTC register through the index port and reads its data
    /// byte; the counterpart of [`Writer::crtc_write`]. Reading a register
    /// the model does not keep yields 0.
    fn crtc_read(&mut self, address: u8) -> (value: u8)
        requires
            old(self).wf(),
        ensures
            *final(self) == *old(self),
            value == if address == 0x0E {
                old(self)@.cursor_high
            } else if address == 0x0F {
                old(self)@.cursor_low
            } else {
                0
            },
    {
        if address == 0x0E {
            self.registers.cursor_high
        } else if address == 0x0F {
            self.registers.cursor_low
        } else {
            0
        }
    }

    /// Takes a position and makes it the hardware cursor position: the
    /// 16-bit offset `y * 80 + x` goes out big-endian over the two CRTC
    /// cursor registers, high byte to index 0x0E, low byte to index 0x0F.
    pub fn set_cursor_pos(&mut self, cp: CursorPosition)
        requires
            old(self).wf(),
        ensures
            final(self).wf(),
            cursor_offset(final(self)@) == cp.y * 80 + cp.x,
            final(self)@.grid == old(self)@.grid,
            final(self)@.column == old(self)@.column,
            final(self)@.color == old(self)@.color,
    {
        let pos: u16 = cp.y as u16 * 80 + cp.x as u16;
        let high: u8 = (pos / 256) as u8;
        let low: u8 = (pos % 256) as u8;
        self.crtc_write(0x0E, high);
        self.crtc_write(0x0F, low);
        proof {
            vstd::arithmetic::div_mod::lemma_fundamental_div_mod(pos as int, 256);
        }
    }

    /// Reads the two CRTC cursor registers and turns the 16-bit offset
    /// back into a position: `x` is the offset modulo the width, `y` the
    /// offset divided by it. The register pair can hold offsets whose row
    /// would not fit an 8-bit `y`; such a state is a contract violation of
    /// the narrowing cast, so it is excluded here rather than handled.
    pub fn get_cursor_position(&mut self) -> (cp: CursorPosition)
        requires
            old(self).wf(),
            cursor_offset(old(self)@) / 80 <= 255,
        ensures
            *final(self) == *old(self),
            cp.x == cursor_offset(old(self)@) % 80,
            cp.y == cursor_offset(old(self)@) / 80,
            cp.x < 80,
    {
        let first_bits = self.crtc_read(0x0E);
        let last_bits = self.crtc_read(0x0F);
        let cursor_distance: u16 = first_bits as u16 * 256 + last_bits as u16;
        let x: u8 = (cursor_distance % 80) as u8;
        let y: u8 = (cursor_distance / 80) as u8;
        CursorPosition { x, y }
    }

    /// Moves the cursor by a relative amount, wrapping around on each
    /// axis: the column wraps at the width, the row at the height, so the
    /// cursor always lands on a valid position.
    pub fn move_cursor_by(&mut self, x: i8, y: i8)
        requires
            old(self).wf(),
            cursor_offset(old(self)@) / 80 <= 255,
        ensures
            final(self).wf(),
            cursor_offset(final(self)@) == spec_wrapped_offset(
                cursor_offset(old(self)@),
                x as int,
                y as int,
            ),
            final(self)@.grid == old(self)@.grid,
            final(self)@.column == old(self)@.column,
            final(self)@.color == old(self)@.color,
    {
        let cursor_pos = self.get_cursor_position();
        let x_shift: u16 = (x as i32 + 160) as u16;
        let y_shift: u16 = (y as i32 + 150) as u16;
        let raw_x: u16 = cursor_pos.x as u16 + x_shift;
        let raw_y: u16 = cursor_pos.y as u16 + y_shift;
        let new_x: u8 = (raw_x % 80) as u8;
        let new_y: u8 = (raw_y % 25) as u8;
        proof {
            let off = cursor_offset(old(self)@);
            vstd::arithmetic::div_mod::lemma_mod_multiples_vanish(2, off % 80 + x as int, 80);
            vstd::arithmetic::div_mod::lemma_mod_multiples_vanish(6, off / 80 + y as int, 25);
            vstd::arithmetic::div_mod::lemma_mod_bound(off % 80 + x as int, 80);
            vstd::arithmetic::div_mod::lemma_mod_bound(off / 80 + y as int, 25);
        }
        self.set_cursor_pos(CursorPosition { x: new_x, y: new_y });
    }
}

/// Where the cursor lands after a relative move of `(dx, dy)` from the
/// offset `off`: each axis wraps around its own extent, the column modulo
/// the width and the row modulo the height.
pub open spec fn spec_wrapped_offset(off: int, dx: int, dy: int) -> int {
    ((off / 80 + dy) % 25) * 80 + ((off % 80 + dx) % 80)
}

/// Writing bytes one more byte at a time: sending `bs` and then `b` lands
/// the console where writing `bs` with `b` appended would.
pub proof fn lemma_write_bytes_snoc(v: ConsoleView, bs: Seq<u8>, b: u8)
    ensures
        spec_write_bytes(v, bs.push(b)) == spec_write_byte(spec_write_bytes(v, bs), b),
    decreases bs.len(),
{
    if bs.len() == 0 {
        assert(bs.push(b)[0] == b);
        assert(bs.push(b).drop_first() =~= Seq::<u8>::empty());
        assert(spec_write_bytes(v, bs.push(b)) == spec_write_bytes(
            spec_write_byte(v, b),
            bs.push(b).drop_first(),
        ));
        assert(spec_write_bytes(spec_write_byte(v, b), bs.push(b).drop_first()) == spec_write_byte(
            v,
            b,
        ));
    } else {
        assert(bs.push(b).drop_first() =~= bs.drop_first().push(b));
        assert(bs.push(b)[0] == bs[0]);
        lemma_write_bytes_snoc(spec_write_byte(v, bs[0]), bs.drop_first(), b);
    }
}

/// Round trip through the two-register cursor encoding: for any valid
/// screen position, encoding the offset `y * 80 + x` and decoding it by
/// remainder and division recovers exactly `x` and `y`. So
/// `get_cursor_position` right after `set_cursor_pos` returns the
/// position that was set.
pub proof fn lemma_cursor_round_trip(x: u8, y: u8)
    requires
        x < 80,
        y < 25,
    ensures
        (y * 80 + x) % 80 == x,
        (y * 80 + x) / 80 == y,
{
    vstd::arithmetic::div_mod::lemma_fundamental_div_mod_converse(
        y * 80 + x,
        80,
        y as int,
        x as int,
    );
}

/// A write that fits in the free part of the bottom row never scrolls:
/// every cell before the write position — all higher rows included — and
/// every cell after the written span keep their contents, the bytes land
/// in order at the write position in the active color, and the column
/// advances by the length of the write.
pub proof fn lemma_no_scroll_short_write(v: ConsoleView, bs: Seq<u8>)
    requires
        view_wf(v),
        v.column + bs.len() <= 80,
        forall|k: int| 0 <= k < bs.len() ==> bs[k] != 10,
    ensures
        view_wf(spec_write_bytes(v, bs)),
        spec_write_bytes(v, bs).column == v.column + bs.len(),
        spec_write_bytes(v, bs).color == v.color,
        spec_write_bytes(v, bs).cursor_high == v.cursor_high,
        spec_write_bytes(v, bs).cursor_low == v.cursor_low,
        forall|j: int|
            0 <= j < 1920 + v.column ==> spec_write_bytes(v, bs).grid[j] == v.grid[j],
        forall|k: int|
            0 <= k < bs.len() ==> spec_write_bytes(v, bs).grid[1920 + v.column + k] == (ScreenChar {
                ascii_character: glyph_for(bs[k]),
                color_code: v.color,
            }),
        forall|j: int|
            1920 + v.column + bs.len() <= j < 2000 ==> spec_write_bytes(v, bs).grid[j]
                == v.grid[j],
    decreases bs.len(),
{
    if bs.len() == 0 {
    } else {
        let v1 = spec_write_byte(v, bs[0]);
        let rest = bs.drop_first();
        let out = spec_write_bytes(v, bs);
        assert(v1.grid == v.grid.update(
            1920 + v.column as int,
            ScreenChar { ascii_character: glyph_for(bs[0]), color_code: v.color },
        ));
        lemma_no_scroll_short_write(v1, rest);
        assert(out == spec_write_bytes(v1, rest));
        assert forall|j: int| 0 <= j < 1920 + v.column implies out.grid[j] == v.grid[j] by {
            assert(out.grid[j] == v1.grid[j]);
        }
        assert forall|k: int|
            0 <= k < bs.len() implies out.grid[1920 + v.column + k] == (ScreenChar {
            ascii_character: glyph_for(bs[k]),
            color_code: v.color,
        }) by {
            if k == 0 {
                assert(out.grid[1920 + v.column as int] == v1.grid[1920 + v.column as int]);
            } else {
                assert(out.grid[1920 + v1.column as int + (k - 1)] == (ScreenChar {
                    ascii_character: glyph_for(rest[k - 1]),
                    color_code: v1.color,
                }));
                assert(rest[k - 1] == bs[k]);
            }
        }
        assert forall|j: int|
            1920 + v.column + bs.len() <= j < 2000 implies out.grid[j] == v.grid[j] by {
            assert(out.grid[j] == v1.grid[j]);
        }
    }
}

/// Exactly one scroll: eighty printable characters starting at column 0
/// fill the bottom row without scrolling, and the next character then
/// triggers exactly one scroll — the filled row moves up one place, every
/// older row moves with it, and the extra character starts the fresh
/// bottom row.
pub proof fn lemma_full_row_then_one_scroll(v: ConsoleView, bs: Seq<u8>, b: u8)
    requires
        view_wf(v),
        v.column == 0,
        bs.len() == 80,
        forall|k: int| 0 <= k < 80 ==> bs[k] != 10,
        b != 10,
    ensures
        spec_write_bytes(v, bs).column == 80,
        forall|j: int| 0 <= j < 1920 ==> spec_write_bytes(v, bs).grid[j] == v.grid[j],
        ({
            let w = spec_write_bytes(v, bs.push(b));
            &&& w.column == 1
            &&& forall|j: int| 0 <= j < 1840 ==> w.grid[j] == v.grid[j + 80]
            &&& forall|k: int|
                0 <= k < 80 ==> w.grid[1840 + k] == (ScreenChar {
                    ascii_character: glyph_for(bs[k]),
                    color_code: v.color,
                })
            &&& w.grid[1920] == (ScreenChar { ascii_character: glyph_for(b), color_code: v.color })
            &&& forall|j: int| 1921 <= j < 2000 ==> w.grid[j] == blank_cell(v.color)
        }),
{
    lemma_no_scroll_short_write(v, bs);
    lemma_write_bytes_snoc(v, bs, b);
    let u = spec_write_bytes(v, bs);
    let w = spec_write_byte(u, b);
    let base = spec_new_line(u);
    assert(w.grid == base.grid.update(
        1920,
        ScreenChar { ascii_character: glyph_for(b), color_code: u.color },
    ));
    assert forall|j: int| 0 <= j < 1840 implies w.grid[j] == v.grid[j + 80] by {
        assert(w.grid[j] == u.grid[j + 80]);
    }
    assert forall|k: int|
        0 <= k < 80 implies w.grid[1840 + k] == (ScreenChar {
        ascii_character: glyph_for(bs[k]),
        color_code: v.color,
    }) by {
        assert(w.grid[1840 + k] == u.grid[1920 + k]);
    }
    assert forall|j: int| 1921 <= j < 2000 implies w.grid[j] == blank_cell(v.color) by {
        assert(w.grid[j] == base.grid[j]);
    }
}

/// Changes the color used for subsequent writes on the given console.
pub fn colorchg(writer: &mut Writer, foreground_color: Color, background_color: Color)
    requires
        old(writer).wf(),
    ensures
        final(writer).wf(),
        final(writer)@.color == ColorCode::spec_new(foreground_color, background_color),
        final(writer)@.grid == old(writer)@.grid,
        final(writer)@.column == old(writer)@.column,
        final(writer)@.cursor_high == old(writer)@.cursor_high,
        final(writer)@.cursor_low == old(writer)@.cursor_low,
{
    writer.change_color(foreground_color, background_color);
}

/// Repaints the whole screen in the new color, keeping every glyph; see
/// [`Writer::change_screen_color`].
pub fn change_screen_color(writer: &mut Writer, foreground_color: Color, background_color: Color)
    requires
        old(writer).wf(),
    ensures
        final(writer).wf(),
        final(writer)@.color == ColorCode::spec_new(foreground_color, background_color),
        final(writer)@.grid.len() == old(writer)@.grid.len(),
        forall|i: int|
            0 <= i < 2000 ==> final(writer)@.grid[i].ascii_character == old(
                writer,
            )@.grid[i].ascii_character,
        forall|i: int|
            0 <= i < 2000 ==> final(writer)@.grid[i].color_code == ColorCode::spec_new(
                foreground_color,
                background_color,
            ),
        final(writer)@.column == old(writer)@.column,
        final(writer)@.cursor_high == old(writer)@.cursor_high,
        final(writer)@.cursor_low == old(writer)@.cursor_low,
{
    writer.change_screen_color(foreground_color, background_color);
}

/// Moves the hardware cursor of the given console by a relative amount,
/// wrapping on each axis; see [`Writer::move_cursor_by`].
pub fn move_cursor_by(writer: &mut Writer, x: i8, y: i8)
    requires
        old(writer).wf(),
        cursor_offset(old(writer)@) / 80 <= 255,
    ensures
        final(writer).wf(),
        cursor_offset(final(writer)@) == spec_wrapped_offset(
            cursor_offset(old(writer)@),
            x as int,
            y as int,
        ),
        final(writer)@.grid == old(writer)@.grid,
        final(writer)@.column == old(writer)@.column,
        final(writer)@.color == old(writer)@.color,
{
    writer.move_cursor_by(x, y)
}

} // verus!
