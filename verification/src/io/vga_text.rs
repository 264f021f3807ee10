//! Colors and the writer for a CGA/VGA-style text buffer. The writer keeps
//! an owned copy of the screen cells, the cursor column and the current
//! color; every byte written and every scroll is specified exactly.

use vstd::prelude::*;

verus! {

/// Characters per screen line.
pub const CHARS_PER_LINE: usize = 80;

/// Screen lines.
pub const HEIGHT: usize = 24;

/// Cells on the whole screen.
pub const BUFFER_CELLS: usize = CHARS_PER_LINE * HEIGHT;

/// The newline byte, which starts a new line instead of being drawn.
pub const NEWLINE: u8 = 0x0A;

/// The base for two colors that can be used in CGA text mode: each base
/// color has a dark and a light form.
#[derive(Clone, Copy, Debug, Eq, PartialEq, Structural)]
pub enum CgaColor {
    /// Black (dark form `#000000`, light form `#555555`).
    Black,
    /// Blue (dark form `#0000AA`, light form `#5555FF`).
    Blue,
    /// Green (dark form `#00AA00`, light form `#55FF55`).
    Green,
    /// Cyan (dark form `#00AAAA`, light form `#55FFFF`).
    Cyan,
    /// Red (dark form `#AA0000`, light form `#FF5555`).
    Red,
    /// Magenta or pink (dark form `#AA00AA`, light form `#FF55FF`).
    Magenta,
    /// Brown or yellow (dark form `#AA5500`, light form `#FFFF55`).
    Brown,
    /// Light gray or white (dark form `#AAAAAA`, light form `#FFFFFF`).
    LightGray,
}

impl CgaColor {
    /// The base color encoded by the low three bits of `b`. Only codes up
    /// to 7 name a base color; higher arguments are clamped to `LightGray`.
    pub open spec fn spec_of_code(b: u8) -> CgaColor {
        if b == 0x00 {
            CgaColor::Black
        } else if b == 0x01 {
            CgaColor::Blue
        } else if b == 0x02 {
            CgaColor::Green
        } else if b == 0x03 {
            CgaColor::Cyan
        } else if b == 0x04 {
            CgaColor::Red
        } else if b == 0x05 {
            CgaColor::Magenta
        } else if b == 0x06 {
            CgaColor::Brown
        } else {
            CgaColor::LightGray
        }
    }

    /// The color's code in the hardware attribute byte.
    pub open spec fn spec_to_byte(self) -> u8 {
        match self {
            CgaColor::Black => 0x00,
            CgaColor::Blue => 0x01,
            CgaColor::Green => 0x02,
            CgaColor::Cyan => 0x03,
            CgaColor::Red => 0x04,
            CgaColor::Magenta => 0x05,
            CgaColor::Brown => 0x06,
            CgaColor::LightGray => 0x07,
        }
    }

    /// The color's code in the hardware attribute byte.
    pub fn to_byte(self) -> (r: u8)
        ensures
            r == self.spec_to_byte(),
            r <= 0x07,
    {
        match self {
            CgaColor::Black => 0x00,
            CgaColor::Blue => 0x01,
            CgaColor::Green => 0x02,
            CgaColor::Cyan => 0x03,
            CgaColor::Red => 0x04,
            CgaColor::Magenta => 0x05,
            CgaColor::Brown => 0x06,
            CgaColor::LightGray => 0x07,
        }
    }

    /// What conversion from a raw byte returns.
    pub open spec fn spec_try_from(b: u8) -> Result<CgaColor, u8> {
        if b <= 0x07 {
            Ok(CgaColor::spec_of_code(b))
        } else {
            Err(b)
        }
    }

    /// Convert a raw byte to the base color it encodes. Succeeds exactly on
    /// the eight base-color codes; any other byte is handed back as the
    /// error.
    pub fn try_from(b: u8) -> (r: Result<CgaColor, u8>)
        ensures
            r == Self::spec_try_from(b),
            r is Ok <==> b <= 0x07,
    {
        match b {
            0x00 => Ok(CgaColor::Black),
            0x01 => Ok(CgaColor::Blue),
            0x02 => Ok(CgaColor::Green),
            0x03 => Ok(CgaColor::Cyan),
            0x04 => Ok(CgaColor::Red),
            0x05 => Ok(CgaColor::Magenta),
            0x06 => Ok(CgaColor::Brown),
            0x07 => Ok(CgaColor::LightGray),
            _ => Err(b),
        }
    }

    /// The eight base colors, in code order.
    pub open spec fn spec_colors() -> Seq<CgaColor> {
        seq![
            CgaColor::Black,
            CgaColor::Blue,
            CgaColor::Green,
            CgaColor::Cyan,
            CgaColor::Red,
            CgaColor::Magenta,
            CgaColor::Brown,
            CgaColor::LightGray,
        ]
    }

    /// Get the available base colors, in code order.
    pub fn colors() -> (r: Vec<CgaColor>)
        ensures
            r@ == Self::spec_colors(),
    {
        let mut v: Vec<CgaColor> = Vec::new();
        v.push(CgaColor::Black);
        v.push(CgaColor::Blue);
        v.push(CgaColor::Green);
        v.push(CgaColor::Cyan);
        v.push(CgaColor::Red);
        v.push(CgaColor::Magenta);
        v.push(CgaColor::Brown);
        v.push(CgaColor::LightGray);
        proof {
            assert(v@ =~= Self::spec_colors());
        }
        v
    }
}

/// A color for the background in VGA text mode: any base color, optionally
/// making text on it blink. Some implementations show the light form of the
/// base color instead of blinking.
#[derive(Clone, Copy, Debug, Eq, PartialEq, Structural)]
pub enum BackgroundColor {
    /// The plain base color.
    NoBlink(CgaColor),
    /// The base color with the blink bit set.
    Blink(CgaColor),
}

impl BackgroundColor {
    /// The color's code in the high nibble of the attribute byte: the base
    /// color's code, with bit 3 as the blink bit.
    pub open spec fn spec_to_byte(self) -> u8 {
        match self {
            BackgroundColor::NoBlink(c) => c.spec_to_byte(),
            BackgroundColor::Blink(c) => 0x08u8 | c.spec_to_byte(),
        }
    }

    /// The color's code in the high nibble of the attribute byte.
    pub fn to_byte(self) -> (r: u8)
        ensures
            r == self.spec_to_byte(),
            r <= 0x0F,
    {
        let r = match self {
            BackgroundColor::NoBlink(c) => c.to_byte(),
            BackgroundColor::Blink(c) => 0x08u8 | c.to_byte(),
        };
        proof {
            assert(forall|b: u8| b <= 0x07 ==> #[trigger] (0x08u8 | b) <= 0x0F) by (bit_vector);
        }
        r
    }

    /// What conversion from a raw byte returns.
    pub open spec fn spec_try_from(b: u8) -> Result<BackgroundColor, u8> {
        if b <= 0x07 {
            Ok(BackgroundColor::NoBlink(CgaColor::spec_of_code(b)))
        } else if b <= 0x0F {
            Ok(BackgroundColor::Blink(CgaColor::spec_of_code(b & 0x07)))
        } else {
            Err(b)
        }
    }

    /// Convert a raw byte to the background color it encodes. Succeeds
    /// exactly on the sixteen background codes; any other byte is handed
    /// back as the error.
    pub fn try_from(b: u8) -> (r: Result<BackgroundColor, u8>)
        ensures
            r == Self::spec_try_from(b),
            r is Ok <==> b <= 0x0F,
    {
        if b <= 0x07 {
            match CgaColor::try_from(b) {
                Ok(c) => Ok(BackgroundColor::NoBlink(c)),
                Err(e) => Err(e),
            }
        } else if b <= 0x0F {
            let masked = b & 0x07;
            proof {
                assert(b & 0x07 <= 0x07) by (bit_vector);
            }
            match CgaColor::try_from(masked) {
                Ok(c) => Ok(BackgroundColor::Blink(c)),
                Err(e) => Err(e),
            }
        } else {
            Err(b)
        }
    }

    /// The sixteen background colors: the eight plain base colors in code
    /// order, then their eight blink forms.
    pub open spec fn spec_colors() -> Seq<BackgroundColor> {
        seq![
            BackgroundColor::NoBlink(CgaColor::Black),
            BackgroundColor::NoBlink(CgaColor::Blue),
            BackgroundColor::NoBlink(CgaColor::Green),
            BackgroundColor::NoBlink(CgaColor::Cyan),
            BackgroundColor::NoBlink(CgaColor::Red),
            BackgroundColor::NoBlink(CgaColor::Magenta),
            BackgroundColor::NoBlink(CgaColor::Brown),
            BackgroundColor::NoBlink(CgaColor::LightGray),
            BackgroundColor::Blink(CgaColor::Black),
            BackgroundColor::Blink(CgaColor::Blue),
            BackgroundColor::Blink(CgaColor::Green),
            BackgroundColor::Blink(CgaColor::Cyan),
            BackgroundColor::Blink(CgaColor::Red),
            BackgroundColor::Blink(CgaColor::Magenta),
            BackgroundColor::Blink(CgaColor::Brown),
            BackgroundColor::Blink(CgaColor::LightGray),
        ]
    }

    /// Get the available background colors.
    pub fn colors() -> (r: Vec<BackgroundColor>)
        ensures
            r@ == Self::spec_colors(),
    {
        let mut v: Vec<BackgroundColor> = Vec::new();
        v.push(BackgroundColor::NoBlink(CgaColor::Black));
        v.push(BackgroundColor::NoBlink(CgaColor::Blue));
        v.push(BackgroundColor::NoBlink(CgaColor::Green));
        v.push(BackgroundColor::NoBlink(CgaColor::Cyan));
        v.push(BackgroundColor::NoBlink(CgaColor::Red));
        v.push(BackgroundColor::NoBlink(CgaColor::Magenta));
        v.push(BackgroundColor::NoBlink(CgaColor::Brown));
        v.push(BackgroundColor::NoBlink(CgaColor::LightGray));
        v.push(BackgroundColor::Blink(CgaColor::Black));
        v.push(BackgroundColor::Blink(CgaColor::Blue));
        v.push(BackgroundColor::Blink(CgaColor::Green));
        v.push(BackgroundColor::Blink(CgaColor::Cyan));
        v.push(BackgroundColor::Blink(CgaColor::Red));
        v.push(BackgroundColor::Blink(CgaColor::Magenta));
        v.push(BackgroundColor::Blink(CgaColor::Brown));
        v.push(BackgroundColor::Blink(CgaColor::LightGray));
        proof {
            assert(v@ =~= Self::spec_colors());
        }
        v
    }
}

/// A color for text in VGA text mode: any base color, in its dark or its
/// light form.
#[derive(Clone, Copy, Debug, Eq, PartialEq, Structural)]
pub enum TextColor {
    /// The dark form of the base color.
    Dark(CgaColor),
    /// The light form of the base color.
    Light(CgaColor),
}

impl TextColor {
    /// The color's code in the low nibble of the attribute byte: the base
    /// color's code, with bit 3 as the brightness bit.
    pub open spec fn spec_to_byte(self) -> u8 {
        match self {
            TextColor::Dark(c) => c.spec_to_byte(),
            TextColor::Light(c) => 0x08u8 | c.spec_to_byte(),
        }
    }

    /// The color's code in the low nibble of the attribute byte.
    pub fn to_byte(self) -> (r: u8)
        ensures
            r == self.spec_to_byte(),
            r <= 0x0F,
    {
        let r = match self {
            TextColor::Dark(c) => c.to_byte(),
            TextColor::Light(c) => 0x08u8 | c.to_byte(),
        };
        proof {
            assert(forall|b: u8| b <= 0x07 ==> #[trigger] (0x08u8 | b) <= 0x0F) by (bit_vector);
        }
        r
    }

    /// What conversion from a raw byte returns.
    pub open spec fn spec_try_from(b: u8) -> Result<TextColor, u8> {
        if b <= 0x07 {
            Ok(TextColor::Dark(CgaColor::spec_of_code(b)))
        } else if b <= 0x0F {
            Ok(TextColor::Light(CgaColor::spec_of_code(b & 0x07)))
        } else {
            Err(b)
        }
    }

    /// Convert a raw byte to the text color it encodes. Succeeds exactly on
    /// the sixteen text-color codes; any other byte is handed back as the
    /// error.
    pub fn try_from(b: u8) -> (r: Result<TextColor, u8>)
        ensures
            r == Self::spec_try_from(b),
            r is Ok <==> b <= 0x0F,
    {
        if b <= 0x07 {
            match CgaColor::try_from(b) {
                Ok(c) => Ok(TextColor::Dark(c)),
                Err(e) => Err(e),
            }
        } else if b <= 0x0F {
            let masked = b & 0x07;
            proof {
                assert(b & 0x07 <= 0x07) by (bit_vector);
            }
            match CgaColor::try_from(masked) {
                Ok(c) => Ok(TextColor::Light(c)),
                Err(e) => Err(e),
            }
        } else {
            Err(b)
        }
    }

    /// The sixteen text colors: the eight dark base colors in code order,
    /// then their eight light forms.
    pub open spec fn spec_colors() -> Seq<TextColor> {
        seq![
            TextColor::Dark(CgaColor::Black),
            TextColor::Dark(CgaColor::Blue),
            TextColor::Dark(CgaColor::Green),
            TextColor::Dark(CgaColor::Cyan),
            TextColor::Dark(CgaColor::Red),
            TextColor::Dark(CgaColor::Magenta),
            TextColor::Dark(CgaColor::Brown),
            TextColor::Dark(CgaColor::LightGray),
            TextColor::Light(CgaColor::Black),
            TextColor::Light(CgaColor::Blue),
            TextColor::Light(CgaColor::Green),
            TextColor::Light(CgaColor::Cyan),
            TextColor::Light(CgaColor::Red),
            TextColor::Light(CgaColor::Magenta),
            TextColor::Light(CgaColor::Brown),
            TextColor::Light(CgaColor::LightGray),
        ]
    }

    /// Get the available text colors.
    pub fn colors() -> (r: Vec<TextColor>)
        ensures
            r@ == Self::spec_colors(),
    {
        let mut v: Vec<TextColor> = Vec::new();
        v.push(TextColor::Dark(CgaColor::Black));
        v.push(TextColor::Dark(CgaColor::Blue));
        v.push(TextColor::Dark(CgaColor::Green));
        v.push(TextColor::Dark(CgaColor::Cyan));
        v.push(TextColor::Dark(CgaColor::Red));
        v.push(TextColor::Dark(CgaColor::Magenta));
        v.push(TextColor::Dark(CgaColor::Brown));
        v.push(TextColor::Dark(CgaColor::LightGray));
        v.push(TextColor::Light(CgaColor::Black));
        v.push(TextColor::Light(CgaColor::Blue));
        v.push(TextColor::Light(CgaColor::Green));
        v.push(TextColor::Light(CgaColor::Cyan));
        v.push(TextColor::Light(CgaColor::Red));
        v.push(TextColor::Light(CgaColor::Magenta));
        v.push(TextColor::Light(CgaColor::Brown));
        v.push(TextColor::Light(CgaColor::LightGray));
        proof {
            assert(v@ =~= Self::spec_colors());
        }
        v
    }
}

/// A combined background and text color: the hardware attribute byte, with
/// the background in the high nibble and the text color in the low nibble.
#[derive(Clone, Copy, Debug, Eq, PartialEq, Structural)]
pub struct CharColor(pub u8);

impl CharColor {
    /// The attribute byte for a background and text color pair.
    pub open spec fn spec_from_pair(bg_color: BackgroundColor, text_color: TextColor) -> CharColor {
        CharColor((bg_color.spec_to_byte() << 4) | text_color.spec_to_byte())
    }

    /// Pack a background and text color pair into the attribute byte.
    pub fn from_pair(bg_color: BackgroundColor, text_color: TextColor) -> (r: CharColor)
        ensures
            r == Self::spec_from_pair(bg_color, text_color),
    {
        CharColor((bg_color.to_byte() << 4) | text_color.to_byte())
    }
}

/// One screen cell: a code-page byte and its colors.
#[derive(Clone, Copy, Debug, Eq, PartialEq, Structural)]
pub struct ScreenChar {
    /// The code-page byte shown in the cell.
    pub c: u8,
    /// The cell's colors.
    pub color: CharColor,
}

/// A writer to a VGA-like output buffer. It owns the screen cells it has
/// produced; the hardware layer mirrors them into the memory-mapped frame
/// buffer. Writing always happens on the bottom line; a full line or a
/// newline scrolls the screen up by one line.
#[derive(Clone, Debug, Eq, PartialEq)]
pub struct Writer {
    /// The column the next byte lands in, on the bottom line.
    pub column: usize,
    /// The color for all new characters.
    pub color: CharColor,
    /// The screen cells, line by line from the top: the cell at line `l`,
    /// column `c` sits at index `l * CHARS_PER_LINE + c`.
    pub buffer: Vec<ScreenChar>,
}

/// An empty cell.
pub open spec fn spec_blank_cell() -> ScreenChar {
    ScreenChar { c: 0, color: CharColor(0x00) }
}

/// A whole line of empty cells.
pub open spec fn spec_blank_line() -> Seq<ScreenChar> {
    Seq::new(CHARS_PER_LINE as nat, |i: int| spec_blank_cell())
}

/// An entirely empty screen.
pub open spec fn spec_blank_screen() -> Seq<ScreenChar> {
    Seq::new(BUFFER_CELLS as nat, |i: int| spec_blank_cell())
}

/// The screen scrolled up by one line: every line moves up, and the bottom
/// line is cleared.
pub open spec fn spec_scrolled(cells: Seq<ScreenChar>) -> Seq<ScreenChar> {
    cells.subrange(CHARS_PER_LINE as int, BUFFER_CELLS as int) + spec_blank_line()
}

/// The byte a cell shows for a written byte: the byte itself if it is
/// ASCII, otherwise the code-page replacement character.
pub open spec fn spec_mapped_byte(byte: u8) -> u8 {
    if byte <= 0x7F {
        byte
    } else {
        0xEF
    }
}

/// The cells and column after one byte is written: a newline scrolls; any
/// other byte lands at the cursor on the bottom line in the current color,
/// and filling the line scrolls.
pub open spec fn spec_write_byte(
    cells: Seq<ScreenChar>,
    column: int,
    color: CharColor,
    byte: u8,
) -> (Seq<ScreenChar>, int) {
    if byte == NEWLINE {
        (spec_scrolled(cells), 0)
    } else {
        let written = cells.update(
            (HEIGHT - 1) * CHARS_PER_LINE + column,
            ScreenChar { c: spec_mapped_byte(byte), color: color },
        );
        if column + 1 >= CHARS_PER_LINE {
            (spec_scrolled(written), 0)
        } else {
            (written, column + 1)
        }
    }
}

/// The cells and column after a whole bytestring is written, byte by byte.
pub open spec fn spec_write(
    cells: Seq<ScreenChar>,
    column: int,
    color: CharColor,
    bytes: Seq<u8>,
) -> (Seq<ScreenChar>, int)
    decreases bytes.len(),
{
    if bytes.len() == 0 {
        (cells, column)
    } else {
        let prev = spec_write(cells, column, color, bytes.drop_last());
        spec_write_byte(prev.0, prev.1, color, bytes.last())
    }
}

impl Writer {
    /// The writer covers the whole screen and its cursor is on screen.
    pub open spec fn wf(self) -> bool {
        self.buffer@.len() == BUFFER_CELLS && self.column < CHARS_PER_LINE
    }

    /// A writer over an empty screen, with the cursor at the start of the
    /// bottom line.
    pub fn new(color: CharColor) -> (r: Writer)
        ensures
            r.wf(),
            r.column == 0,
            r.color == color,
            r.buffer@ == spec_blank_screen(),
    {
        let mut buffer: Vec<ScreenChar> = Vec::new();
        let mut i: usize = 0;
        while i < BUFFER_CELLS
            invariant
                i <= BUFFER_CELLS,
                buffer@.len() == i,
                forall|j: int| 0 <= j < i ==> buffer@[j] == spec_blank_cell(),
            decreases BUFFER_CELLS - i,
        {
            buffer.push(ScreenChar { c: 0, color: CharColor(0x00) });
            i += 1;
        }
        proof {
            assert(buffer@ =~= spec_blank_screen());
        }
        Writer { column: 0, color, buffer }
    }

    /// The initial color pair for a writer: black background, light green
    /// text.
    pub fn default_color_pair() -> (r: (BackgroundColor, TextColor))
        ensures
            r == (
                BackgroundColor::NoBlink(CgaColor::Black),
                TextColor::Light(CgaColor::Green),
            ),
    {
        (BackgroundColor::NoBlink(CgaColor::Black), TextColor::Light(CgaColor::Green))
    }

    /// The color all new characters are written in.
    pub fn color(&self) -> (r: CharColor)
        ensures
            r == self.color,
    {
        self.color
    }

    /// Start a new line: scroll the screen up by one line, clear the bottom
    /// line, and move the cursor to its start.
    pub fn crlf(&mut self)
        requires
            old(self).buffer@.len() == BUFFER_CELLS,
        ensures
            final(self).wf(),
            final(self).color == old(self).color,
            final(self).buffer@ == spec_scrolled(old(self).buffer@),
            final(self).column == 0,
    {
        let ghost orig = self.buffer@;
        let ghost color0 = self.color;
        let mut i: usize = 0;
        while i < BUFFER_CELLS - CHARS_PER_LINE
            invariant
                i <= BUFFER_CELLS - CHARS_PER_LINE,
                self.buffer@.len() == BUFFER_CELLS,
                self.color == color0,
                forall|j: int| 0 <= j < i ==> self.buffer@[j] == orig[j + CHARS_PER_LINE],
                forall|j: int| i <= j < BUFFER_CELLS ==> self.buffer@[j] == orig[j],
            decreases BUFFER_CELLS - CHARS_PER_LINE - i,
        {
            let moved = self.buffer[i + CHARS_PER_LINE];
            self.buffer.set(i, moved);
            i += 1;
        }
        let mut j: usize = BUFFER_CELLS - CHARS_PER_LINE;
        while j < BUFFER_CELLS
            invariant
                BUFFER_CELLS - CHARS_PER_LINE <= j <= BUFFER_CELLS,
                self.buffer@.len() == BUFFER_CELLS,
                self.color == color0,
                forall|k: int|
                    0 <= k < BUFFER_CELLS - CHARS_PER_LINE
                        ==> self.buffer@[k] == orig[k + CHARS_PER_LINE],
                forall|k: int|
                    BUFFER_CELLS - CHARS_PER_LINE <= k < j
                        ==> self.buffer@[k] == spec_blank_cell(),
            decreases BUFFER_CELLS - j,
        {
            self.buffer.set(j, ScreenChar { c: 0, color: CharColor(0x00) });
            j += 1;
        }
        self.column = 0;
        proof {
            assert(self.buffer@ =~= spec_scrolled(orig));
        }
    }

    /// Set the color for all new characters written to the writer.
    pub fn set_color(&mut self, color: CharColor)
        ensures
            final(self).color == color,
            final(self).column == old(self).column,
            final(self).buffer == old(self).buffer,
    {
        self.color = color;
    }

    /// Write the byte `byte` to the writer in the current color.
    pub fn write_byte(&mut self, byte: u8)
        requires
            old(self).wf(),
        ensures
            final(self).wf(),
            final(self).color == old(self).color,
            (final(self).buffer@, final(self).column as int) == spec_write_byte(
                old(self).buffer@,
                old(self).column as int,
                old(self).color,
                byte,
            ),
    {
        if byte == NEWLINE {
            return self.crlf();
        }
        let mapped: u8 = if byte <= 0x7F {
            byte
        } else {
            0xEF
        };
        let color = self.color;
        self.buffer.set(
            (HEIGHT - 1) * CHARS_PER_LINE + self.column,
            ScreenChar { c: mapped, color },
        );
        self.column = self.column + 1;
        if self.column >= CHARS_PER_LINE {
            self.crlf();
        }
    }

    /// Write the bytestring `bytes` to the writer in the current color.
    pub fn write(&mut self, bytes: &[u8])
        requires
            old(self).wf(),
        ensures
            final(self).wf(),
            final(self).color == old(self).color,
            (final(self).buffer@, final(self).column as int) == spec_write(
                old(self).buffer@,
                old(self).column as int,
                old(self).color,
                bytes@,
            ),
    {
        let ghost cells0 = self.buffer@;
        let ghost column0 = self.column as int;
        let ghost color0 = self.color;
        let mut i: usize = 0;
        while i < bytes.len()
            invariant
                i <= bytes@.len(),
                self.wf(),
                self.color == color0,
                (self.buffer@, self.column as int) == spec_write(
                    cells0,
                    column0,
                    color0,
                    bytes@.take(i as int),
                ),
            decreases bytes@.len() - i,
        {
            proof {
                assert(bytes@.take(i + 1).drop_last() =~= bytes@.take(i as int));
                assert(bytes@.take(i + 1).last() == bytes@[i as int]);
            }
            self.write_byte(bytes[i]);
            i += 1;
        }
        proof {
            assert(bytes@.take(bytes@.len() as int) =~= bytes@);
        }
    }
}

} // verus!
