use vstd::prelude::*;
use vstd::string::StringSliceAdditionalSpecFns;

use crate::values::{paint_index, Paint};

verus! {

pub const BUFFER_HEIGHT: usize = 25;

pub const BUFFER_WIDTH: usize = 80;

/// Number of cells in the grid, `BUFFER_HEIGHT * BUFFER_WIDTH`.
pub const BUFFER_CELLS: usize = 2000;

/// Character stored in place of a byte the console cannot show.
pub const REPLACEMENT_GLYPH: u8 = 0xfe;

/// A colour byte: background palette index in the high nibble, foreground in the low.
#[derive(Clone, Copy, PartialEq, Eq, Structural, Debug)]
pub struct Colour(pub u8);

pub open spec fn colour_byte(fg: Paint, bg: Paint) -> u8 {
    (paint_index(bg) * 16 + paint_index(fg)) as u8
}

/// `c` with its foreground nibble replaced by `fg`.
pub open spec fn with_foreground(c: u8, fg: Paint) -> u8 {
    ((c / 16) * 16 + paint_index(fg)) as u8
}

/// `c` with its background nibble replaced by `bg`.
pub open spec fn with_background(c: u8, bg: Paint) -> u8 {
    (paint_index(bg) * 16 + c % 16) as u8
}

impl Colour {
    pub fn new(foreground: Paint, background: Paint) -> (r: Colour)
        ensures
            r.0 == colour_byte(foreground, background),
    {
        let f = foreground.index();
        let b = background.index();
        assert(f < 16 && b < 16 ==> (b << 4u8) | f == b * 16 + f) by (bit_vector);
        Colour((b << 4u8) | f)
    }

    pub fn set_background(&mut self, background: Paint)
        ensures
            final(self).0 == with_background(old(self).0, background),
    {
        let c = self.0;
        let b = background.index();
        assert(b < 16 ==> (c & 0x0Fu8) | (b << 4u8) == b * 16 + c % 16) by (bit_vector);
        self.0 = (c & 0x0F) | (b << 4u8);
    }

    pub fn set_foreground(&mut self, foreground: Paint)
        ensures
            final(self).0 == with_foreground(old(self).0, foreground),
    {
        let c = self.0;
        let f = foreground.index();
        assert(f < 16 ==> (c & 0xF0u8) | f == (c / 16) * 16 + f) by (bit_vector);
        self.0 = (c & 0xF0) | f;
    }
}

/// One cell of the grid: a character and the colour it is shown in.
#[derive(Clone, Copy, PartialEq, Eq, Structural, Debug)]
pub struct TerminalChar {
    pub character: u8,
    pub colour: Colour,
}


/// Position of the cell at `row`, `col` in the row-major grid.
pub open spec fn cell_index(row: int, col: int) -> int {
    row * 80 + col
}

/// The cell a cleared row holds: a space, white on black.
pub open spec fn blank_cell() -> TerminalChar {
    TerminalChar { character: 0x20, colour: Colour(0x0f) }
}

/// The character stored for byte `b`: itself when printable, else the replacement glyph.
pub open spec fn glyph(b: u8) -> u8 {
    if 0x20 <= b <= 0x7e {
        b
    } else {
        0xfe
    }
}

/// `cells` with every cell of `row` blank.
pub open spec fn cleared_row(cells: Seq<TerminalChar>, row: int) -> Seq<TerminalChar> {
    Seq::new(
        cells.len(),
        |k: int|
            if cell_index(row, 0) <= k < cell_index(row + 1, 0) {
                blank_cell()
            } else {
                cells[k]
            },
    )
}

/// `cells` with each row but the last taking the contents of the row below it.
pub open spec fn shifted_up(cells: Seq<TerminalChar>) -> Seq<TerminalChar> {
    Seq::new(
        cells.len(),
        |k: int|
            if k + 80 < cells.len() {
                cells[k + 80]
            } else {
                cells[k]
            },
    )
}

/// The console as a value: cursor, current colour, grid contents, and whether
/// the current row has been painted since the cursor reached it.
pub struct ConsoleView {
    pub row: int,
    pub column: int,
    pub colour: u8,
    pub cells: Seq<TerminalChar>,
    pub line_initialised: bool,
}

impl ConsoleView {
    pub open spec fn wf(self) -> bool {
        &&& 0 <= self.row < 25
        &&& 0 <= self.column <= 80
        &&& self.cells.len() == 2000
    }

    pub open spec fn cell(self, row: int, col: int) -> TerminalChar {
        self.cells[cell_index(row, col)]
    }

    /// The cells already written on the current row take the current colour.
    pub open spec fn repaint(self) -> ConsoleView {
        ConsoleView {
            cells: Seq::new(
                self.cells.len(),
                |k: int|
                    if cell_index(self.row, 0) <= k < cell_index(self.row, self.column) {
                        TerminalChar { character: self.cells[k].character, colour: Colour(self.colour) }
                    } else {
                        self.cells[k]
                    },
            ),
            ..self
        }
    }

    /// The cursor moves to the start of the next row, scrolling the grid up a
    /// row when it is on the last one; the row it lands on is blank.
    pub open spec fn new_line(self) -> ConsoleView {
        if self.row + 1 < 25 {
            ConsoleView {
                row: self.row + 1,
                column: 0,
                line_initialised: false,
                cells: cleared_row(self.cells, self.row + 1),
                ..self
            }
        } else {
            ConsoleView {
                column: 0,
                line_initialised: false,
                cells: cleared_row(shifted_up(self.cells), 24),
                ..self
            }
        }
    }

    /// Stores `ch` in the current colour under the cursor and advances it.
    pub open spec fn place(self, ch: u8) -> ConsoleView {
        ConsoleView {
            cells: self.cells.update(
                cell_index(self.row, self.column),
                TerminalChar { character: ch, colour: Colour(self.colour) },
            ),
            column: self.column + 1,
            ..self
        }
    }

    /// The row is painted on its first write since the cursor reached it.
    pub open spec fn initialise_line(self) -> ConsoleView {
        if self.line_initialised {
            self
        } else {
            ConsoleView { line_initialised: true, ..self.repaint() }
        }
    }

    pub open spec fn write_byte(self, b: u8) -> ConsoleView {
        let v = self.initialise_line();
        if b == 0x0a {
            v.new_line()
        } else if v.column >= 80 {
            v.new_line().place(glyph(b))
        } else {
            v.place(glyph(b))
        }
    }

    pub open spec fn write_bytes(self, bs: Seq<u8>) -> ConsoleView
        decreases bs.len(),
    {
        if bs.len() == 0 {
            self
        } else {
            self.write_bytes(bs.drop_last()).write_byte(bs.last())
        }
    }

    /// The current colour becomes `c`, and the written cells of the current row take it.
    pub open spec fn recolour(self, c: u8) -> ConsoleView {
        ConsoleView { colour: c, ..self }.repaint()
    }
}

/// The console as it starts: a blank grid, the cursor at the top left, green on black.
pub open spec fn initial_console() -> ConsoleView {
    ConsoleView {
        row: 0,
        column: 0,
        colour: 0x02,
        cells: Seq::new(2000, |k: int| blank_cell()),
        line_initialised: false,
    }
}


/// The console driver: a cursor over the grid, with the colour new text is written in.
pub struct Writer {
    row: usize,
    column: usize,
    colour: Colour,
    buffer: Vec<TerminalChar>,
    is_line_initialised: bool,
}

impl View for Writer {
    type V = ConsoleView;

    closed spec fn view(&self) -> ConsoleView {
        ConsoleView {
            row: self.row as int,
            column: self.column as int,
            colour: self.colour.0,
            cells: self.buffer@,
            line_initialised: self.is_line_initialised,
        }
    }
}

impl Writer {
    /// A console with a blank grid, the cursor at the top left, writing green on black.
    pub fn new() -> (r: Writer)
        ensures
            r@ == initial_console(),
    {
        let blank = TerminalChar { character: 0x20, colour: Colour::new(Paint::White, Paint::Black) };
        assert(blank == blank_cell());
        let mut buffer: Vec<TerminalChar> = Vec::new();
        while buffer.len() < BUFFER_CELLS
            invariant
                buffer@.len() <= 2000,
                blank == blank_cell(),
                forall|k: int| 0 <= k < buffer@.len() ==> buffer@[k] == blank_cell(),
            decreases 2000 - buffer@.len(),
        {
            buffer.push(blank);
        }
        let r = Writer {
            row: 0,
            column: 0,
            colour: Colour::new(Paint::Green, Paint::Black),
            buffer,
            is_line_initialised: false,
        };
        assert(r@.cells =~= initial_console().cells);
        r
    }

    /// Whether the cursor lies on the grid and the grid has its full size.
    pub fn is_well_formed(&self) -> (r: bool)
        ensures
            r == self@.wf(),
    {
        self.row < BUFFER_HEIGHT && self.column <= BUFFER_WIDTH && self.buffer.len() == BUFFER_CELLS
    }

    /// The cell at `row`, `col`.
    pub fn char_at(&self, row: usize, col: usize) -> (r: TerminalChar)
        requires
            self@.wf(),
            row < BUFFER_HEIGHT,
            col < BUFFER_WIDTH,
        ensures
            r == self@.cell(row as int, col as int),
    {
        self.buffer[row * BUFFER_WIDTH + col]
    }

    pub fn row(&self) -> (r: usize)
        ensures
            r == self@.row,
    {
        self.row
    }

    pub fn column(&self) -> (r: usize)
        ensures
            r == self@.column,
    {
        self.column
    }

    pub fn colour(&self) -> (r: Colour)
        ensures
            r.0 == self@.colour,
    {
        self.colour
    }

    fn clear_row(&mut self, row: usize)
        requires
            old(self)@.wf(),
            row < BUFFER_HEIGHT,
        ensures
            final(self)@ == (ConsoleView { cells: cleared_row(old(self)@.cells, row as int), ..old(self)@ }),
    {
        let blank = TerminalChar { character: 0x20, colour: Colour::new(Paint::White, Paint::Black) };
        assert(blank == blank_cell());
        let ghost start = self.buffer@;
        let mut col: usize = 0;
        while col < BUFFER_WIDTH
            invariant
                row < 25,
                col <= 80,
                blank == blank_cell(),
                self.buffer@.len() == 2000,
                self.row == old(self).row,
                self.column == old(self).column,
                self.colour == old(self).colour,
                self.is_line_initialised == old(self).is_line_initialised,
                start == old(self).buffer@,
                forall|k: int|
                    0 <= k < 2000 ==> self.buffer@[k] == (if cell_index(row as int, 0) <= k
                        < cell_index(row as int, col as int) {
                        blank_cell()
                    } else {
                        start[k]
                    }),
            decreases 80 - col,
        {
            self.buffer.set(row * BUFFER_WIDTH + col, blank);
            col += 1;
        }
        assert(self@.cells =~= cleared_row(start, row as int));
    }

    fn update_row_colour(&mut self)
        requires
            old(self)@.wf(),
        ensures
            final(self)@ == old(self)@.repaint(),
    {
        let ghost start = self.buffer@;
        let base = self.row * BUFFER_WIDTH;
        let mut col: usize = 0;
        while col < self.column
            invariant
                self.row < 25,
                self.column <= 80,
                base == self.row * 80,
                col <= self.column,
                self.buffer@.len() == 2000,
                self.row == old(self).row,
                self.column == old(self).column,
                self.colour == old(self).colour,
                self.is_line_initialised == old(self).is_line_initialised,
                start == old(self).buffer@,
                forall|k: int|
                    0 <= k < 2000 ==> self.buffer@[k] == (if cell_index(self.row as int, 0) <= k
                        < cell_index(self.row as int, col as int) {
                        TerminalChar { character: start[k].character, colour: self.colour }
                    } else {
                        start[k]
                    }),
            decreases self.column - col,
        {
            let cell = self.buffer[base + col];
            self.buffer.set(base + col, TerminalChar { character: cell.character, colour: self.colour });
            col += 1;
        }
        assert(self@.cells =~= old(self)@.repaint().cells);
    }

    fn new_line(&mut self)
        requires
            old(self)@.wf(),
        ensures
            final(self)@ == old(self)@.new_line(),
    {
        self.column = 0;
        self.is_line_initialised = false;
        if self.row + 1 < BUFFER_HEIGHT {
            self.row += 1;
            self.clear_row(self.row);
            return ;
        }
        let ghost start = self.buffer@;
        let mut i: usize = BUFFER_WIDTH;
        while i < BUFFER_CELLS
            invariant
                80 <= i <= 2000,
                self.buffer@.len() == 2000,
                self.row == old(self).row,
                self.row == 24,
                self.column == 0,
                self.colour == old(self).colour,
                !self.is_line_initialised,
                start == old(self).buffer@,
                forall|k: int|
                    0 <= k < 2000 ==> self.buffer@[k] == (if k + 80 < i {
                        start[k + 80]
                    } else {
                        start[k]
                    }),
            decreases 2000 - i,
        {
            let cell = self.buffer[i];
            self.buffer.set(i - BUFFER_WIDTH, cell);
            i += 1;
        }
        assert(self.buffer@ =~= shifted_up(start));
        self.clear_row(BUFFER_HEIGHT - 1);
    }

    /// Writes each byte of `s` in order, as `write_byte` does.
    pub fn write_string(&mut self, s: &str)
        requires
            old(self)@.wf(),
        ensures
            final(self)@ == old(self)@.write_bytes(s.spec_bytes()),
            final(self)@.wf(),
    {
        let bytes = s.as_bytes();
        let mut i: usize = 0;
        while i < bytes.len()
            invariant
                bytes@ == s.spec_bytes(),
                i <= bytes@.len(),
                self@.wf(),
                self@ == old(self)@.write_bytes(bytes@.subrange(0, i as int)),
            decreases bytes@.len() - i,
        {
            let b = bytes[i];
            self.write_byte(b);
            assert(bytes@.subrange(0, i + 1).drop_last() =~= bytes@.subrange(0, i as int));
            i += 1;
        }
        assert(bytes@.subrange(0, i as int) =~= bytes@);
    }

    /// Writes in `foreground` on `background` from now on, and repaints the
    /// cells already written on the current row.
    pub fn set_colour(&mut self, foreground: Paint, background: Paint) -> (r: &mut Writer)
        requires
            old(self)@.wf(),
        ensures
            r@ == old(self)@.recolour(colour_byte(foreground, background)),
            *final(self) == *final(r),
    {
        self.colour = Colour::new(foreground, background);
        self.update_row_colour();
        self
    }

    /// Writes in `foreground` from now on, keeping the background, and repaints
    /// the cells already written on the current row.
    pub fn set_foreground(&mut self, foreground: Paint) -> (r: &mut Writer)
        requires
            old(self)@.wf(),
        ensures
            r@ == old(self)@.recolour(with_foreground(old(self)@.colour, foreground)),
            *final(self) == *final(r),
    {
        self.colour.set_foreground(foreground);
        self.update_row_colour();
        self
    }

    /// Writes on `background` from now on, keeping the foreground, and repaints
    /// the cells already written on the current row.
    pub fn set_background(&mut self, background: Paint) -> (r: &mut Writer)
        requires
            old(self)@.wf(),
        ensures
            r@ == old(self)@.recolour(with_background(old(self)@.colour, background)),
            *final(self) == *final(r),
    {
        self.colour.set_background(background);
        self.update_row_colour();
        self
    }

    /// Writes one byte at the cursor: a newline moves to the next row, a
    /// printable byte is stored as it is, any other byte as the replacement glyph.
    pub fn write_byte(&mut self, byte: u8)
        requires
            old(self)@.wf(),
        ensures
            final(self)@ == old(self)@.write_byte(byte),
            final(self)@.wf(),
    {
        if !self.is_line_initialised {
            self.update_row_colour();
            self.is_line_initialised = true;
        }
        if byte == 0x0a {
            self.new_line();
        } else {
            if self.column >= BUFFER_WIDTH {
                self.new_line();
            }
            let ch = if 0x20 <= byte && byte <= 0x7e {
                byte
            } else {
                REPLACEMENT_GLYPH
            };
            let idx = self.row * BUFFER_WIDTH + self.column;
            self.buffer.set(idx, TerminalChar { character: ch, colour: self.colour });
            self.column += 1;
        }
    }
}

/// Sets both colours of `writer`, repainting the written cells of its current row.
pub fn set_terminal_colour(writer: &mut Writer, foreground: Paint, background: Paint)
    requires
        old(writer)@.wf(),
    ensures
        final(writer)@ == old(writer)@.recolour(colour_byte(foreground, background)),
{
    writer.set_colour(foreground, background);
}

/// Sets the foreground of `writer`, repainting the written cells of its current row.
pub fn set_terminal_fg(writer: &mut Writer, foreground: Paint)
    requires
        old(writer)@.wf(),
    ensures
        final(writer)@ == old(writer)@.recolour(with_foreground(old(writer)@.colour, foreground)),
{
    writer.set_foreground(foreground);
}

/// Sets the background of `writer`, repainting the written cells of its current row.
pub fn set_terminal_bg(writer: &mut Writer, background: Paint)
    requires
        old(writer)@.wf(),
    ensures
        final(writer)@ == old(writer)@.recolour(with_background(old(writer)@.colour, background)),
{
    writer.set_background(background);
}

/// Writes already formatted text to `writer`.
pub fn _print(writer: &mut Writer, text: &str)
    requires
        old(writer)@.wf(),
    ensures
        final(writer)@ == old(writer)@.write_bytes(text.spec_bytes()),
{
    writer.write_string(text);
}

/// Writes `text` in `fg` on `bg`, then returns to the colour in use before
/// without repainting: the written cells of the row keep `fg` on `bg`.
pub fn _print_retaining_colour(writer: &mut Writer, fg: Paint, bg: Paint, text: &str)
    requires
        old(writer)@.wf(),
    ensures
        final(writer)@ == (ConsoleView {
            colour: old(writer)@.colour,
            ..old(writer)@.recolour(colour_byte(fg, bg)).write_bytes(text.spec_bytes())
        }),
{
    let orig_colour = writer.colour;
    writer.set_colour(fg, bg);
    writer.write_string(text);
    writer.colour = orig_colour;
}

} // verus!
