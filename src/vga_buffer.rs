use vstd::prelude::*;
use vstd::string::StringSliceAdditionalSpecFns;
use volatile::Volatile;
use crate::color::ColorMode;
use crate::screen::{
    blank_row, cell_word, shown, written, ScreenModel, BLANK, BUFFER_HEIGHT, BUFFER_WIDTH, FALLBACK,
    NEWLINE,
};

verus! {

#[verifier::external_type_specification]
#[verifier::external_body]
#[verifier::reject_recursive_types(T)]
pub struct ExVolatile<T: Copy>(Volatile<T>);

/// The word that a cell of the frame buffer holds.
pub uninterp spec fn cell_value(v: Volatile<u16>) -> u16;

/// Relies on `volatile::Volatile::read`: a volatile load of the word the cell holds.
#[verifier::external_body]
fn read_cell(v: &Volatile<u16>) -> (r: u16)
    ensures
        r == cell_value(*v),
{
    v.read()
}

/// Relies on `volatile::Volatile::write`: a volatile store through a reference,
/// which cannot fail, after which the cell holds the word.
#[verifier::external_body]
fn write_cell(v: &mut Volatile<u16>, w: u16)
    ensures
        cell_value(*final(v)) == w,
    no_unwind
{
    v.write(w)
}

/// The text-mode frame buffer: rows of two-byte cells, each read and written
/// with volatile accesses only, since the display reads the memory on its own.
pub type Buffer = [[Volatile<u16>; BUFFER_WIDTH]; BUFFER_HEIGHT];

/// The cell words of a frame buffer, row by row.
pub open spec fn rows_of(buffer: &Buffer) -> Seq<Seq<u16>> {
    Seq::new(BUFFER_HEIGHT as nat, |r: int| Seq::new(BUFFER_WIDTH as nat, |c: int| cell_value(buffer@[r]@[c])))
}

/// One displayed character and its attribute.
#[derive(Debug, Clone, Copy, PartialEq, Eq, Structural)]
pub struct ScreenChar {
    pub ascii_character: u8,
    pub color_mode: ColorMode,
}

impl ScreenChar {
    pub open spec fn spec_from_word(w: u16) -> ScreenChar {
        ScreenChar { ascii_character: (w % 256) as u8, color_mode: ColorMode((w / 256) as u8) }
    }

    /// The cell of `character` in `color_mode`.
    pub fn encode(character: u8, color_mode: ColorMode) -> (r: ScreenChar)
        ensures
            r.ascii_character == character,
            r.color_mode == color_mode,
    {
        ScreenChar { ascii_character: character, color_mode }
    }

    /// The two-byte word of the cell, as the hardware lays it out.
    pub fn word(self) -> (r: u16)
        ensures
            r == cell_word(self.ascii_character, self.color_mode.0),
    {
        self.color_mode.0 as u16 * 256 + self.ascii_character as u16
    }

    /// The cell that a hardware word stands for.
    pub fn from_word(w: u16) -> (r: ScreenChar)
        ensures
            r == ScreenChar::spec_from_word(w),
    {
        ScreenChar { ascii_character: (w % 256) as u8, color_mode: ColorMode((w / 256) as u8) }
    }
}

/// Decoding a cell's word gives back the character and the attribute.
pub proof fn lemma_cell_word_round_trip(character: u8, attribute: u8)
    ensures
        ScreenChar::spec_from_word(cell_word(character, attribute)) == (ScreenChar {
            ascii_character: character,
            color_mode: ColorMode(attribute),
        }),
{
    let w = attribute as int * 256 + character as int;
    assert(w % 256 == character as int && w / 256 == attribute as int) by (nonlinear_arith)
        requires
            w == attribute as int * 256 + character as int,
            character < 256,
            attribute < 256,
    ;
}

/// Writes text on the last row of the frame buffer, scrolling the rows above
/// up when a line ends or the row is full.
pub struct Writer {
    col_position: usize,
    color_mode: ColorMode,
    buffer: &'static mut Buffer,
}

impl View for Writer {
    type V = ScreenModel;

    closed spec fn view(&self) -> ScreenModel {
        ScreenModel { column: self.col_position as int, color: self.color_mode.0, rows: rows_of(self.buffer) }
    }
}

impl Writer {
    /// The write column never passes the end of the row.
    #[verifier::type_invariant]
    spec fn column_in_row(self) -> bool {
        self.col_position <= BUFFER_WIDTH
    }

    /// A writer on `buffer` that starts at column 0 and writes in `color_mode`.
    /// The buffer keeps what it holds until it is written.
    pub fn new(buffer: &'static mut Buffer, color_mode: ColorMode) -> (r: Writer)
        ensures
            r@ == (ScreenModel { column: 0, color: color_mode.0, rows: rows_of(old(buffer)) }),
            r@.wf(),
    {
        Writer { col_position: 0, color_mode, buffer }
    }

    pub fn column(&self) -> (r: usize)
        ensures
            r == self@.column,
            r <= BUFFER_WIDTH,
    {
        proof {
            use_type_invariant(self);
        }
        self.col_position
    }

    pub fn color_mode(&self) -> (r: ColorMode)
        ensures
            r.0 == self@.color,
    {
        self.color_mode
    }

    /// The cell at `row`, `col`, read from the frame buffer.
    pub fn read_char(&self, row: usize, col: usize) -> (r: ScreenChar)
        requires
            row < BUFFER_HEIGHT,
            col < BUFFER_WIDTH,
        ensures
            r == ScreenChar::spec_from_word(self@.rows[row as int][col as int]),
    {
        ScreenChar::from_word(self.get_cell(row, col))
    }

    /// The word in the cell at `row`, `col`.
    fn get_cell(&self, row: usize, col: usize) -> (w: u16)
        requires
            row < BUFFER_HEIGHT,
            col < BUFFER_WIDTH,
        ensures
            w == self@.rows[row as int][col as int],
    {
        read_cell(&self.buffer[row][col])
    }

    /// Stores the word `w` in the cell at `row`, `col`.
    fn set_cell(&mut self, row: usize, col: usize, w: u16)
        requires
            row < BUFFER_HEIGHT,
            col < BUFFER_WIDTH,
        ensures
            final(self)@.column == old(self)@.column,
            final(self)@.color == old(self)@.color,
            final(self)@.rows == old(self)@.rows.update(row as int, old(self)@.rows[row as int].update(col as int, w)),
    {
        proof {
            use_type_invariant(&*self);
        }
        let ghost start = self@;
        write_cell(&mut self.buffer[row][col], w);
        assert(self@.rows =~~= start.rows.update(row as int, start.rows[row as int].update(col as int, w)));
    }

    /// Fills `row` with blank cells in the writer's attribute.
    pub fn clear_row(&mut self, row: usize)
        requires
            row < BUFFER_HEIGHT,
        ensures
            final(self)@ == old(self)@.cleared(row as int),
            final(self)@.wf(),
    {
        proof {
            use_type_invariant(&*self);
        }
        let blank = ScreenChar::encode(BLANK, self.color_mode).word();
        let ghost start = self@;
        let mut col: usize = 0;
        while col < BUFFER_WIDTH
            invariant
                col <= BUFFER_WIDTH,
                row < BUFFER_HEIGHT,
                blank == cell_word(BLANK, start.color),
                self@.column == start.column,
                self@.color == start.color,
                forall|r: int, c: int| 0 <= r < BUFFER_HEIGHT && 0 <= c < BUFFER_WIDTH ==> #[trigger] self@.rows[r][c]
                    == if r == row && c < col { blank } else { start.rows[r][c] },
            decreases BUFFER_WIDTH - col,
        {
            self.set_cell(row, col, blank);
            col = col + 1;
        }
        assert(self@.rows =~~= start.cleared(row as int).rows);
    }

    /// Moves every row up by one, losing the top row, blanks the last row and
    /// returns to column 0.
    pub fn new_line(&mut self)
        ensures
            final(self)@ == old(self)@.scrolled(),
            final(self)@.wf(),
    {
        proof {
            use_type_invariant(&*self);
        }
        let ghost start = self@;
        let mut row: usize = 1;
        while row < BUFFER_HEIGHT
            invariant
                1 <= row <= BUFFER_HEIGHT,
                self@.column == start.column,
                self@.color == start.color,
                forall|r: int, c: int| 0 <= r < BUFFER_HEIGHT && 0 <= c < BUFFER_WIDTH ==> #[trigger] self@.rows[r][c]
                    == if r < row - 1 { start.rows[r + 1][c] } else { start.rows[r][c] },
            decreases BUFFER_HEIGHT - row,
        {
            let mut col: usize = 0;
            while col < BUFFER_WIDTH
                invariant
                    1 <= row < BUFFER_HEIGHT,
                    col <= BUFFER_WIDTH,
                    self@.column == start.column,
                    self@.color == start.color,
                    forall|r: int, c: int| 0 <= r < BUFFER_HEIGHT && 0 <= c < BUFFER_WIDTH ==> #[trigger] self@.rows[r][c]
                        == if r < row - 1 || (r == row - 1 && c < col) {
                            start.rows[r + 1][c]
                        } else {
                            start.rows[r][c]
                        },
                decreases BUFFER_WIDTH - col,
            {
                let w = self.get_cell(row, col);
                self.set_cell(row - 1, col, w);
                col = col + 1;
            }
            row = row + 1;
        }
        self.clear_row(BUFFER_HEIGHT - 1);
        self.col_position = 0;
        assert(self@.rows =~~= start.scrolled().rows);
    }

    /// Writes one byte: a newline scrolls; any other byte is stored as it is
    /// at the write column of the last row, after a scroll if that row is full.
    pub fn write_byte(&mut self, byte: u8)
        ensures
            final(self)@ == old(self)@.step(byte),
            final(self)@.wf(),
    {
        proof {
            use_type_invariant(&*self);
        }
        proof {
            crate::screen::lemma_step_wf(self@, byte);
        }
        if byte == NEWLINE {
            self.new_line();
        } else {
            if self.col_position >= BUFFER_WIDTH {
                self.new_line();
            }
            let ghost before = self@;
            let row = BUFFER_HEIGHT - 1;
            let col = self.col_position;
            let w = ScreenChar::encode(byte, self.color_mode).word();
            self.set_cell(row, col, w);
            self.col_position = col + 1;
            assert(self@.rows =~~= before.placed(byte).rows);
        }
    }

    /// Writes the bytes of `s`; printable ASCII bytes and newlines as they are,
    /// every other byte as `?`.
    pub fn write_string(&mut self, s: &str)
        ensures
            final(self)@ == written(old(self)@, s.spec_bytes()),
            final(self)@.wf(),
    {
        proof {
            use_type_invariant(&*self);
        }
        let bytes = s.as_bytes();
        let ghost start = self@;
        let mut i: usize = 0;
        while i < bytes.len()
            invariant
                i <= bytes@.len(),
                bytes@ == s.spec_bytes(),
                self@.wf(),
                self@ == written(start, bytes@.take(i as int)),
            decreases bytes@.len() - i,
        {
            let byte = bytes[i];
            let b = if (0x20 <= byte && byte <= 0x7e) || byte == NEWLINE {
                byte
            } else {
                FALLBACK
            };
            assert(bytes@.take(i + 1).drop_last() =~= bytes@.take(i as int));
            self.write_byte(b);
            i = i + 1;
        }
        assert(bytes@.take(i as int) =~= bytes@);
    }
}

/// Writes one piece of an already rendered message; the caller holds the
/// writer exclusively for the whole message.
pub fn _print(writer: &mut Writer, text: &str)
    ensures
        final(writer)@ == written(old(writer)@, text.spec_bytes()),
        final(writer)@.wf(),
{
    writer.write_string(text);
}

} // verus!
