use vstd::prelude::*;

verus! {

/// Number of text rows on the display.
pub const BUFFER_HEIGHT: usize = 25;

/// Number of character columns in a row.
pub const BUFFER_WIDTH: usize = 80;

/// The byte that starts a new line.
pub const NEWLINE: u8 = 0x0a;

/// The byte written in place of one the display cannot show (`?`).
pub const FALLBACK: u8 = 0x3f;

/// The byte of an empty cell (a space).
pub const BLANK: u8 = 0x20;

/// The two-byte hardware word of a cell: the character in the low byte, the
/// attribute in the high byte.
pub open spec fn cell_word(character: u8, attribute: u8) -> u16 {
    (attribute as int * 256 + character as int) as u16
}

/// A row of blank cells in the given attribute.
pub open spec fn blank_row(attribute: u8) -> Seq<u16> {
    Seq::new(BUFFER_WIDTH as nat, |c: int| cell_word(BLANK, attribute))
}

/// Whether the display shows the byte as it is.
pub open spec fn is_printable(b: u8) -> bool {
    0x20 <= b && b <= 0x7e
}

/// The byte that a string's byte is written as: printable bytes and the
/// newline stand, every other byte becomes the fallback glyph.
pub open spec fn shown(b: u8) -> u8 {
    if is_printable(b) || b == NEWLINE {
        b
    } else {
        FALLBACK
    }
}

/// What a writer on the display is, as a value: the write column, the
/// attribute of new cells, and the rows of cell words, top row first.
pub struct ScreenModel {
    pub column: int,
    pub color: u8,
    pub rows: Seq<Seq<u16>>,
}

impl ScreenModel {
    pub open spec fn wf(self) -> bool {
        &&& 0 <= self.column <= BUFFER_WIDTH
        &&& self.rows.len() == BUFFER_HEIGHT
        &&& forall|r: int| 0 <= r < BUFFER_HEIGHT ==> (#[trigger] self.rows[r]).len() == BUFFER_WIDTH
    }

    /// Every row moves up by one, the top row is lost, the last row becomes
    /// blank, and writing starts again at column 0.
    pub open spec fn scrolled(self) -> ScreenModel {
        ScreenModel {
            column: 0,
            color: self.color,
            rows: self.rows.subrange(1, BUFFER_HEIGHT as int).push(blank_row(self.color)),
        }
    }

    /// The row `r` filled with blank cells.
    pub open spec fn cleared(self, r: int) -> ScreenModel {
        ScreenModel { column: self.column, color: self.color, rows: self.rows.update(r, blank_row(self.color)) }
    }

    /// The character stored at the write column of the last row, which then
    /// moves one to the right.
    pub open spec fn placed(self, b: u8) -> ScreenModel {
        let last = BUFFER_HEIGHT - 1;
        ScreenModel {
            column: self.column + 1,
            color: self.color,
            rows: self.rows.update(last, self.rows[last].update(self.column, cell_word(b, self.color))),
        }
    }

    /// One byte written: a newline scrolls; any other byte scrolls first when
    /// the last row is full, and is then placed.
    pub open spec fn step(self, b: u8) -> ScreenModel {
        if b == NEWLINE {
            self.scrolled()
        } else if self.column >= BUFFER_WIDTH {
            self.scrolled().placed(b)
        } else {
            self.placed(b)
        }
    }
}

/// The model after writing the bytes of a string, each as `shown` gives it.
pub open spec fn written(m: ScreenModel, s: Seq<u8>) -> ScreenModel
    decreases s.len(),
{
    if s.len() == 0 {
        m
    } else {
        written(m, s.drop_last()).step(shown(s.last()))
    }
}

/// Writing a byte keeps the column within `0..=BUFFER_WIDTH` and the grid's shape.
pub proof fn lemma_step_wf(m: ScreenModel, b: u8)
    requires
        m.wf(),
    ensures
        m.step(b).wf(),
        m.step(b).color == m.color,
{
    let s = m.scrolled();
    assert forall|r: int| 0 <= r < BUFFER_HEIGHT implies (#[trigger] s.rows[r]).len() == BUFFER_WIDTH by {
        if r < BUFFER_HEIGHT - 1 {
            assert(s.rows[r] == m.rows[r + 1]);
        }
    }
    let p = m.step(b);
    assert forall|r: int| 0 <= r < BUFFER_HEIGHT implies (#[trigger] p.rows[r]).len() == BUFFER_WIDTH by {
    }
}

/// After any sequence of writes the column stays within `0..=BUFFER_WIDTH`.
pub proof fn lemma_written_wf(m: ScreenModel, s: Seq<u8>)
    requires
        m.wf(),
    ensures
        written(m, s).wf(),
        written(m, s).color == m.color,
    decreases s.len(),
{
    if s.len() > 0 {
        lemma_written_wf(m, s.drop_last());
        lemma_step_wf(written(m, s.drop_last()), shown(s.last()));
    }
}

proof fn lemma_fill_last_row(m: ScreenModel, s: Seq<u8>, k: int)
    requires
        m.wf(),
        m.column == 0,
        0 <= k <= s.len(),
        k <= BUFFER_WIDTH,
        forall|i: int| 0 <= i < s.len() ==> is_printable(#[trigger] s[i]),
    ensures
        written(m, s.take(k)).wf(),
        written(m, s.take(k)).column == k,
        written(m, s.take(k)).color == m.color,
        forall|c: int| 0 <= c < k ==> #[trigger] written(m, s.take(k)).rows[BUFFER_HEIGHT - 1][c]
            == cell_word(s[c], m.color),
    decreases k,
{
    lemma_written_wf(m, s.take(k));
    if k > 0 {
        lemma_fill_last_row(m, s, k - 1);
        assert(s.take(k).drop_last() =~= s.take(k - 1));
        assert(s.take(k).last() == s[k - 1]);
    }
}

/// Writing a full row of printable characters and one more: the extra
/// character opens a new last row at column 0, and the row above holds the
/// first `BUFFER_WIDTH` characters.
pub proof fn lemma_wrap_before_overflow(m: ScreenModel, s: Seq<u8>)
    requires
        m.wf(),
        m.column == 0,
        s.len() == BUFFER_WIDTH + 1,
        forall|i: int| 0 <= i < s.len() ==> is_printable(#[trigger] s[i]),
    ensures
        written(m, s).column == 1,
        written(m, s).rows[BUFFER_HEIGHT - 1][0] == cell_word(s[BUFFER_WIDTH as int], m.color),
        forall|c: int| 0 <= c < BUFFER_WIDTH ==> #[trigger] written(m, s).rows[BUFFER_HEIGHT - 2][c]
            == cell_word(s[c], m.color),
{
    lemma_fill_last_row(m, s, BUFFER_WIDTH as int);
    assert(s.drop_last() =~= s.take(BUFFER_WIDTH as int));
    let full = written(m, s.take(BUFFER_WIDTH as int));
    assert(written(m, s) == full.scrolled().placed(s[BUFFER_WIDTH as int]));
    assert forall|c: int| 0 <= c < BUFFER_WIDTH implies #[trigger] written(m, s).rows[BUFFER_HEIGHT - 2][c]
        == cell_word(s[c], m.color) by {
        assert(written(m, s).rows[BUFFER_HEIGHT - 2] == full.rows[BUFFER_HEIGHT - 1]);
    }
}

/// A byte that is neither printable nor a newline is stored as the fallback
/// glyph, never as itself.
pub proof fn lemma_fallback_substitution(m: ScreenModel, b: u8)
    requires
        m.wf(),
        m.column < BUFFER_WIDTH,
        !is_printable(b),
        b != NEWLINE,
    ensures
        written(m, seq![b]).column == m.column + 1,
        written(m, seq![b]).rows[BUFFER_HEIGHT - 1][m.column] == cell_word(FALLBACK, m.color),
{
    assert(seq![b].drop_last() =~= Seq::<u8>::empty());
    assert(written(m, Seq::<u8>::empty()) == m);
}

/// `n` newlines.
pub open spec fn newlines(n: nat) -> Seq<u8> {
    Seq::new(n, |i: int| NEWLINE)
}

proof fn lemma_newlines_shift(m: ScreenModel, k: nat)
    requires
        m.wf(),
        k <= BUFFER_HEIGHT,
    ensures
        written(m, newlines(k)).wf(),
        written(m, newlines(k)).column == if k == 0 { m.column } else { 0 },
        forall|r: int| 0 <= r < BUFFER_HEIGHT - k ==> #[trigger] written(m, newlines(k)).rows[r] == m.rows[r + k],
        forall|r: int| BUFFER_HEIGHT - k <= r < BUFFER_HEIGHT ==> #[trigger] written(m, newlines(k)).rows[r]
            == blank_row(m.color),
    decreases k,
{
    lemma_written_wf(m, newlines(k));
    if k > 0 {
        lemma_newlines_shift(m, (k - 1) as nat);
        assert(newlines(k).drop_last() =~= newlines((k - 1) as nat));
        let prev = written(m, newlines((k - 1) as nat));
        assert(written(m, newlines(k)) == prev.scrolled());
        assert forall|r: int| 0 <= r < BUFFER_HEIGHT - k implies #[trigger] written(m, newlines(k)).rows[r]
            == m.rows[r + k] by {
            assert(prev.scrolled().rows[r] == prev.rows[r + 1]);
        }
        assert forall|r: int| BUFFER_HEIGHT - k <= r < BUFFER_HEIGHT implies #[trigger] written(m, newlines(k)).rows[r]
            == blank_row(m.color) by {
            if r < BUFFER_HEIGHT - 1 {
                assert(prev.scrolled().rows[r] == prev.rows[r + 1]);
            }
        }
    }
}

/// `BUFFER_HEIGHT` newlines scroll every earlier row off the display: every
/// row is then blank, whatever the display held before.
pub proof fn lemma_scroll_discards_oldest(m: ScreenModel)
    requires
        m.wf(),
    ensures
        written(m, newlines(BUFFER_HEIGHT as nat)).column == 0,
        forall|r: int| 0 <= r < BUFFER_HEIGHT ==> #[trigger] written(m, newlines(BUFFER_HEIGHT as nat)).rows[r]
            == blank_row(m.color),
{
    lemma_newlines_shift(m, BUFFER_HEIGHT as nat);
}

} // verus!
