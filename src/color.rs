use vstd::prelude::*;

verus! {

/// The sixteen colors of the text-mode palette, in the order of their
/// hardware codes (`BLACK` is 0, `WHITE` is 15).
#[derive(Debug, Clone, Copy, PartialEq, Eq, Structural)]
pub enum Color {
    BLACK,
    BLUE,
    GREEN,
    CYAN,
    RED,
    MAGENTA,
    BROWN,
    LIGHTGRAY,
    DARKGRAY,
    LIGHTBLUE,
    LIGHTGREEN,
    LIGHTCYAN,
    LIGHTRED,
    PINK,
    YELLOW,
    WHITE,
}

impl Color {
    /// The four-bit hardware code of the color.
    pub open spec fn spec_code(self) -> u8 {
        match self {
            Color::BLACK => 0,
            Color::BLUE => 1,
            Color::GREEN => 2,
            Color::CYAN => 3,
            Color::RED => 4,
            Color::MAGENTA => 5,
            Color::BROWN => 6,
            Color::LIGHTGRAY => 7,
            Color::DARKGRAY => 8,
            Color::LIGHTBLUE => 9,
            Color::LIGHTGREEN => 10,
            Color::LIGHTCYAN => 11,
            Color::LIGHTRED => 12,
            Color::PINK => 13,
            Color::YELLOW => 14,
            Color::WHITE => 15,
        }
    }

    /// The color whose code is `n`.
    pub open spec fn spec_from_code(n: u8) -> Color
        recommends
            n < 16,
    {
        if n == 0 {
            Color::BLACK
        } else if n == 1 {
            Color::BLUE
        } else if n == 2 {
            Color::GREEN
        } else if n == 3 {
            Color::CYAN
        } else if n == 4 {
            Color::RED
        } else if n == 5 {
            Color::MAGENTA
        } else if n == 6 {
            Color::BROWN
        } else if n == 7 {
            Color::LIGHTGRAY
        } else if n == 8 {
            Color::DARKGRAY
        } else if n == 9 {
            Color::LIGHTBLUE
        } else if n == 10 {
            Color::LIGHTGREEN
        } else if n == 11 {
            Color::LIGHTCYAN
        } else if n == 12 {
            Color::LIGHTRED
        } else if n == 13 {
            Color::PINK
        } else if n == 14 {
            Color::YELLOW
        } else {
            Color::WHITE
        }
    }

    pub fn code(self) -> (r: u8)
        ensures
            r == self.spec_code(),
            r < 16,
    {
        match self {
            Color::BLACK => 0,
            Color::BLUE => 1,
            Color::GREEN => 2,
            Color::CYAN => 3,
            Color::RED => 4,
            Color::MAGENTA => 5,
            Color::BROWN => 6,
            Color::LIGHTGRAY => 7,
            Color::DARKGRAY => 8,
            Color::LIGHTBLUE => 9,
            Color::LIGHTGREEN => 10,
            Color::LIGHTCYAN => 11,
            Color::LIGHTRED => 12,
            Color::PINK => 13,
            Color::YELLOW => 14,
            Color::WHITE => 15,
        }
    }

    pub fn from_code(n: u8) -> (r: Color)
        requires
            n < 16,
        ensures
            r == Color::spec_from_code(n),
            r.spec_code() == n,
    {
        if n == 0 {
            Color::BLACK
        } else if n == 1 {
            Color::BLUE
        } else if n == 2 {
            Color::GREEN
        } else if n == 3 {
            Color::CYAN
        } else if n == 4 {
            Color::RED
        } else if n == 5 {
            Color::MAGENTA
        } else if n == 6 {
            Color::BROWN
        } else if n == 7 {
            Color::LIGHTGRAY
        } else if n == 8 {
            Color::DARKGRAY
        } else if n == 9 {
            Color::LIGHTBLUE
        } else if n == 10 {
            Color::LIGHTGREEN
        } else if n == 11 {
            Color::LIGHTCYAN
        } else if n == 12 {
            Color::LIGHTRED
        } else if n == 13 {
            Color::PINK
        } else if n == 14 {
            Color::YELLOW
        } else {
            Color::WHITE
        }
    }
}

/// Every color's code is below 16, and reading the code back gives the color.
pub proof fn lemma_code_round_trip(c: Color)
    ensures
        c.spec_code() < 16,
        Color::spec_from_code(c.spec_code()) == c,
{
}

/// The attribute byte of a cell: the foreground color in the low four bits,
/// the background color in the high four bits.
#[derive(Debug, Clone, Copy, PartialEq, Eq, Structural)]
pub struct ColorMode(pub u8);

impl ColorMode {
    pub open spec fn spec_new(foreground: Color, background: Color) -> ColorMode {
        ColorMode((background.spec_code() * 16 + foreground.spec_code()) as u8)
    }

    /// The attribute `background * 16 + foreground`.
    pub fn new(foreground: Color, background: Color) -> (r: ColorMode)
        ensures
            r == ColorMode::spec_new(foreground, background),
            r.0 as int == background.spec_code() as int * 16 + foreground.spec_code() as int,
    {
        ColorMode(background.code() * 16 + foreground.code())
    }

    /// The color named by the low four bits.
    pub fn foreground(&self) -> (r: Color)
        ensures
            r == Color::spec_from_code(self.0 % 16),
    {
        Color::from_code(self.0 % 16)
    }

    /// The color named by the high four bits.
    pub fn background(&self) -> (r: Color)
        ensures
            r == Color::spec_from_code(self.0 / 16),
    {
        Color::from_code(self.0 / 16)
    }
}

/// Decoding an attribute built from a foreground and a background color gives
/// back both colors.
pub proof fn lemma_color_mode_round_trip(foreground: Color, background: Color)
    ensures
        Color::spec_from_code(ColorMode::spec_new(foreground, background).0 % 16) == foreground,
        Color::spec_from_code(ColorMode::spec_new(foreground, background).0 / 16) == background,
{
    lemma_code_round_trip(foreground);
    lemma_code_round_trip(background);
    let f = foreground.spec_code();
    let b = background.spec_code();
    let v = ColorMode::spec_new(foreground, background).0;
    assert(v == b * 16 + f);
    assert(v % 16 == f && v / 16 == b) by (nonlinear_arith)
        requires
            v == b * 16 + f,
            f < 16,
            b < 16,
    ;
}

} // verus!
