//! A text with a display mode, a foreground and a background colour, written
//! as `ESC[mode;front;backm` + text + `ESC[0m`.

use vstd::prelude::*;

verus! {

/// The eight terminal colours.
#[derive(Debug, Clone, Copy, PartialEq, Eq, Structural)]
pub enum Color {
    Black,
    Red,
    Green,
    Yellow,
    Blue,
    Magenta,
    Cyan,
    White,
}

/// A colour used for the text.
pub type FrontColor = Color;

/// A colour used behind the text.
pub type BackColor = Color;

/// The display modes of a terminal.
#[derive(Debug, Clone, Copy, PartialEq, Eq, Structural)]
pub enum DisplayMode {
    Default,
    Highlight,
    NonBold,
    Underline,
    NonUnderline,
    Blink,
    NonBlink,
    Reverse,
    NonReverse,
}

/// The place of a colour in the list of eight.
pub open spec fn color_index(c: Color) -> u8 {
    match c {
        Color::Black => 0,
        Color::Red => 1,
        Color::Green => 2,
        Color::Yellow => 3,
        Color::Blue => 4,
        Color::Magenta => 5,
        Color::Cyan => 6,
        Color::White => 7,
    }
}

/// The code of each display mode.
pub open spec fn mode_code(m: DisplayMode) -> u8 {
    match m {
        DisplayMode::Default => 0,
        DisplayMode::Highlight => 1,
        DisplayMode::NonBold => 22,
        DisplayMode::Underline => 4,
        DisplayMode::NonUnderline => 24,
        DisplayMode::Blink => 5,
        DisplayMode::NonBlink => 25,
        DisplayMode::Reverse => 7,
        DisplayMode::NonReverse => 27,
    }
}

impl Color {
    /// The foreground code: 30 and up.
    pub fn front(&self) -> (r: u8)
        ensures
            r == 30 + color_index(*self),
    {
        match self {
            Color::Black => 30,
            Color::Red => 31,
            Color::Green => 32,
            Color::Yellow => 33,
            Color::Blue => 34,
            Color::Magenta => 35,
            Color::Cyan => 36,
            Color::White => 37,
        }
    }

    /// The background code: 40 and up.
    pub fn back(&self) -> (r: u8)
        ensures
            r == 40 + color_index(*self),
    {
        match self {
            Color::Black => 40,
            Color::Red => 41,
            Color::Green => 42,
            Color::Yellow => 43,
            Color::Blue => 44,
            Color::Magenta => 45,
            Color::Cyan => 46,
            Color::White => 47,
        }
    }
}

impl DisplayMode {
    /// The code of the mode.
    pub fn mode(&self) -> (r: u8)
        ensures
            r == mode_code(*self),
    {
        match self {
            DisplayMode::Default => 0,
            DisplayMode::Highlight => 1,
            DisplayMode::NonBold => 22,
            DisplayMode::Underline => 4,
            DisplayMode::NonUnderline => 24,
            DisplayMode::Blink => 5,
            DisplayMode::NonBlink => 25,
            DisplayMode::Reverse => 7,
            DisplayMode::NonReverse => 27,
        }
    }
}

/// A foreground colour, a background colour and a display mode.
#[derive(Debug, Clone, Copy, PartialEq, Eq, Structural)]
pub struct ColorMode {
    pub front_color: FrontColor,
    pub back_color: BackColor,
    pub mode: DisplayMode,
}

/// White on black, highlighted.
pub open spec fn default_mode() -> ColorMode {
    ColorMode { front_color: Color::White, back_color: Color::Black, mode: DisplayMode::Highlight }
}

impl Default for ColorMode {
    /// White on black, highlighted.
    fn default() -> (r: ColorMode)
        ensures
            r == default_mode(),
    {
        ColorMode { front_color: Color::White, back_color: Color::Black, mode: DisplayMode::Highlight }
    }
}

impl From<Color> for ColorMode {
    /// The default mode with `color` as the foreground.
    fn from(color: Color) -> (r: ColorMode) {
        ColorMode { front_color: color, back_color: Color::Black, mode: DisplayMode::Highlight }
    }
}

impl vstd::std_specs::convert::FromSpecImpl<Color> for ColorMode {
    open spec fn obeys_from_spec() -> bool {
        true
    }

    open spec fn from_spec(color: Color) -> ColorMode {
        ColorMode { front_color: color, ..default_mode() }
    }
}

impl From<DisplayMode> for ColorMode {
    /// The default colours with display mode `mode`.
    fn from(mode: DisplayMode) -> (r: ColorMode) {
        ColorMode { front_color: Color::White, back_color: Color::Black, mode }
    }
}

impl vstd::std_specs::convert::FromSpecImpl<DisplayMode> for ColorMode {
    open spec fn obeys_from_spec() -> bool {
        true
    }

    open spec fn from_spec(mode: DisplayMode) -> ColorMode {
        ColorMode { mode, ..default_mode() }
    }
}

/// The decimal digits of `n`.
pub open spec fn decimal(n: nat) -> Seq<char>
    decreases n,
{
    if n < 10 {
        seq![digit_char(n)]
    } else {
        decimal(n / 10).push(digit_char(n % 10))
    }
}

/// The character of a digit.
pub open spec fn digit_char(d: nat) -> char {
    if d == 0 {
        '0'
    } else if d == 1 {
        '1'
    } else if d == 2 {
        '2'
    } else if d == 3 {
        '3'
    } else if d == 4 {
        '4'
    } else if d == 5 {
        '5'
    } else if d == 6 {
        '6'
    } else if d == 7 {
        '7'
    } else if d == 8 {
        '8'
    } else {
        '9'
    }
}

/// The text of a digit.
fn digit_exec(d: u8) -> (r: &'static str)
    requires
        d < 10,
    ensures
        r@ == seq![digit_char(d as nat)],
{
    if d == 0 {
        proof {
            reveal_strlit("0");
        }
        "0"
    } else if d == 1 {
        proof {
            reveal_strlit("1");
        }
        "1"
    } else if d == 2 {
        proof {
            reveal_strlit("2");
        }
        "2"
    } else if d == 3 {
        proof {
            reveal_strlit("3");
        }
        "3"
    } else if d == 4 {
        proof {
            reveal_strlit("4");
        }
        "4"
    } else if d == 5 {
        proof {
            reveal_strlit("5");
        }
        "5"
    } else if d == 6 {
        proof {
            reveal_strlit("6");
        }
        "6"
    } else if d == 7 {
        proof {
            reveal_strlit("7");
        }
        "7"
    } else if d == 8 {
        proof {
            reveal_strlit("8");
        }
        "8"
    } else {
        proof {
            reveal_strlit("9");
        }
        "9"
    }
}

/// Appends the decimal digits of `n`.
fn push_decimal(s: &mut String, n: u8)
    ensures
        final(s)@ == old(s)@ + decimal(n as nat),
{
    if n >= 100 {
        s.append(digit_exec(n / 100));
    }
    if n >= 10 {
        s.append(digit_exec((n / 10) % 10));
    }
    s.append(digit_exec(n % 10));
    proof {
        if n >= 100 {
            assert(decimal((n / 10) as nat) == decimal((n / 100) as nat).push(digit_char(((n / 10) % 10) as nat)));
            assert(decimal((n / 100) as nat) == seq![digit_char((n / 100) as nat)]);
        } else if n >= 10 {
            assert(decimal((n / 10) as nat) == seq![digit_char((n / 10) as nat)]);
        }
    }
}

/// A text and how to show it.
#[derive(Debug)]
pub struct ColorString {
    pub content: String,
    pub color_mode: ColorMode,
}

/// The escape sequence of a text in mode `m`.
pub open spec fn colored(content: Seq<char>, m: ColorMode) -> Seq<char> {
    "\u{1b}["@ + decimal(mode_code(m.mode) as nat) + ";"@ + decimal((30 + color_index(m.front_color)) as nat) + ";"@
        + decimal((40 + color_index(m.back_color)) as nat) + "m"@ + content + "\u{1b}[0m"@
}

impl ColorString {
    /// The text between the escape sequences that set and reset its mode.
    pub fn to_string(&self) -> (r: String)
        ensures
            r@ == colored(self.content@, self.color_mode),
    {
        let mut s = String::from_str("\u{1b}[");
        push_decimal(&mut s, self.color_mode.mode.mode());
        s.append(";");
        push_decimal(&mut s, self.color_mode.front_color.front());
        s.append(";");
        push_decimal(&mut s, self.color_mode.back_color.back());
        s.append("m");
        s.append(self.content.as_str());
        s.append("\u{1b}[0m");
        s
    }
}

} // verus!
