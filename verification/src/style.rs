//! Colors and text styles, and their escape sequences on a terminal.

use crate::text;
use vstd::prelude::*;

verus! {

/// A color of the terminal.
#[derive(Copy, Clone, PartialEq, Eq, Structural, Debug)]
pub enum Color {
    Black,
    Red,
    Green,
    Yellow,
    Blue,
    Purple,
    Cyan,
    White,
    /// One of the 256 colors of the palette.
    Fixed(u8),
    /// A color by its red, green and blue parts.
    RGB(u8, u8, u8),
}

impl Color {
    /// The color in its numbering as a text color, where the eight basic colors
    /// start at `base`, and all others are written in the extended notation.
    pub open spec fn code(self, base: nat) -> Seq<char> {
        match self {
            Color::Black => text::decimal(base),
            Color::Red => text::decimal(base + 1),
            Color::Green => text::decimal(base + 2),
            Color::Yellow => text::decimal(base + 3),
            Color::Blue => text::decimal(base + 4),
            Color::Purple => text::decimal(base + 5),
            Color::Cyan => text::decimal(base + 6),
            Color::White => text::decimal(base + 7),
            Color::Fixed(n) => text::decimal(base + 8) + ";5;"@ + text::decimal(n as nat),
            Color::RGB(r, g, b) => text::decimal(base + 8) + ";2;"@ + text::decimal(r as nat)
                + ";"@ + text::decimal(g as nat) + ";"@ + text::decimal(b as nat),
        }
    }

    /// The style that only sets this text color.
    pub fn normal(self) -> (style: Style)
        ensures
            style == (Style { foreground: Some(self), background: None, is_bold: false }),
    {
        Style { foreground: Some(self), background: None, is_bold: false }
    }

    /// The style that sets this text color in bold.
    pub fn bold(self) -> (style: Style)
        ensures
            style == (Style { foreground: Some(self), background: None, is_bold: true }),
    {
        Style { foreground: Some(self), background: None, is_bold: true }
    }
}

/// How a text is shown on a terminal.
#[derive(Copy, Clone, PartialEq, Eq, Structural, Debug)]
pub struct Style {
    /// The color of the text, if it is set.
    pub foreground: Option<Color>,
    /// The color behind the text, if it is set.
    pub background: Option<Color>,
    /// Whether the text is bold.
    pub is_bold: bool,
}

/// Two lists of codes as one, separated by a semicolon.
pub open spec fn joined(a: Seq<char>, b: Seq<char>) -> Seq<char> {
    if a.len() == 0 {
        b
    } else if b.len() == 0 {
        a
    } else {
        a + ";"@ + b
    }
}

impl Style {
    /// Whether the style sets nothing.
    pub open spec fn is_plain(self) -> bool {
        self.foreground is None && self.background is None && !self.is_bold
    }

    /// The codes that switch the style on: bold, then the background, then the
    /// text color.
    pub open spec fn codes(self) -> Seq<char> {
        let bold = if self.is_bold {
            "1"@
        } else {
            Seq::empty()
        };
        let background = match self.background {
            Some(color) => color.code(40),
            None => Seq::empty(),
        };
        let foreground = match self.foreground {
            Some(color) => color.code(30),
            None => Seq::empty(),
        };
        joined(joined(bold, background), foreground)
    }

    /// `content` between the sequence that switches the style on and the one
    /// that resets all styles. The plain style adds nothing.
    pub open spec fn painted(self, content: Seq<char>) -> Seq<char> {
        if self.is_plain() {
            content
        } else {
            "\x1B["@ + self.codes() + "m"@ + content + "\x1B[0m"@
        }
    }

    /// Calls `ansi_term::Style::paint` and turns the painted string into text.
    ///
    /// Trusted: the text is the content between the escape sequence for the
    /// style and the resetting one, and the content alone for a plain style.
    #[verifier::external_body]
    pub(crate) fn paint(self, content: &str) -> (shown: String)
        ensures
            shown@ == self.painted(content@),
    {
        let convert = |color: Color| match color {
            Color::Black => ansi_term::Colour::Black, Color::Red => ansi_term::Colour::Red,
            Color::Green => ansi_term::Colour::Green, Color::Yellow => ansi_term::Colour::Yellow,
            Color::Blue => ansi_term::Colour::Blue, Color::Purple => ansi_term::Colour::Purple,
            Color::Cyan => ansi_term::Colour::Cyan, Color::White => ansi_term::Colour::White,
            Color::Fixed(n) => ansi_term::Colour::Fixed(n),
            Color::RGB(r, g, b) => ansi_term::Colour::RGB(r, g, b),
        };
        let mut style = ansi_term::Style::new();
        style.is_bold = self.is_bold;
        style.foreground = self.foreground.map(convert);
        style.background = self.background.map(convert);
        style.paint(content).to_string()
    }
}

} // verus!
