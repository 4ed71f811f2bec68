use vstd::prelude::*;
use vstd::string::*;

use crate::error::UiError;

verus! {

/// Semantic colors used by the styled writer.
#[derive(Clone, Copy, Debug, PartialEq, Eq, Structural)]
pub enum UIColor {
    Plain,
    Info,
    Important,
    Warn,
    Critical,
    End,
}

/// Terminal colors that semantic colors map onto.
#[derive(Clone, Copy, Debug, PartialEq, Eq, Structural)]
pub enum Color {
    White,
    Green,
    Cyan,
    Red,
    Magenta,
    Yellow,
}

pub open spec fn color_of(c: UIColor) -> Color {
    match c {
        UIColor::Plain => Color::White,
        UIColor::Info => Color::Green,
        UIColor::Important => Color::Cyan,
        UIColor::Critical => Color::Red,
        UIColor::End => Color::Magenta,
        UIColor::Warn => Color::Yellow,
    }
}

impl UIColor {
    pub fn to_color(&self) -> (r: Color)
        ensures
            r == color_of(*self),
    {
        match *self {
            UIColor::Plain => Color::White,
            UIColor::Info => Color::Green,
            UIColor::Important => Color::Cyan,
            UIColor::Critical => Color::Red,
            UIColor::End => Color::Magenta,
            UIColor::Warn => Color::Yellow,
        }
    }
}

/// How glyphs are drawn: full unicode, a reduced unicode set, or plain ASCII.
#[derive(Clone, Copy, Debug, PartialEq, Eq, Structural)]
pub enum UISymbolStyle {
    Full,
    Limited,
    Ascii,
}

impl Default for UISymbolStyle {
    fn default() -> (r: UISymbolStyle)
        ensures
            r == UISymbolStyle::Full,
    {
        UISymbolStyle::Full
    }
}

/// `a` and `b` are the same letter when ASCII case is ignored.
pub open spec fn same_letter(a: char, b: char) -> bool {
    a == b || ('A' <= a && a <= 'Z' && (a as u32) + 32 == (b as u32))
}

/// `s` equals the lower-case word `w` when case is ignored.
pub open spec fn same_ignoring_case(s: Seq<char>, w: Seq<char>) -> bool {
    s.len() == w.len() && forall|i: int| 0 <= i < s.len() ==> same_letter(#[trigger] s[i], w[i])
}

/// The style a name selects, if it names one.
pub open spec fn style_named(s: Seq<char>) -> Option<UISymbolStyle> {
    if same_ignoring_case(s, "full"@) {
        Some(UISymbolStyle::Full)
    } else if same_ignoring_case(s, "limited"@) {
        Some(UISymbolStyle::Limited)
    } else if same_ignoring_case(s, "ascii"@) {
        Some(UISymbolStyle::Ascii)
    } else {
        None
    }
}

/// The style in force: a valid override wins, then the platform default.
pub open spec fn style_selected(over: Option<Seq<char>>, limited_platform: bool) -> UISymbolStyle {
    match over {
        Some(s) => match style_named(s) {
            Some(st) => st,
            None => UISymbolStyle::Full,
        },
        None => if limited_platform {
            UISymbolStyle::Limited
        } else {
            UISymbolStyle::Full
        },
    }
}

fn same_letter_exec(a: char, b: char) -> (r: bool)
    ensures
        r == same_letter(a, b),
{
    let x = a as u32;
    let y = b as u32;
    x == y || ('A' <= a && a <= 'Z' && x + 32 == y)
}

fn matches_word(s: &str, w: &str) -> (r: bool)
    ensures
        r == same_ignoring_case(s@, w@),
{
    let n = s.unicode_len();
    if n != w.unicode_len() {
        return false;
    }
    let mut i: usize = 0;
    while i < n
        invariant
            n == s@.len(),
            n == w@.len(),
            i <= n,
            forall|j: int| 0 <= j < i ==> same_letter(#[trigger] s@[j], w@[j]),
        decreases n - i,
    {
        if !same_letter_exec(s.get_char(i), w.get_char(i)) {
            return false;
        }
        i = i + 1;
    }
    true
}

impl UISymbolStyle {
    /// Parses a style name, ignoring case.
    pub fn from_str(value: &str) -> (r: Result<UISymbolStyle, UiError>)
        ensures
            style_named(value@) matches Some(st) ==> r == Ok::<UISymbolStyle, UiError>(st),
            style_named(value@) is None ==> (r matches Err(UiError::BadSymbolStyle(v)) && v@ == value@),
    {
        proof {
            reveal_strlit("full");
            reveal_strlit("limited");
            reveal_strlit("ascii");
        }
        if matches_word(value, "full") {
            Ok(UISymbolStyle::Full)
        } else if matches_word(value, "limited") {
            Ok(UISymbolStyle::Limited)
        } else if matches_word(value, "ascii") {
            Ok(UISymbolStyle::Ascii)
        } else {
            Err(UiError::BadSymbolStyle(String::from_str(value)))
        }
    }

    /// Chooses the style from an optional override and whether the platform
    /// lacks reliable unicode console rendering. An unparseable override falls
    /// back to the default style.
    pub fn select(over: Option<&str>, limited_platform: bool) -> (r: UISymbolStyle)
        ensures
            r == style_selected(
                match over {
                    Some(s) => Some(s@),
                    None => None,
                },
                limited_platform,
            ),
    {
        match over {
            Some(s) => match UISymbolStyle::from_str(s) {
                Ok(st) => st,
                Err(_) => UISymbolStyle::Full,
            },
            None => if limited_platform {
                UISymbolStyle::Limited
            } else {
                UISymbolStyle::Full
            },
        }
    }
}

/// Abstract glyphs used in status lines.
#[derive(Clone, Copy, Debug, PartialEq, Eq, Structural)]
pub enum UISymbol {
    UpArrow,
    FingerPoint,
    CheckMark,
    BoxedCheckMark,
    Omega,
    BoxedX,
    RightArrow,
    Cloud,
    DownArrow,
    Elipses,
    DottedTriangle,
    RightShift,
    Star,
    SlashedZero,
    ErrorX,
}

/// The text of a glyph in a style.
pub open spec fn glyph_text(sym: UISymbol, style: UISymbolStyle) -> Seq<char> {
    match style {
        UISymbolStyle::Ascii => match sym {
            UISymbol::UpArrow => "^"@,
            UISymbol::FingerPoint => "->"@,
            UISymbol::CheckMark => "[x]"@,
            UISymbol::BoxedCheckMark => "#"@,
            UISymbol::Omega => "->"@,
            UISymbol::BoxedX => "X"@,
            UISymbol::RightArrow => "->"@,
            UISymbol::Cloud => "->"@,
            UISymbol::DownArrow => ">"@,
            UISymbol::Elipses => "..."@,
            UISymbol::DottedTriangle => "?"@,
            UISymbol::RightShift => ">>"@,
            UISymbol::Star => "*"@,
            UISymbol::SlashedZero => "0"@,
            UISymbol::ErrorX => "XXX"@,
        },
        UISymbolStyle::Limited => match sym {
            UISymbol::UpArrow => "↑"@,
            UISymbol::FingerPoint => "→"@,
            UISymbol::CheckMark => "√"@,
            UISymbol::BoxedCheckMark => "⌂"@,
            UISymbol::Omega => "Ω"@,
            UISymbol::BoxedX => "░"@,
            UISymbol::RightArrow => "→"@,
            UISymbol::Cloud => "⌂"@,
            UISymbol::DownArrow => "↓"@,
            UISymbol::Elipses => "…"@,
            UISymbol::DottedTriangle => "‼"@,
            UISymbol::RightShift => "»"@,
            UISymbol::Star => "≡"@,
            UISymbol::SlashedZero => "Ø"@,
            UISymbol::ErrorX => "XXX"@,
        },
        UISymbolStyle::Full => match sym {
            UISymbol::UpArrow => "↑"@,
            UISymbol::FingerPoint => "☛"@,
            UISymbol::CheckMark => "√"@,
            UISymbol::BoxedCheckMark => "☑"@,
            UISymbol::Omega => "Ω"@,
            UISymbol::BoxedX => "☒"@,
            UISymbol::RightArrow => "→"@,
            UISymbol::Cloud => "☁"@,
            UISymbol::DownArrow => "↓"@,
            UISymbol::Elipses => "…"@,
            UISymbol::DottedTriangle => "∵"@,
            UISymbol::RightShift => "»"@,
            UISymbol::Star => "★"@,
            UISymbol::SlashedZero => "Ø"@,
            UISymbol::ErrorX => "✗✗✗"@,
        },
    }
}

impl UISymbol {
    /// The text of this glyph in the given style.
    pub fn to_str(&self, style: UISymbolStyle) -> (r: &'static str)
        ensures
            r@ == glyph_text(*self, style),
    {
        match style {
            UISymbolStyle::Ascii => match *self {
                UISymbol::UpArrow => "^",
                UISymbol::FingerPoint => "->",
                UISymbol::CheckMark => "[x]",
                UISymbol::BoxedCheckMark => "#",
                UISymbol::Omega => "->",
                UISymbol::BoxedX => "X",
                UISymbol::RightArrow => "->",
                UISymbol::Cloud => "->",
                UISymbol::DownArrow => ">",
                UISymbol::Elipses => "...",
                UISymbol::DottedTriangle => "?",
                UISymbol::RightShift => ">>",
                UISymbol::Star => "*",
                UISymbol::SlashedZero => "0",
                UISymbol::ErrorX => "XXX",
            },
            UISymbolStyle::Limited => match *self {
                UISymbol::UpArrow => "↑",
                UISymbol::FingerPoint => "→",
                UISymbol::CheckMark => "√",
                UISymbol::BoxedCheckMark => "⌂",
                UISymbol::Omega => "Ω",
                UISymbol::BoxedX => "░",
                UISymbol::RightArrow => "→",
                UISymbol::Cloud => "⌂",
                UISymbol::DownArrow => "↓",
                UISymbol::Elipses => "…",
                UISymbol::DottedTriangle => "‼",
                UISymbol::RightShift => "»",
                UISymbol::Star => "≡",
                UISymbol::SlashedZero => "Ø",
                UISymbol::ErrorX => "XXX",
            },
            UISymbolStyle::Full => match *self {
                UISymbol::UpArrow => "↑",
                UISymbol::FingerPoint => "☛",
                UISymbol::CheckMark => "√",
                UISymbol::BoxedCheckMark => "☑",
                UISymbol::Omega => "Ω",
                UISymbol::BoxedX => "☒",
                UISymbol::RightArrow => "→",
                UISymbol::Cloud => "☁",
                UISymbol::DownArrow => "↓",
                UISymbol::Elipses => "…",
                UISymbol::DottedTriangle => "∵",
                UISymbol::RightShift => "»",
                UISymbol::Star => "★",
                UISymbol::SlashedZero => "Ø",
                UISymbol::ErrorX => "✗✗✗",
            },
        }
    }
}

/// Every glyph has a non-empty rendering in every style.
pub proof fn glyph_renders_in_every_style(sym: UISymbol, style: UISymbolStyle)
    ensures
        glyph_text(sym, style).len() > 0,
{
    reveal_strlit("#");
    reveal_strlit("*");
    reveal_strlit("->");
    reveal_strlit("...");
    reveal_strlit("0");
    reveal_strlit(">");
    reveal_strlit(">>");
    reveal_strlit("?");
    reveal_strlit("X");
    reveal_strlit("XXX");
    reveal_strlit("[x]");
    reveal_strlit("^");
    reveal_strlit("»");
    reveal_strlit("Ø");
    reveal_strlit("Ω");
    reveal_strlit("…");
    reveal_strlit("‼");
    reveal_strlit("↑");
    reveal_strlit("→");
    reveal_strlit("↓");
    reveal_strlit("√");
    reveal_strlit("∵");
    reveal_strlit("≡");
    reveal_strlit("⌂");
    reveal_strlit("░");
    reveal_strlit("☁");
    reveal_strlit("★");
    reveal_strlit("☑");
    reveal_strlit("☒");
    reveal_strlit("☛");
    reveal_strlit("✗✗✗");
}

} // verus!
