//! Style and color types for terminal output: the attribute flags and the
//! color representation that the rest of the pipeline carries around.

use vstd::prelude::*;

verus! {

use crate::chars::{
    lower,
    trimmed,
    lower_trim,
    trim_chars,
    lower_chars,
    str_chars,
    subchars,
    chars_eq_str,
    split_at_commas,
    split_commas,
    split_tokens,
    tokens_of,
};

/// A terminal color.
#[derive(Debug, Clone, Copy, PartialEq, Eq, Hash, Structural)]
pub enum Color {
    /// Default terminal color
    Default,
    /// Black color
    Black,
    /// Red color
    Red,
    /// Green color
    Green,
    /// Yellow color
    Yellow,
    /// Blue color
    Blue,
    /// Magenta color
    Magenta,
    /// Cyan color
    Cyan,
    /// White color
    White,
    /// Bright black (gray)
    BrightBlack,
    /// Bright red
    BrightRed,
    /// Bright green
    BrightGreen,
    /// Bright yellow
    BrightYellow,
    /// Bright blue
    BrightBlue,
    /// Bright magenta
    BrightMagenta,
    /// Bright cyan
    BrightCyan,
    /// Bright white
    BrightWhite,
    /// 256-color palette (0-255)
    Ansi256(u8),
    /// True color RGB
    Rgb { r: u8, g: u8, b: u8 },
}

impl Color {
    /// Create a new RGB color.
    pub fn rgb(r: u8, g: u8, b: u8) -> (c: Color)
        ensures
            c == (Color::Rgb { r, g, b }),
    {
        Color::Rgb { r, g, b }
    }

    /// Create a new 256-color palette color.
    pub fn ansi256(code: u8) -> (c: Color)
        ensures
            c == Color::Ansi256(code),
    {
        Color::Ansi256(code)
    }
}

/// Style attributes for text.
#[derive(Debug, Clone, Copy, PartialEq, Eq, Hash, Default, Structural)]
pub struct Style {
    /// Foreground color
    pub foreground: Option<Color>,
    /// Background color
    pub background: Option<Color>,
    /// Bold text
    pub bold: bool,
    /// Dim/faint text
    pub dim: bool,
    /// Italic text
    pub italic: bool,
    /// Underlined text
    pub underline: bool,
    /// Blinking text
    pub blink: bool,
    /// Reversed colors (fg/bg swapped)
    pub reverse: bool,
    /// Hidden/invisible text
    pub hidden: bool,
    /// Strikethrough text
    pub strikethrough: bool,
}

/// The combination of two styles: the overlay's colors win where set, and
/// every boolean flag is the disjunction of the two.
pub open spec fn combined(base: Style, overlay: Style) -> Style {
    Style {
        foreground: if overlay.foreground is Some {
            overlay.foreground
        } else {
            base.foreground
        },
        background: if overlay.background is Some {
            overlay.background
        } else {
            base.background
        },
        bold: base.bold || overlay.bold,
        dim: base.dim || overlay.dim,
        italic: base.italic || overlay.italic,
        underline: base.underline || overlay.underline,
        blink: base.blink || overlay.blink,
        reverse: base.reverse || overlay.reverse,
        hidden: base.hidden || overlay.hidden,
        strikethrough: base.strikethrough || overlay.strikethrough,
    }
}

/// A style with no color and no flag set.
pub open spec fn empty_style() -> Style {
    Style {
        foreground: None,
        background: None,
        bold: false,
        dim: false,
        italic: false,
        underline: false,
        blink: false,
        reverse: false,
        hidden: false,
        strikethrough: false,
    }
}

impl Style {
    /// Create a new empty style.
    pub fn new() -> (s: Style)
        ensures
            s == empty_style(),
    {
        Style {
            foreground: None,
            background: None,
            bold: false,
            dim: false,
            italic: false,
            underline: false,
            blink: false,
            reverse: false,
            hidden: false,
            strikethrough: false,
        }
    }

    /// Set the foreground color.
    pub fn foreground(self, color: Color) -> (s: Style)
        ensures
            s == (Style { foreground: Some(color), ..self }),
    {
        Style { foreground: Some(color), ..self }
    }

    /// Set the background color.
    pub fn background(self, color: Color) -> (s: Style)
        ensures
            s == (Style { background: Some(color), ..self }),
    {
        Style { background: Some(color), ..self }
    }

    /// Set the foreground color (short alias).
    pub fn fg(self, color: Color) -> (s: Style)
        ensures
            s == (Style { foreground: Some(color), ..self }),
    {
        self.foreground(color)
    }

    /// Set the background color (short alias).
    pub fn bg(self, color: Color) -> (s: Style)
        ensures
            s == (Style { background: Some(color), ..self }),
    {
        self.background(color)
    }

    /// Enable bold.
    pub fn bold(self) -> (s: Style)
        ensures
            s == (Style { bold: true, ..self }),
    {
        Style { bold: true, ..self }
    }

    /// Enable dim/faint.
    pub fn dim(self) -> (s: Style)
        ensures
            s == (Style { dim: true, ..self }),
    {
        Style { dim: true, ..self }
    }

    /// Enable italic.
    pub fn italic(self) -> (s: Style)
        ensures
            s == (Style { italic: true, ..self }),
    {
        Style { italic: true, ..self }
    }

    /// Enable underline.
    pub fn underline(self) -> (s: Style)
        ensures
            s == (Style { underline: true, ..self }),
    {
        Style { underline: true, ..self }
    }

    /// Enable blink.
    pub fn blink(self) -> (s: Style)
        ensures
            s == (Style { blink: true, ..self }),
    {
        Style { blink: true, ..self }
    }

    /// Enable reverse (swap fg/bg).
    pub fn reverse(self) -> (s: Style)
        ensures
            s == (Style { reverse: true, ..self }),
    {
        Style { reverse: true, ..self }
    }

    /// Enable hidden/invisible.
    pub fn hidden(self) -> (s: Style)
        ensures
            s == (Style { hidden: true, ..self }),
    {
        Style { hidden: true, ..self }
    }

    /// Enable strikethrough.
    pub fn strikethrough(self) -> (s: Style)
        ensures
            s == (Style { strikethrough: true, ..self }),
    {
        Style { strikethrough: true, ..self }
    }

    /// Combine this style with another; `other` takes precedence for colors,
    /// while boolean flags accumulate.
    pub fn combine(&self, other: &Style) -> (s: Style)
        ensures
            s == combined(*self, *other),
    {
        Style {
            foreground: if other.foreground.is_some() {
                other.foreground
            } else {
                self.foreground
            },
            background: if other.background.is_some() {
                other.background
            } else {
                self.background
            },
            bold: self.bold || other.bold,
            dim: self.dim || other.dim,
            italic: self.italic || other.italic,
            underline: self.underline || other.underline,
            blink: self.blink || other.blink,
            reverse: self.reverse || other.reverse,
            hidden: self.hidden || other.hidden,
            strikethrough: self.strikethrough || other.strikethrough,
        }
    }

    /// Check if this style has any attribute set.
    pub fn is_empty(&self) -> (r: bool)
        ensures
            r == (*self == empty_style()),
    {
        self.foreground.is_none() && self.background.is_none() && !self.bold && !self.dim
            && !self.italic && !self.underline && !self.blink && !self.reverse && !self.hidden
            && !self.strikethrough
    }
}

/// Whether a character is a decimal digit.
pub open spec fn is_dec_digit(c: char) -> bool {
    48 <= (c as u32) <= 57
}

/// The value of a decimal digit character.
pub open spec fn digit_val(c: char) -> nat {
    (((c as u32) - 48) as nat)
}

/// The value of a string of decimal digits.
pub open spec fn digits_val(s: Seq<char>) -> nat
    decreases s.len(),
{
    if s.len() == 0 {
        0
    } else {
        digits_val(s.drop_last()) * 10 + digit_val(s.last())
    }
}

/// Whether every character of the sequence is a decimal digit.
pub open spec fn all_dec_digits(s: Seq<char>) -> bool {
    forall|i: int| 0 <= i < s.len() ==> is_dec_digit(s[i])
}

/// The byte value denoted by a decimal numeral with an optional leading plus
/// sign, as `str::parse::<u8>` reads it.
pub open spec fn u8_of_dec(s: Seq<char>) -> Option<u8> {
    let d = if s.len() > 0 && s[0] == '+' {
        s.drop_first()
    } else {
        s
    };
    if d.len() > 0 && all_dec_digits(d) && digits_val(d) <= 255 {
        Some(digits_val(d) as u8)
    } else {
        None
    }
}

/// The value of a lowercase hexadecimal digit character, if it is one.
pub open spec fn hex_val(c: char) -> Option<nat> {
    if is_dec_digit(c) {
        Some(digit_val(c))
    } else if 97 <= (c as u32) <= 102 {
        Some((((c as u32) - 87) as nat))
    } else {
        None
    }
}

/// The color denoted by the hexadecimal part after `#`: three digits mean
/// `#rgb` (each doubled), six mean `#rrggbb`.
pub open spec fn hex_color_of(h: Seq<char>) -> Option<Color> {
    if h.len() == 3 {
        if hex_val(h[0]) is Some && hex_val(h[1]) is Some && hex_val(h[2]) is Some {
            Some(
                Color::Rgb {
                    r: (17 * hex_val(h[0])->0) as u8,
                    g: (17 * hex_val(h[1])->0) as u8,
                    b: (17 * hex_val(h[2])->0) as u8,
                },
            )
        } else {
            None
        }
    } else if h.len() == 6 {
        if hex_val(h[0]) is Some && hex_val(h[1]) is Some && hex_val(h[2]) is Some && hex_val(h[3])
            is Some && hex_val(h[4]) is Some && hex_val(h[5]) is Some {
            Some(
                Color::Rgb {
                    r: (16 * hex_val(h[0])->0 + hex_val(h[1])->0) as u8,
                    g: (16 * hex_val(h[2])->0 + hex_val(h[3])->0) as u8,
                    b: (16 * hex_val(h[4])->0 + hex_val(h[5])->0) as u8,
                },
            )
        } else {
            None
        }
    } else {
        None
    }
}

/// The color denoted by a bare color name, already lowercased.
pub open spec fn named_color(t: Seq<char>) -> Option<Color> {
    if t == "default"@ {
        Some(Color::Default)
    } else if t == "black"@ {
        Some(Color::Black)
    } else if t == "red"@ {
        Some(Color::Red)
    } else if t == "green"@ {
        Some(Color::Green)
    } else if t == "yellow"@ {
        Some(Color::Yellow)
    } else if t == "blue"@ {
        Some(Color::Blue)
    } else if t == "magenta"@ {
        Some(Color::Magenta)
    } else if t == "cyan"@ {
        Some(Color::Cyan)
    } else if t == "white"@ {
        Some(Color::White)
    } else if t == "bright_black"@ || t == "brightblack"@ || t == "grey"@ || t == "gray"@ {
        Some(Color::BrightBlack)
    } else if t == "bright_red"@ || t == "brightred"@ {
        Some(Color::BrightRed)
    } else if t == "bright_green"@ || t == "brightgreen"@ {
        Some(Color::BrightGreen)
    } else if t == "bright_yellow"@ || t == "brightyellow"@ {
        Some(Color::BrightYellow)
    } else if t == "bright_blue"@ || t == "brightblue"@ {
        Some(Color::BrightBlue)
    } else if t == "bright_magenta"@ || t == "brightmagenta"@ {
        Some(Color::BrightMagenta)
    } else if t == "bright_cyan"@ || t == "brightcyan"@ {
        Some(Color::BrightCyan)
    } else if t == "bright_white"@ || t == "brightwhite"@ {
        Some(Color::BrightWhite)
    } else {
        None
    }
}

/// The color denoted by the inside of an `rgb(...)` form: three
/// comma-separated byte numerals.
pub open spec fn rgb_color_of(inner: Seq<char>) -> Option<Color> {
    let parts = split_commas(inner);
    if parts.len() == 3 {
        let r = u8_of_dec(trimmed(parts[0]));
        let g = u8_of_dec(trimmed(parts[1]));
        let b = u8_of_dec(trimmed(parts[2]));
        if r is Some && g is Some && b is Some {
            Some(Color::Rgb { r: r->0, g: g->0, b: b->0 })
        } else {
            None
        }
    } else {
        None
    }
}

/// The color denoted by a color string: a bare name, `#rgb`/`#rrggbb`,
/// `rgb(r,g,b)`, or `color(n)`, after trimming and lowercasing.
pub open spec fn color_of(s: Seq<char>) -> Option<Color> {
    let t = lower(trimmed(s));
    if named_color(t) is Some {
        named_color(t)
    } else if t.len() >= 1 && t[0] == '#' {
        hex_color_of(t.drop_first())
    } else if t.len() >= 5 && t.subrange(0, 4) == "rgb("@ && t.last() == ')' {
        rgb_color_of(t.subrange(4, t.len() - 1))
    } else if t.len() >= 7 && t.subrange(0, 6) == "color("@ && t.last() == ')' {
        match u8_of_dec(trimmed(t.subrange(6, t.len() - 1))) {
            Some(code) => Some(Color::Ansi256(code)),
            None => None,
        }
    } else {
        None
    }
}

proof fn lemma_digits_val_prefix(s: Seq<char>, m: int)
    requires
        0 <= m <= s.len(),
    ensures
        digits_val(s.subrange(0, m)) <= digits_val(s),
    decreases s.len(),
{
    if m < s.len() {
        assert(s.drop_last().subrange(0, m) =~= s.subrange(0, m));
        lemma_digits_val_prefix(s.drop_last(), m);
        assert(digits_val(s) == digits_val(s.drop_last()) * 10 + digit_val(s.last()));
        assert(digits_val(s.drop_last()) * 10 >= digits_val(s.drop_last()));
    } else {
        assert(s.subrange(0, m) =~= s);
    }
}

fn is_digit_exec(c: char) -> (r: bool)
    ensures
        r == is_dec_digit(c),
{
    let u = c as u32;
    48 <= u && u <= 57
}

/// Read a byte value from a decimal numeral, as `str::parse::<u8>` would.
fn parse_u8_chars(d: &Vec<char>) -> (r: Option<u8>)
    ensures
        r == u8_of_dec(d@),
{
    let start: usize = if d.len() > 0 && d[0] == '+' {
        1
    } else {
        0
    };
    let ghost dd = if d@.len() > 0 && d@[0] == '+' {
        d@.drop_first()
    } else {
        d@
    };
    proof {
        assert(d@.subrange(start as int, d@.len() as int) =~= dd);
    }
    if start == d.len() {
        proof {
            assert(dd.len() == 0);
            assert(u8_of_dec(d@) is None);
        }
        return None;
    }
    let mut acc: u32 = 0;
    let mut j: usize = start;
    while j < d.len()
        invariant
            start <= j <= d@.len(),
            dd == d@.subrange(start as int, d@.len() as int),
            dd == (if d@.len() > 0 && d@[0] == '+' {
                d@.drop_first()
            } else {
                d@
            }),
            acc <= 255,
            acc == digits_val(dd.subrange(0, j - start)),
            forall|i: int| 0 <= i < j - start ==> is_dec_digit(dd[i]),
        decreases d@.len() - j,
    {
        let c = d[j];
        proof {
            assert(dd[j - start] == c);
        }
        if !is_digit_exec(c) {
            assert(!all_dec_digits(dd));
            assert(u8_of_dec(d@) is None);
            return None;
        }
        let v = (c as u32) - 48;
        let next = acc * 10 + v;
        proof {
            assert(dd.subrange(0, j - start + 1).drop_last() =~= dd.subrange(0, j - start));
            assert(dd.subrange(0, j - start + 1).last() == c);
            assert(digits_val(dd.subrange(0, j - start + 1)) == acc * 10 + digit_val(c));
        }
        if next > 255 {
            proof {
                if all_dec_digits(dd) {
                    lemma_digits_val_prefix(dd, j - start + 1);
                }
                assert(u8_of_dec(d@) is None);
            }
            return None;
        }
        acc = next;
        j = j + 1;
    }
    proof {
        assert(dd.subrange(0, dd.len() as int) =~= dd);
    }
    Some(acc as u8)
}

fn hex_val_exec(c: char) -> (r: Option<u8>)
    ensures
        r is Some <==> hex_val(c) is Some,
        r is Some ==> r->0 as nat == hex_val(c)->0 && r->0 < 16,
{
    let u = c as u32;
    if 48 <= u && u <= 57 {
        Some((u - 48) as u8)
    } else if 97 <= u && u <= 102 {
        Some((u - 87) as u8)
    } else {
        None
    }
}

fn named_color_exec(t: &Vec<char>) -> (r: Option<Color>)
    ensures
        r == named_color(t@),
{
    if chars_eq_str(t, "default") {
        Some(Color::Default)
    } else if chars_eq_str(t, "black") {
        Some(Color::Black)
    } else if chars_eq_str(t, "red") {
        Some(Color::Red)
    } else if chars_eq_str(t, "green") {
        Some(Color::Green)
    } else if chars_eq_str(t, "yellow") {
        Some(Color::Yellow)
    } else if chars_eq_str(t, "blue") {
        Some(Color::Blue)
    } else if chars_eq_str(t, "magenta") {
        Some(Color::Magenta)
    } else if chars_eq_str(t, "cyan") {
        Some(Color::Cyan)
    } else if chars_eq_str(t, "white") {
        Some(Color::White)
    } else if chars_eq_str(t, "bright_black") || chars_eq_str(t, "brightblack") || chars_eq_str(
        t,
        "grey",
    ) || chars_eq_str(t, "gray") {
        Some(Color::BrightBlack)
    } else if chars_eq_str(t, "bright_red") || chars_eq_str(t, "brightred") {
        Some(Color::BrightRed)
    } else if chars_eq_str(t, "bright_green") || chars_eq_str(t, "brightgreen") {
        Some(Color::BrightGreen)
    } else if chars_eq_str(t, "bright_yellow") || chars_eq_str(t, "brightyellow") {
        Some(Color::BrightYellow)
    } else if chars_eq_str(t, "bright_blue") || chars_eq_str(t, "brightblue") {
        Some(Color::BrightBlue)
    } else if chars_eq_str(t, "bright_magenta") || chars_eq_str(t, "brightmagenta") {
        Some(Color::BrightMagenta)
    } else if chars_eq_str(t, "bright_cyan") || chars_eq_str(t, "brightcyan") {
        Some(Color::BrightCyan)
    } else if chars_eq_str(t, "bright_white") || chars_eq_str(t, "brightwhite") {
        Some(Color::BrightWhite)
    } else {
        None
    }
}

fn parse_hex_chars(h: &Vec<char>) -> (r: Option<Color>)
    ensures
        r == hex_color_of(h@),
{
    if h.len() == 3 {
        let v0 = hex_val_exec(h[0]);
        let v1 = hex_val_exec(h[1]);
        let v2 = hex_val_exec(h[2]);
        match (v0, v1, v2) {
            (Some(a), Some(b), Some(c)) => Some(
                Color::Rgb { r: 17 * a, g: 17 * b, b: 17 * c },
            ),
            _ => None,
        }
    } else if h.len() == 6 {
        let v0 = hex_val_exec(h[0]);
        let v1 = hex_val_exec(h[1]);
        let v2 = hex_val_exec(h[2]);
        let v3 = hex_val_exec(h[3]);
        let v4 = hex_val_exec(h[4]);
        let v5 = hex_val_exec(h[5]);
        match (v0, v1, v2, v3, v4, v5) {
            (Some(a), Some(b), Some(c), Some(d), Some(e), Some(f)) => Some(
                Color::Rgb { r: 16 * a + b, g: 16 * c + d, b: 16 * e + f },
            ),
            _ => None,
        }
    } else {
        None
    }
}

fn chars_starts_with(t: &Vec<char>, prefix: &str) -> (r: bool)
    ensures
        r == (t@.len() >= prefix@.len() && t@.subrange(0, prefix@.len() as int) == prefix@),
{
    let p = str_chars(prefix);
    if t.len() < p.len() {
        return false;
    }
    let head = subchars(t, 0, p.len());
    crate::chars::chars_eq(&head, &p)
}

impl Color {
    /// Parse a color from a string.
    ///
    /// Supports bare names with an optional `bright_` prefix, `#rgb` and
    /// `#rrggbb` hex forms, `rgb(r, g, b)`, and `color(n)`; anything else
    /// gives `None`, never an error.
    pub fn parse(s: &str) -> (r: Option<Color>)
        ensures
            r == color_of(s@),
    {
        let v = str_chars(s);
        let t = lower_trim(&v);
        proof {
            reveal_strlit("rgb(");
            reveal_strlit("color(");
        }
        let named = named_color_exec(&t);
        if named.is_some() {
            return named;
        }
        if t.len() >= 1 {
            let first = t[0];
            if first == '#' {
                let h = subchars(&t, 1, t.len());
                proof {
                    assert(t@.subrange(1, t@.len() as int) =~= t@.drop_first());
                }
                return parse_hex_chars(&h);
            }
        }
        if t.len() >= 5 && chars_starts_with(&t, "rgb(") && t[t.len() - 1] == ')' {
            let inner = subchars(&t, 4, t.len() - 1);
            let parts = split_at_commas(&inner);
            proof {
                reveal_strlit("rgb(");
            }
            if parts.len() == 3 {
                let p0 = trim_chars(&parts[0]);
                let p1 = trim_chars(&parts[1]);
                let p2 = trim_chars(&parts[2]);
                proof {
                    assert(parts@[0]@ =~= parts.deep_view()[0]);
                    assert(parts@[1]@ =~= parts.deep_view()[1]);
                    assert(parts@[2]@ =~= parts.deep_view()[2]);
                }
                let r = parse_u8_chars(&p0);
                let g = parse_u8_chars(&p1);
                let b = parse_u8_chars(&p2);
                match (r, g, b) {
                    (Some(r), Some(g), Some(b)) => {
                        return Some(Color::Rgb { r, g, b });
                    },
                    _ => {
                        return None;
                    },
                }
            } else {
                return None;
            }
        }
        if t.len() >= 7 && chars_starts_with(&t, "color(") && t[t.len() - 1] == ')' {
            proof {
                reveal_strlit("color(");
            }
            let inner = subchars(&t, 6, t.len() - 1);
            let p = trim_chars(&inner);
            return match parse_u8_chars(&p) {
                Some(code) => Some(Color::Ansi256(code)),
                None => None,
            };
        }
        None
    }
}

/// One step of reading a whitespace-separated style expression: how a single
/// token changes the style under construction and the pending `on` flag.
pub open spec fn style_token_step(st: Style, on_bg: bool, tok: Seq<char>) -> (Style, bool) {
    let t = lower(tok);
    if t == "on"@ {
        (st, true)
    } else if t == "bold"@ || t == "b"@ {
        (Style { bold: true, ..st }, on_bg)
    } else if t == "dim"@ {
        (Style { dim: true, ..st }, on_bg)
    } else if t == "italic"@ || t == "i"@ {
        (Style { italic: true, ..st }, on_bg)
    } else if t == "underline"@ || t == "u"@ {
        (Style { underline: true, ..st }, on_bg)
    } else if t == "blink"@ {
        (Style { blink: true, ..st }, on_bg)
    } else if t == "reverse"@ {
        (Style { reverse: true, ..st }, on_bg)
    } else if t == "hidden"@ {
        (Style { hidden: true, ..st }, on_bg)
    } else if t == "strike"@ || t == "strikethrough"@ || t == "s"@ {
        (Style { strikethrough: true, ..st }, on_bg)
    } else if t == "not"@ {
        (st, on_bg)
    } else {
        match color_of(t) {
            Some(c) => if on_bg {
                (Style { background: Some(c), ..st }, false)
            } else {
                (Style { foreground: Some(c), ..st }, on_bg)
            },
            None => (st, on_bg),
        }
    }
}

/// The style read from a list of tokens, folding `style_token_step` over it.
pub open spec fn style_of_tokens(toks: Seq<Seq<char>>, st: Style, on_bg: bool) -> Style
    decreases toks.len(),
{
    if toks.len() == 0 {
        st
    } else {
        let (st2, on2) = style_token_step(st, on_bg, toks[0]);
        style_of_tokens(toks.drop_first(), st2, on2)
    }
}

/// The style denoted by a space-separated style expression such as
/// `"bold red on blue"`.
pub open spec fn style_of(s: Seq<char>) -> Style {
    style_of_tokens(tokens_of(s), empty_style(), false)
}

fn style_token_step_exec(st: Style, on_bg: bool, tok: &Vec<char>) -> (r: (Style, bool))
    ensures
        r == style_token_step(st, on_bg, tok@),
{
    let t = lower_chars(tok);
    if chars_eq_str(&t, "on") {
        (st, true)
    } else if chars_eq_str(&t, "bold") || chars_eq_str(&t, "b") {
        (Style { bold: true, ..st }, on_bg)
    } else if chars_eq_str(&t, "dim") {
        (Style { dim: true, ..st }, on_bg)
    } else if chars_eq_str(&t, "italic") || chars_eq_str(&t, "i") {
        (Style { italic: true, ..st }, on_bg)
    } else if chars_eq_str(&t, "underline") || chars_eq_str(&t, "u") {
        (Style { underline: true, ..st }, on_bg)
    } else if chars_eq_str(&t, "blink") {
        (Style { blink: true, ..st }, on_bg)
    } else if chars_eq_str(&t, "reverse") {
        (Style { reverse: true, ..st }, on_bg)
    } else if chars_eq_str(&t, "hidden") {
        (Style { hidden: true, ..st }, on_bg)
    } else if chars_eq_str(&t, "strike") || chars_eq_str(&t, "strikethrough") || chars_eq_str(
        &t,
        "s",
    ) {
        (Style { strikethrough: true, ..st }, on_bg)
    } else if chars_eq_str(&t, "not") {
        (st, on_bg)
    } else {
        let ts = crate::chars::chars_string(&t);
        match Color::parse(ts.as_str()) {
            Some(c) => if on_bg {
                (Style { background: Some(c), ..st }, false)
            } else {
                (Style { foreground: Some(c), ..st }, on_bg)
            },
            None => (st, on_bg),
        }
    }
}

impl Style {
    /// Parse a style from a space-separated attribute expression.
    ///
    /// Attribute keywords set their flag, `on` routes the next color to the
    /// background, and unknown tokens are ignored.
    pub fn parse(s: &str) -> (r: Style)
        ensures
            r == style_of(s@),
    {
        let v = str_chars(s);
        let toks = split_tokens(&v);
        let mut st = Style::new();
        let mut on_bg = false;
        let mut i: usize = 0;
        proof {
            assert(toks.deep_view().subrange(0, toks.deep_view().len() as int) =~= toks.deep_view());
        }
        while i < toks.len()
            invariant
                i <= toks@.len(),
                style_of(v@) == style_of_tokens(
                    toks.deep_view().subrange(i as int, toks.deep_view().len() as int),
                    st,
                    on_bg,
                ),
                toks.deep_view() == tokens_of(v@),
            decreases toks@.len() - i,
        {
            let tok = &toks[i];
            let ghost pre = toks.deep_view().subrange(i as int, toks.deep_view().len() as int);
            let stepped = style_token_step_exec(st, on_bg, tok);
            proof {
                assert(pre[0] == toks.deep_view()[i as int]);
                assert(toks@[i as int]@ =~= toks.deep_view()[i as int]);
                assert(pre.drop_first() =~= toks.deep_view().subrange(
                    i + 1,
                    toks.deep_view().len() as int,
                ));
            }
            st = stepped.0;
            on_bg = stepped.1;
            i = i + 1;
        }
        proof {
            assert(toks.deep_view().subrange(
                toks.deep_view().len() as int,
                toks.deep_view().len() as int,
            ) =~= Seq::<Seq<char>>::empty());
        }
        st
    }
}

/// The reference RGB values of the sixteen standard terminal colors, by ANSI
/// code.
pub open spec fn standard16_rgb(code: nat) -> (int, int, int) {
    if code == 0 {
        (0, 0, 0)
    } else if code == 1 {
        (128, 0, 0)
    } else if code == 2 {
        (0, 128, 0)
    } else if code == 3 {
        (128, 128, 0)
    } else if code == 4 {
        (0, 0, 128)
    } else if code == 5 {
        (128, 0, 128)
    } else if code == 6 {
        (0, 128, 128)
    } else if code == 7 {
        (192, 192, 192)
    } else if code == 8 {
        (128, 128, 128)
    } else if code == 9 {
        (255, 0, 0)
    } else if code == 10 {
        (0, 255, 0)
    } else if code == 11 {
        (255, 255, 0)
    } else if code == 12 {
        (0, 0, 255)
    } else if code == 13 {
        (255, 0, 255)
    } else if code == 14 {
        (0, 255, 255)
    } else if code == 15 {
        (255, 255, 255)
    } else {
        (0, 0, 0)
    }
}

/// The RGB value of an entry of the 256-color palette: the 16 standard
/// colors, the 6x6x6 color cube, then the 24-step grayscale ramp.
pub open spec fn ansi256_rgb(code: nat) -> (int, int, int) {
    if code < 16 {
        standard16_rgb(code)
    } else if code < 232 {
        let index = code - 16;
        let r_idx = index / 36;
        let g_idx = (index % 36) / 6;
        let b_idx = index % 6;
        (cube_level(r_idx), cube_level(g_idx), cube_level(b_idx))
    } else {
        let v = (code - 232) * 10 + 8;
        (v, v, v)
    }
}

/// One channel level of the 6x6x6 color cube.
pub open spec fn cube_level(x: int) -> int {
    if x == 0 {
        0
    } else {
        x * 40 + 55
    }
}

/// The squared Euclidean distance between an RGB color and a palette entry.
pub open spec fn dist2(r: u8, g: u8, b: u8, p: (int, int, int)) -> int {
    (r - p.0) * (r - p.0) + (g - p.1) * (g - p.1) + (b - p.2) * (b - p.2)
}

/// `k` is the entry of the 256-color palette nearest to the RGB color, with
/// ties resolved to the lowest index.
pub open spec fn nearest_in_256(r: u8, g: u8, b: u8, k: nat) -> bool {
    &&& k < 256
    &&& forall|i: nat|
        i < 256 ==> #[trigger] dist2(r, g, b, ansi256_rgb(i)) >= dist2(r, g, b, ansi256_rgb(k))
    &&& forall|i: nat|
        i < k ==> #[trigger] dist2(r, g, b, ansi256_rgb(i)) > dist2(r, g, b, ansi256_rgb(k))
}

/// `k` is the standard color nearest to the RGB color, with ties resolved to
/// the lowest index.
pub open spec fn nearest_in_16(r: u8, g: u8, b: u8, k: nat) -> bool {
    &&& k < 16
    &&& forall|i: nat|
        i < 16 ==> #[trigger] dist2(r, g, b, standard16_rgb(i)) >= dist2(r, g, b, standard16_rgb(k))
    &&& forall|i: nat|
        i < k ==> #[trigger] dist2(r, g, b, standard16_rgb(i)) > dist2(r, g, b, standard16_rgb(k))
}

/// The named color carrying a standard ANSI code below sixteen.
pub open spec fn std_code_color(k: nat) -> Color {
    if k == 0 {
        Color::Black
    } else if k == 1 {
        Color::Red
    } else if k == 2 {
        Color::Green
    } else if k == 3 {
        Color::Yellow
    } else if k == 4 {
        Color::Blue
    } else if k == 5 {
        Color::Magenta
    } else if k == 6 {
        Color::Cyan
    } else if k == 7 {
        Color::White
    } else if k == 8 {
        Color::BrightBlack
    } else if k == 9 {
        Color::BrightRed
    } else if k == 10 {
        Color::BrightGreen
    } else if k == 11 {
        Color::BrightYellow
    } else if k == 12 {
        Color::BrightBlue
    } else if k == 13 {
        Color::BrightMagenta
    } else if k == 14 {
        Color::BrightCyan
    } else if k == 15 {
        Color::BrightWhite
    } else {
        Color::Default
    }
}

proof fn lemma_dist2_nonneg(r: u8, g: u8, b: u8, p: (int, int, int))
    ensures
        dist2(r, g, b, p) >= 0,
{
    let dr = r - p.0;
    let dg = g - p.1;
    let db = b - p.2;
    assert(dr * dr >= 0 && dg * dg >= 0 && db * db >= 0) by (nonlinear_arith);
}

fn ansi256_rgb_exec(code: u8) -> (p: (u8, u8, u8))
    ensures
        (p.0 as int, p.1 as int, p.2 as int) == ansi256_rgb(code as nat),
{
    if code < 16 {
        match code {
            0 => (0, 0, 0),
            1 => (128, 0, 0),
            2 => (0, 128, 0),
            3 => (128, 128, 0),
            4 => (0, 0, 128),
            5 => (128, 0, 128),
            6 => (0, 128, 128),
            7 => (192, 192, 192),
            8 => (128, 128, 128),
            9 => (255, 0, 0),
            10 => (0, 255, 0),
            11 => (255, 255, 0),
            12 => (0, 0, 255),
            13 => (255, 0, 255),
            14 => (0, 255, 255),
            _ => (255, 255, 255),
        }
    } else if code < 232 {
        let index = code - 16;
        let r_idx = index / 36;
        let g_idx = (index % 36) / 6;
        let b_idx = index % 6;
        let rv: u8 = if r_idx == 0 {
            0
        } else {
            r_idx * 40 + 55
        };
        let gv: u8 = if g_idx == 0 {
            0
        } else {
            g_idx * 40 + 55
        };
        let bv: u8 = if b_idx == 0 {
            0
        } else {
            b_idx * 40 + 55
        };
        (rv, gv, bv)
    } else {
        let index = code - 232;
        let v = index * 10 + 8;
        (v, v, v)
    }
}

fn dist2_exec(r: u8, g: u8, b: u8, p: (u8, u8, u8)) -> (d: u32)
    ensures
        d as int == dist2(r, g, b, (p.0 as int, p.1 as int, p.2 as int)),
{
    let dr = r as i32 - p.0 as i32;
    let dg = g as i32 - p.1 as i32;
    let db = b as i32 - p.2 as i32;
    proof {
        assert(dr * dr >= 0 && dr * dr <= 255 * 255) by (nonlinear_arith)
            requires
                -255 <= dr <= 255,
        ;
        assert(dg * dg >= 0 && dg * dg <= 255 * 255) by (nonlinear_arith)
            requires
                -255 <= dg <= 255,
        ;
        assert(db * db >= 0 && db * db <= 255 * 255) by (nonlinear_arith)
            requires
                -255 <= db <= 255,
        ;
    }
    (dr * dr + dg * dg + db * db) as u32
}

/// Find the nearest entry of the 256-color palette by squared distance.
fn nearest_ansi256(r: u8, g: u8, b: u8) -> (k: u8)
    ensures
        nearest_in_256(r, g, b, k as nat),
{
    let mut best: u8 = 0;
    let p0 = ansi256_rgb_exec(0);
    let mut min_dist: u32 = dist2_exec(r, g, b, p0);
    proof {
        assert((0u8) as nat == 0nat);
    }
    let mut i: u16 = 1;
    while i < 256
        invariant
            1 <= i <= 256,
            best < i,
            min_dist as int == dist2(r, g, b, ansi256_rgb(best as nat)),
            forall|j: nat| j < i ==> #[trigger] dist2(r, g, b, ansi256_rgb(j)) >= min_dist as int,
            forall|j: nat| j < best ==> #[trigger] dist2(r, g, b, ansi256_rgb(j)) > min_dist as int,
        decreases 256 - i,
    {
        let p = ansi256_rgb_exec(i as u8);
        let dist = dist2_exec(r, g, b, p);
        proof {
            assert((i as u8) as nat == i as nat);
            assert(dist2(r, g, b, ansi256_rgb(i as nat)) == dist as int);
        }
        if dist < min_dist {
            min_dist = dist;
            best = i as u8;
            if dist == 0 {
                proof {
                    assert forall|j: nat| j < 256 implies #[trigger] dist2(
                        r,
                        g,
                        b,
                        ansi256_rgb(j),
                    ) >= 0 by {
                        lemma_dist2_nonneg(r, g, b, ansi256_rgb(j));
                    }
                }
                return best;
            }
        }
        i = i + 1;
    }
    best
}

/// Find the nearest of the sixteen standard colors by squared distance.
fn nearest_standard16(r: u8, g: u8, b: u8) -> (k: u8)
    ensures
        nearest_in_16(r, g, b, k as nat),
{
    let mut best: u8 = 0;
    let p0 = ansi256_rgb_exec(0);
    let mut min_dist: u32 = dist2_exec(r, g, b, p0);
    proof {
        assert(ansi256_rgb(0) == standard16_rgb(0));
    }
    let mut i: u8 = 1;
    while i < 16
        invariant
            1 <= i <= 16,
            best < i,
            min_dist as int == dist2(r, g, b, standard16_rgb(best as nat)),
            forall|j: nat| j < i ==> #[trigger] dist2(r, g, b, standard16_rgb(j)) >= min_dist as int,
            forall|j: nat|
                j < best ==> #[trigger] dist2(r, g, b, standard16_rgb(j)) > min_dist as int,
        decreases 16 - i,
    {
        let p = ansi256_rgb_exec(i);
        let dist = dist2_exec(r, g, b, p);
        proof {
            assert(ansi256_rgb(i as nat) == standard16_rgb(i as nat));
            assert(dist2(r, g, b, standard16_rgb(i as nat)) == dist as int);
        }
        if dist < min_dist {
            min_dist = dist;
            best = i;
        }
        i = i + 1;
    }
    best
}

fn from_ansi_standard_code(code: u8) -> (c: Color)
    ensures
        c == std_code_color(code as nat),
{
    match code {
        0 => Color::Black,
        1 => Color::Red,
        2 => Color::Green,
        3 => Color::Yellow,
        4 => Color::Blue,
        5 => Color::Magenta,
        6 => Color::Cyan,
        7 => Color::White,
        8 => Color::BrightBlack,
        9 => Color::BrightRed,
        10 => Color::BrightGreen,
        11 => Color::BrightYellow,
        12 => Color::BrightBlue,
        13 => Color::BrightMagenta,
        14 => Color::BrightCyan,
        15 => Color::BrightWhite,
        _ => Color::Default,
    }
}

/// The standard ANSI code carried by a named color, sixteen for all others.
pub open spec fn named_code(c: Color) -> nat {
    match c {
        Color::Black => 0,
        Color::Red => 1,
        Color::Green => 2,
        Color::Yellow => 3,
        Color::Blue => 4,
        Color::Magenta => 5,
        Color::Cyan => 6,
        Color::White => 7,
        Color::BrightBlack => 8,
        Color::BrightRed => 9,
        Color::BrightGreen => 10,
        Color::BrightYellow => 11,
        Color::BrightBlue => 12,
        Color::BrightMagenta => 13,
        Color::BrightCyan => 14,
        Color::BrightWhite => 15,
        _ => 16,
    }
}

impl Color {
    /// Downsample to the 256-color palette: `Default` and palette entries are
    /// kept, named colors map to their standard code, and RGB values go to
    /// the nearest palette entry by squared Euclidean distance, ties to the
    /// lowest index.
    pub fn to_ansi256(&self) -> (c: Color)
        ensures
            c == to_ansi256_spec(*self),
            *self matches Color::Rgb { r, g, b } ==> c is Ansi256 && nearest_in_256(
                r,
                g,
                b,
                c->Ansi256_0 as nat,
            ),
    {
        match *self {
            Color::Default => Color::Default,
            Color::Ansi256(code) => Color::Ansi256(code),
            Color::Rgb { r, g, b } => {
                let k = nearest_ansi256(r, g, b);
                proof {
                    lemma_nearest256_unique(r, g, b, k as nat, nearest256_spec(r, g, b));
                }
                Color::Ansi256(k)
            },
            Color::Black => Color::Ansi256(0),
            Color::Red => Color::Ansi256(1),
            Color::Green => Color::Ansi256(2),
            Color::Yellow => Color::Ansi256(3),
            Color::Blue => Color::Ansi256(4),
            Color::Magenta => Color::Ansi256(5),
            Color::Cyan => Color::Ansi256(6),
            Color::White => Color::Ansi256(7),
            Color::BrightBlack => Color::Ansi256(8),
            Color::BrightRed => Color::Ansi256(9),
            Color::BrightGreen => Color::Ansi256(10),
            Color::BrightYellow => Color::Ansi256(11),
            Color::BrightBlue => Color::Ansi256(12),
            Color::BrightMagenta => Color::Ansi256(13),
            Color::BrightCyan => Color::Ansi256(14),
            Color::BrightWhite => Color::Ansi256(15),
        }
    }

    /// Downsample to the sixteen standard colors: named colors and `Default`
    /// are kept, palette codes below sixteen become their named color, and
    /// everything else goes to the nearest standard color by squared
    /// Euclidean distance, ties to the lowest index.
    pub fn to_standard(&self) -> (c: Color)
        ensures
            c == to_standard_spec(*self),
            *self matches Color::Rgb { r, g, b } ==> c == std_code_color(nearest16_spec(r, g, b))
                && nearest_in_16(r, g, b, nearest16_spec(r, g, b)),
            *self matches Color::Ansi256(code) ==> (code < 16 || ({
                let p = ansi256_rgb(code as nat);
                nearest_in_16(
                    p.0 as u8,
                    p.1 as u8,
                    p.2 as u8,
                    nearest16_spec(p.0 as u8, p.1 as u8, p.2 as u8),
                )
            })),
    {
        match *self {
            Color::Default => Color::Default,
            Color::Black => Color::Black,
            Color::Red => Color::Red,
            Color::Green => Color::Green,
            Color::Yellow => Color::Yellow,
            Color::Blue => Color::Blue,
            Color::Magenta => Color::Magenta,
            Color::Cyan => Color::Cyan,
            Color::White => Color::White,
            Color::BrightBlack => Color::BrightBlack,
            Color::BrightRed => Color::BrightRed,
            Color::BrightGreen => Color::BrightGreen,
            Color::BrightYellow => Color::BrightYellow,
            Color::BrightBlue => Color::BrightBlue,
            Color::BrightMagenta => Color::BrightMagenta,
            Color::BrightCyan => Color::BrightCyan,
            Color::BrightWhite => Color::BrightWhite,
            Color::Ansi256(code) => {
                if code < 16 {
                    from_ansi_standard_code(code)
                } else {
                    let p = ansi256_rgb_exec(code);
                    let k = nearest_standard16(p.0, p.1, p.2);
                    let c = from_ansi_standard_code(k);
                    proof {
                        lemma_nearest16_unique(
                            p.0,
                            p.1,
                            p.2,
                            k as nat,
                            nearest16_spec(p.0, p.1, p.2),
                        );
                    }
                    c
                }
            },
            Color::Rgb { r, g, b } => {
                let k = nearest_standard16(r, g, b);
                let c = from_ansi_standard_code(k);
                proof {
                    lemma_nearest16_unique(r, g, b, k as nat, nearest16_spec(r, g, b));
                }
                c
            },
        }
    }
}

/// The index of the nearest standard color: the unique entry satisfying
/// `nearest_in_16`.
pub open spec fn nearest16_spec(r: u8, g: u8, b: u8) -> nat {
    choose|k: nat| nearest_in_16(r, g, b, k)
}

/// The index of the nearest 256-color palette entry: the unique entry
/// satisfying `nearest_in_256`.
pub open spec fn nearest256_spec(r: u8, g: u8, b: u8) -> nat {
    choose|k: nat| nearest_in_256(r, g, b, k)
}

/// The nearest index in the standard palette is unique: the two quantifiers
/// of `nearest_in_16` pin both the distance and the lowest index.
pub proof fn lemma_nearest16_unique(r: u8, g: u8, b: u8, k1: nat, k2: nat)
    requires
        nearest_in_16(r, g, b, k1),
        nearest_in_16(r, g, b, k2),
    ensures
        k1 == k2,
{
    if k1 < k2 {
        assert(dist2(r, g, b, standard16_rgb(k1)) > dist2(r, g, b, standard16_rgb(k2)));
        assert(dist2(r, g, b, standard16_rgb(k2)) >= dist2(r, g, b, standard16_rgb(k1)));
    }
    if k2 < k1 {
        assert(dist2(r, g, b, standard16_rgb(k2)) > dist2(r, g, b, standard16_rgb(k1)));
        assert(dist2(r, g, b, standard16_rgb(k1)) >= dist2(r, g, b, standard16_rgb(k2)));
    }
}

/// The nearest index in the 256-color palette is unique.
pub proof fn lemma_nearest256_unique(r: u8, g: u8, b: u8, k1: nat, k2: nat)
    requires
        nearest_in_256(r, g, b, k1),
        nearest_in_256(r, g, b, k2),
    ensures
        k1 == k2,
{
    if k1 < k2 {
        assert(dist2(r, g, b, ansi256_rgb(k1)) > dist2(r, g, b, ansi256_rgb(k2)));
        assert(dist2(r, g, b, ansi256_rgb(k2)) >= dist2(r, g, b, ansi256_rgb(k1)));
    }
    if k2 < k1 {
        assert(dist2(r, g, b, ansi256_rgb(k2)) > dist2(r, g, b, ansi256_rgb(k1)));
        assert(dist2(r, g, b, ansi256_rgb(k1)) >= dist2(r, g, b, ansi256_rgb(k2)));
    }
}

/// The color that standard downsampling produces.
pub open spec fn to_standard_spec(c: Color) -> Color {
    match c {
        Color::Ansi256(code) => if code < 16 {
            std_code_color(code as nat)
        } else {
            let p = ansi256_rgb(code as nat);
            std_code_color(nearest16_spec(p.0 as u8, p.1 as u8, p.2 as u8))
        },
        Color::Rgb { r, g, b } => std_code_color(nearest16_spec(r, g, b)),
        _ => c,
    }
}

/// The color that 256-color downsampling produces.
pub open spec fn to_ansi256_spec(c: Color) -> Color {
    match c {
        Color::Default => Color::Default,
        Color::Ansi256(_) => c,
        Color::Rgb { r, g, b } => Color::Ansi256(nearest256_spec(r, g, b) as u8),
        _ => Color::Ansi256(named_code(c) as u8),
    }
}

/// The SGR foreground sequence of a color under the standard color system;
/// empty for palette and RGB colors, which are downsampled first.
pub open spec fn sgr_fg_of(c: Color) -> Seq<char> {
    match c {
        Color::Black => "\u{1b}[30m"@,
        Color::Red => "\u{1b}[31m"@,
        Color::Green => "\u{1b}[32m"@,
        Color::Yellow => "\u{1b}[33m"@,
        Color::Blue => "\u{1b}[34m"@,
        Color::Magenta => "\u{1b}[35m"@,
        Color::Cyan => "\u{1b}[36m"@,
        Color::White => "\u{1b}[37m"@,
        Color::BrightBlack => "\u{1b}[90m"@,
        Color::BrightRed => "\u{1b}[91m"@,
        Color::BrightGreen => "\u{1b}[92m"@,
        Color::BrightYellow => "\u{1b}[93m"@,
        Color::BrightBlue => "\u{1b}[94m"@,
        Color::BrightMagenta => "\u{1b}[95m"@,
        Color::BrightCyan => "\u{1b}[96m"@,
        Color::BrightWhite => "\u{1b}[97m"@,
        Color::Default => "\u{1b}[39m"@,
        _ => Seq::empty(),
    }
}

/// The SGR background sequence of a color under the standard color system.
pub open spec fn sgr_bg_of(c: Color) -> Seq<char> {
    match c {
        Color::Black => "\u{1b}[40m"@,
        Color::Red => "\u{1b}[41m"@,
        Color::Green => "\u{1b}[42m"@,
        Color::Yellow => "\u{1b}[43m"@,
        Color::Blue => "\u{1b}[44m"@,
        Color::Magenta => "\u{1b}[45m"@,
        Color::Cyan => "\u{1b}[46m"@,
        Color::White => "\u{1b}[47m"@,
        Color::BrightBlack => "\u{1b}[100m"@,
        Color::BrightRed => "\u{1b}[101m"@,
        Color::BrightGreen => "\u{1b}[102m"@,
        Color::BrightYellow => "\u{1b}[103m"@,
        Color::BrightBlue => "\u{1b}[104m"@,
        Color::BrightMagenta => "\u{1b}[105m"@,
        Color::BrightCyan => "\u{1b}[106m"@,
        Color::BrightWhite => "\u{1b}[107m"@,
        Color::Default => "\u{1b}[49m"@,
        _ => Seq::empty(),
    }
}

impl Color {
    /// The SGR foreground sequence for this color under the standard system.
    pub fn to_sgr_fg(&self) -> (r: String)
        ensures
            r@ == sgr_fg_of(*self),
    {
        match *self {
            Color::Black => "\u{1b}[30m".to_owned(),
            Color::Red => "\u{1b}[31m".to_owned(),
            Color::Green => "\u{1b}[32m".to_owned(),
            Color::Yellow => "\u{1b}[33m".to_owned(),
            Color::Blue => "\u{1b}[34m".to_owned(),
            Color::Magenta => "\u{1b}[35m".to_owned(),
            Color::Cyan => "\u{1b}[36m".to_owned(),
            Color::White => "\u{1b}[37m".to_owned(),
            Color::BrightBlack => "\u{1b}[90m".to_owned(),
            Color::BrightRed => "\u{1b}[91m".to_owned(),
            Color::BrightGreen => "\u{1b}[92m".to_owned(),
            Color::BrightYellow => "\u{1b}[93m".to_owned(),
            Color::BrightBlue => "\u{1b}[94m".to_owned(),
            Color::BrightMagenta => "\u{1b}[95m".to_owned(),
            Color::BrightCyan => "\u{1b}[96m".to_owned(),
            Color::BrightWhite => "\u{1b}[97m".to_owned(),
            Color::Default => "\u{1b}[39m".to_owned(),
            _ => {
                let r = String::new();
                proof {
                    assert(r@ =~= Seq::<char>::empty());
                }
                r
            },
        }
    }

    /// The SGR background sequence for this color under the standard system.
    pub fn to_sgr_bg(&self) -> (r: String)
        ensures
            r@ == sgr_bg_of(*self),
    {
        match *self {
            Color::Black => "\u{1b}[40m".to_owned(),
            Color::Red => "\u{1b}[41m".to_owned(),
            Color::Green => "\u{1b}[42m".to_owned(),
            Color::Yellow => "\u{1b}[43m".to_owned(),
            Color::Blue => "\u{1b}[44m".to_owned(),
            Color::Magenta => "\u{1b}[45m".to_owned(),
            Color::Cyan => "\u{1b}[46m".to_owned(),
            Color::White => "\u{1b}[47m".to_owned(),
            Color::BrightBlack => "\u{1b}[100m".to_owned(),
            Color::BrightRed => "\u{1b}[101m".to_owned(),
            Color::BrightGreen => "\u{1b}[102m".to_owned(),
            Color::BrightYellow => "\u{1b}[103m".to_owned(),
            Color::BrightBlue => "\u{1b}[104m".to_owned(),
            Color::BrightMagenta => "\u{1b}[105m".to_owned(),
            Color::BrightCyan => "\u{1b}[106m".to_owned(),
            Color::BrightWhite => "\u{1b}[107m".to_owned(),
            Color::Default => "\u{1b}[49m".to_owned(),
            _ => {
                let r = String::new();
                proof {
                    assert(r@ =~= Seq::<char>::empty());
                }
                r
            },
        }
    }
}

/// The CSS color expression for a color.
pub open spec fn css_of(c: Color) -> Seq<char> {
    match c {
        Color::Default => "inherit"@,
        Color::Black => "#000000"@,
        Color::Red => "#cd0000"@,
        Color::Green => "#00cd00"@,
        Color::Yellow => "#cdcd00"@,
        Color::Blue => "#0000cd"@,
        Color::Magenta => "#cd00cd"@,
        Color::Cyan => "#00cdcd"@,
        Color::White => "#e5e5e5"@,
        Color::BrightBlack => "#7f7f7f"@,
        Color::BrightRed => "#ff0000"@,
        Color::BrightGreen => "#00ff00"@,
        Color::BrightYellow => "#ffff00"@,
        Color::BrightBlue => "#5c5cff"@,
        Color::BrightMagenta => "#ff00ff"@,
        Color::BrightCyan => "#00ffff"@,
        Color::BrightWhite => "#ffffff"@,
        Color::Ansi256(code) => "var(--ansi-"@ + crate::chars::dec_str(code as nat) + ")"@,
        Color::Rgb { r, g, b } => seq!['#'] + crate::chars::hex_str2(r as nat)
            + crate::chars::hex_str2(g as nat) + crate::chars::hex_str2(b as nat),
    }
}

impl Color {
    /// The CSS color expression for this color.
    pub fn to_css(&self) -> (r: String)
        ensures
            r@ == css_of(*self),
    {
        match *self {
            Color::Default => "inherit".to_owned(),
            Color::Black => "#000000".to_owned(),
            Color::Red => "#cd0000".to_owned(),
            Color::Green => "#00cd00".to_owned(),
            Color::Yellow => "#cdcd00".to_owned(),
            Color::Blue => "#0000cd".to_owned(),
            Color::Magenta => "#cd00cd".to_owned(),
            Color::Cyan => "#00cdcd".to_owned(),
            Color::White => "#e5e5e5".to_owned(),
            Color::BrightBlack => "#7f7f7f".to_owned(),
            Color::BrightRed => "#ff0000".to_owned(),
            Color::BrightGreen => "#00ff00".to_owned(),
            Color::BrightYellow => "#ffff00".to_owned(),
            Color::BrightBlue => "#5c5cff".to_owned(),
            Color::BrightMagenta => "#ff00ff".to_owned(),
            Color::BrightCyan => "#00ffff".to_owned(),
            Color::BrightWhite => "#ffffff".to_owned(),
            Color::Ansi256(code) => {
                let mut v: Vec<char> = crate::chars::str_chars("var(--ansi-");
                crate::chars::push_dec_u64(&mut v, code as u64);
                v.push(')');
                let r = crate::chars::chars_string(&v);
                proof {
                    reveal_strlit(")");
                    assert(r@ =~= css_of(*self));
                }
                r
            },
            Color::Rgb { r: cr, g: cg, b: cb } => {
                let mut v: Vec<char> = Vec::new();
                v.push('#');
                crate::chars::push_hex2(&mut v, cr);
                crate::chars::push_hex2(&mut v, cg);
                crate::chars::push_hex2(&mut v, cb);
                let r = crate::chars::chars_string(&v);
                proof {
                    assert(r@ =~= css_of(*self));
                }
                r
            },
        }
    }
}

/// Append one CSS fragment to an accumulated inline-style string, with a
/// `"; "` separator between fragments.
pub open spec fn css_join(acc: Seq<char>, frag: Seq<char>) -> Seq<char> {
    if acc.len() == 0 {
        frag
    } else {
        acc + "; "@ + frag
    }
}

/// The CSS inline-style expression for a style: color, background-color, and
/// the flag properties, in a fixed order, joined by `"; "`.
pub open spec fn style_css_of(st: Style) -> Seq<char> {
    let a0 = Seq::<char>::empty();
    let a1 = if st.foreground is Some {
        css_join(a0, "color: "@ + css_of(st.foreground->0))
    } else {
        a0
    };
    let a2 = if st.background is Some {
        css_join(a1, "background-color: "@ + css_of(st.background->0))
    } else {
        a1
    };
    let a3 = if st.bold {
        css_join(a2, "font-weight: bold"@)
    } else {
        a2
    };
    let a4 = if st.italic {
        css_join(a3, "font-style: italic"@)
    } else {
        a3
    };
    let a5 = if st.underline {
        css_join(a4, "text-decoration: underline"@)
    } else {
        a4
    };
    let a6 = if st.strikethrough {
        css_join(a5, "text-decoration: line-through"@)
    } else {
        a5
    };
    if st.dim {
        css_join(a6, "opacity: 0.5"@)
    } else {
        a6
    }
}

fn css_push(acc: &mut String, frag: &str)
    ensures
        final(acc)@ == css_join(old(acc)@, frag@),
{
    if acc.as_str().is_empty() {
        let mut r = String::new();
        r.append(frag);
        proof {
            assert(Seq::<char>::empty() + frag@ =~= frag@);
        }
        *acc = r;
    } else {
        acc.append("; ");
        acc.append(frag);
    }
}

impl Style {
    /// The CSS inline-style expression for this style.
    pub fn to_css(&self) -> (r: String)
        ensures
            r@ == style_css_of(*self),
    {
        let mut acc = String::new();
        match self.foreground {
            Some(c) => {
                let mut f = String::new();
                f.append("color: ");
                let cs = c.to_css();
                f.append(cs.as_str());
                proof {
                    assert(Seq::<char>::empty() + "color: "@ + css_of(c) =~= "color: "@ + css_of(
                        c,
                    ));
                }
                css_push(&mut acc, f.as_str());
            },
            None => {},
        }
        match self.background {
            Some(c) => {
                let mut f = String::new();
                f.append("background-color: ");
                let cs = c.to_css();
                f.append(cs.as_str());
                proof {
                    assert(Seq::<char>::empty() + "background-color: "@ + css_of(c)
                        =~= "background-color: "@ + css_of(c));
                }
                css_push(&mut acc, f.as_str());
            },
            None => {},
        }
        if self.bold {
            css_push(&mut acc, "font-weight: bold");
        }
        if self.italic {
            css_push(&mut acc, "font-style: italic");
        }
        if self.underline {
            css_push(&mut acc, "text-decoration: underline");
        }
        if self.strikethrough {
            css_push(&mut acc, "text-decoration: line-through");
        }
        if self.dim {
            css_push(&mut acc, "opacity: 0.5");
        }
        acc
    }
}

/// Combining styles is associative: the boolean flags accumulate by
/// disjunction, and each color resolves to the right-most explicitly set
/// value, whichever way a chain of combinations is grouped.
pub proof fn lemma_combine_associative(a: Style, b: Style, c: Style)
    ensures
        combined(combined(a, b), c) == combined(a, combined(b, c)),
{
}

/// In a chain of combinations, each color resolves to the right-most
/// explicitly set value, and a flag is set exactly when some style in the
/// chain sets it.
pub proof fn lemma_combine_rightmost(a: Style, b: Style, c: Style)
    ensures
        combined(combined(a, b), c).foreground == (if c.foreground is Some {
            c.foreground
        } else if b.foreground is Some {
            b.foreground
        } else {
            a.foreground
        }),
        combined(combined(a, b), c).background == (if c.background is Some {
            c.background
        } else if b.background is Some {
            b.background
        } else {
            a.background
        }),
        combined(combined(a, b), c).bold == (a.bold || b.bold || c.bold),
{
}

} // verus!
