//! The console: color-capability detection, downsampling-aware ANSI
//! emission, and a buffered output sink that the surrounding program
//! flushes to a real terminal.

use vstd::prelude::*;

verus! {

use vstd::string::StringExecFns;
use crate::style::{
    Color,
    Style,
    empty_style,
    sgr_fg_of,
    sgr_bg_of,
    to_standard_spec,
    to_ansi256_spec,
    named_code,
};
use crate::text::{
    Span,
    Text,
    spans_plain,
    spans_cells,
    plain_cells,
    line_fits,
    is_slice_of,
    keep_solid,
};
use crate::renderable::{Renderable, Segment, segments_cells};
use crate::bidi::TextDirection;
use crate::chars::{str_chars, chars_string, contains_seq, contains_sub, dec_str, push_dec_u64};

/// Rendering context passed to renderable objects.
#[derive(Debug, Clone)]
pub struct RenderContext {
    /// Available width for rendering.
    pub width: usize,
    /// Available height for rendering (optional).
    pub height: Option<usize>,
    /// Base text direction.
    pub direction: TextDirection,
}

impl Default for RenderContext {
    /// The default context: eighty columns, no height limit, automatic
    /// direction.
    fn default() -> (r: RenderContext)
        ensures
            r.width == 80,
            r.height is None,
            r.direction is Auto,
    {
        RenderContext { width: 80, height: None, direction: TextDirection::Auto }
    }
}

/// Color system capabilities, ordered from none to full 24-bit color.
#[derive(Debug, Clone, Copy, PartialEq, Eq, Default, Structural)]
pub enum ColorSystem {
    /// No color support
    NoColor,
    /// Standard 8/16 colors
    #[default]
    Standard,
    /// 256 colors
    EightBit,
    /// True color (16 million colors)
    TrueColor,
    /// Windows legacy console, rendered like the standard system
    Windows,
}

/// The attribute SGR sequences of a style, in a fixed order: bold, dim,
/// italic, underline, blink, reverse, hidden, strikethrough.
pub open spec fn attr_codes(st: Style) -> Seq<char> {
    let a1: Seq<char> = if st.bold {
        "\u{1b}[1m"@
    } else {
        Seq::empty()
    };
    let a2: Seq<char> = if st.dim {
        a1 + "\u{1b}[2m"@
    } else {
        a1
    };
    let a3: Seq<char> = if st.italic {
        a2 + "\u{1b}[3m"@
    } else {
        a2
    };
    let a4: Seq<char> = if st.underline {
        a3 + "\u{1b}[4m"@
    } else {
        a3
    };
    let a5: Seq<char> = if st.blink {
        a4 + "\u{1b}[5m"@
    } else {
        a4
    };
    let a6: Seq<char> = if st.reverse {
        a5 + "\u{1b}[7m"@
    } else {
        a5
    };
    let a7: Seq<char> = if st.hidden {
        a6 + "\u{1b}[8m"@
    } else {
        a6
    };
    if st.strikethrough {
        a7 + "\u{1b}[9m"@
    } else {
        a7
    }
}

/// The escape sequence for one concrete color in 256-color or true-color
/// form: named colors use their palette code, palette entries `38;5;n`, and
/// RGB values `38;2;r;g;b`, with `48` for backgrounds and `39`/`49` for the
/// default color.
pub open spec fn color_code(c: Color, fg: bool) -> Seq<char> {
    match c {
        Color::Default => if fg {
            "\u{1b}[39m"@
        } else {
            "\u{1b}[49m"@
        },
        Color::Ansi256(n) => (if fg {
            "\u{1b}[38;5;"@
        } else {
            "\u{1b}[48;5;"@
        }) + dec_str(n as nat) + "m"@,
        Color::Rgb { r, g, b } => (if fg {
            "\u{1b}[38;2;"@
        } else {
            "\u{1b}[48;2;"@
        }) + dec_str(r as nat) + ";"@ + dec_str(g as nat) + ";"@ + dec_str(b as nat) + "m"@,
        _ => (if fg {
            "\u{1b}[38;5;"@
        } else {
            "\u{1b}[48;5;"@
        }) + dec_str(named_code(c)) + "m"@,
    }
}

/// The foreground sequence a color system emits for a color: the standard
/// systems downsample to sixteen colors and use the short SGR forms, the
/// 256-color system downsamples to the palette, and true color emits the
/// color as it stands.
pub open spec fn fg_code(c: Color, system: ColorSystem) -> Seq<char> {
    match system {
        ColorSystem::Standard => sgr_fg_of(to_standard_spec(c)),
        ColorSystem::Windows => sgr_fg_of(to_standard_spec(c)),
        ColorSystem::EightBit => color_code(to_ansi256_spec(c), true),
        ColorSystem::TrueColor => color_code(c, true),
        ColorSystem::NoColor => Seq::empty(),
    }
}

/// The background sequence a color system emits for a color.
pub open spec fn bg_code(c: Color, system: ColorSystem) -> Seq<char> {
    match system {
        ColorSystem::Standard => sgr_bg_of(to_standard_spec(c)),
        ColorSystem::Windows => sgr_bg_of(to_standard_spec(c)),
        ColorSystem::EightBit => color_code(to_ansi256_spec(c), false),
        ColorSystem::TrueColor => color_code(c, false),
        ColorSystem::NoColor => Seq::empty(),
    }
}

/// The bytes emitted for one styled run: under no color, or for an empty
/// style, exactly the text; otherwise foreground code, background code,
/// attribute codes, the text, and exactly one reset.
pub open spec fn span_ansi_of(
    st: Style,
    text: Seq<char>,
    system: ColorSystem,
    enabled: bool,
) -> Seq<char> {
    if !enabled || system is NoColor || st == empty_style() {
        text
    } else {
        (if st.foreground is Some {
            fg_code(st.foreground->0, system)
        } else {
            Seq::empty()
        }) + (if st.background is Some {
            bg_code(st.background->0, system)
        } else {
            Seq::empty()
        }) + attr_codes(st) + text + "\u{1b}[0m"@
    }
}

/// The bytes emitted for a list of spans.
pub open spec fn spans_ansi_of(ss: Seq<Span>, system: ColorSystem, enabled: bool) -> Seq<char>
    decreases ss.len(),
{
    if ss.len() == 0 {
        Seq::empty()
    } else {
        span_ansi_of(ss[0].style, ss[0].text@, system, enabled) + spans_ansi_of(
            ss.drop_first(),
            system,
            enabled,
        )
    }
}

/// The bytes emitted for one segment: its spans, then a newline if the
/// segment carries one.
pub open spec fn segment_ansi_of(seg: Segment, system: ColorSystem, enabled: bool) -> Seq<char> {
    spans_ansi_of(seg.spans@, system, enabled) + (if seg.newline {
        seq!['\n']
    } else {
        Seq::<char>::empty()
    })
}

/// The bytes emitted for a list of segments.
pub open spec fn segments_ansi_of(
    segs: Seq<Segment>,
    system: ColorSystem,
    enabled: bool,
) -> Seq<char>
    decreases segs.len(),
{
    if segs.len() == 0 {
        Seq::empty()
    } else {
        segment_ansi_of(segs[0], system, enabled) + segments_ansi_of(
            segs.drop_first(),
            system,
            enabled,
        )
    }
}

fn color_code_string(c: Color, fg: bool) -> (r: String)
    ensures
        r@ == color_code(c, fg),
{
    match c {
        Color::Default => {
            if fg {
                "\u{1b}[39m".to_owned()
            } else {
                "\u{1b}[49m".to_owned()
            }
        },
        Color::Ansi256(n) => {
            let mut v: Vec<char> = if fg {
                str_chars("\u{1b}[38;5;")
            } else {
                str_chars("\u{1b}[48;5;")
            };
            push_dec_u64(&mut v, n as u64);
            v.push('m');
            let r = chars_string(&v);
            proof {
                reveal_strlit("m");
                assert(r@ =~= color_code(c, fg));
            }
            r
        },
        Color::Rgb { r: cr, g: cg, b: cb } => {
            let mut v: Vec<char> = if fg {
                str_chars("\u{1b}[38;2;")
            } else {
                str_chars("\u{1b}[48;2;")
            };
            push_dec_u64(&mut v, cr as u64);
            v.push(';');
            push_dec_u64(&mut v, cg as u64);
            v.push(';');
            push_dec_u64(&mut v, cb as u64);
            v.push('m');
            let r = chars_string(&v);
            proof {
                reveal_strlit("m");
                reveal_strlit(";");
                assert(r@ =~= color_code(c, fg));
            }
            r
        },
        _ => {
            let code = match c {
                Color::Black => 0u8,
                Color::Red => 1,
                Color::Green => 2,
                Color::Yellow => 3,
                Color::Blue => 4,
                Color::Magenta => 5,
                Color::Cyan => 6,
                Color::White => 7,
                Color::BrightBlack => 8,
                Color::BrightRed => 9,
                Color::BrightGreen => 10,
                Color::BrightYellow => 11,
                Color::BrightBlue => 12,
                Color::BrightMagenta => 13,
                Color::BrightCyan => 14,
                _ => 15,
            };
            let mut v: Vec<char> = if fg {
                str_chars("\u{1b}[38;5;")
            } else {
                str_chars("\u{1b}[48;5;")
            };
            push_dec_u64(&mut v, code as u64);
            v.push('m');
            let r = chars_string(&v);
            proof {
                reveal_strlit("m");
                assert(r@ =~= color_code(c, fg));
            }
            r
        },
    }
}

fn fg_code_string(c: Color, system: ColorSystem) -> (r: String)
    ensures
        r@ == fg_code(c, system),
{
    match system {
        ColorSystem::Standard | ColorSystem::Windows => c.to_standard().to_sgr_fg(),
        ColorSystem::EightBit => color_code_string(c.to_ansi256(), true),
        ColorSystem::TrueColor => color_code_string(c, true),
        ColorSystem::NoColor => String::new(),
    }
}

fn bg_code_string(c: Color, system: ColorSystem) -> (r: String)
    ensures
        r@ == bg_code(c, system),
{
    match system {
        ColorSystem::Standard | ColorSystem::Windows => c.to_standard().to_sgr_bg(),
        ColorSystem::EightBit => color_code_string(c.to_ansi256(), false),
        ColorSystem::TrueColor => color_code_string(c, false),
        ColorSystem::NoColor => String::new(),
    }
}

/// Emit the bytes for one styled run: under no color, or for an empty
/// style, exactly the plain text; otherwise the color and attribute codes,
/// the text, and exactly one reset sequence.
fn attrs_string(st: &Style) -> (r: String)
    ensures
        r@ == attr_codes(*st),
{
    let ghost a1: Seq<char> = if st.bold {
        "\u{1b}[1m"@
    } else {
        Seq::empty()
    };
    let ghost a2: Seq<char> = if st.dim {
        a1 + "\u{1b}[2m"@
    } else {
        a1
    };
    let ghost a3: Seq<char> = if st.italic {
        a2 + "\u{1b}[3m"@
    } else {
        a2
    };
    let ghost a4: Seq<char> = if st.underline {
        a3 + "\u{1b}[4m"@
    } else {
        a3
    };
    let ghost a5: Seq<char> = if st.blink {
        a4 + "\u{1b}[5m"@
    } else {
        a4
    };
    let ghost a6: Seq<char> = if st.reverse {
        a5 + "\u{1b}[7m"@
    } else {
        a5
    };
    let ghost a7: Seq<char> = if st.hidden {
        a6 + "\u{1b}[8m"@
    } else {
        a6
    };
    let mut out = String::new();
    if st.bold {
        out.append("\u{1b}[1m");
    }
    proof {
        assert(out@ =~= a1);
    }
    if st.dim {
        out.append("\u{1b}[2m");
    }
    proof {
        assert(out@ =~= a2);
    }
    if st.italic {
        out.append("\u{1b}[3m");
    }
    proof {
        assert(out@ =~= a3);
    }
    if st.underline {
        out.append("\u{1b}[4m");
    }
    proof {
        assert(out@ =~= a4);
    }
    if st.blink {
        out.append("\u{1b}[5m");
    }
    proof {
        assert(out@ =~= a5);
    }
    if st.reverse {
        out.append("\u{1b}[7m");
    }
    proof {
        assert(out@ =~= a6);
    }
    if st.hidden {
        out.append("\u{1b}[8m");
    }
    proof {
        assert(out@ =~= a7);
    }
    if st.strikethrough {
        out.append("\u{1b}[9m");
    }
    proof {
        assert(out@ =~= attr_codes(*st));
    }
    out
}

pub fn span_ansi(span: &Span, system: ColorSystem, enabled: bool) -> (r: String)
    ensures
        r@ == span_ansi_of(span.style, span.text@, system, enabled),
{
    if !enabled || system == ColorSystem::NoColor || span.style.is_empty() {
        return span.text.clone();
    }
    let ghost st = span.style;
    let ghost fgp: Seq<char> = if st.foreground is Some {
        fg_code(st.foreground->0, system)
    } else {
        Seq::empty()
    };
    let ghost bgp: Seq<char> = if st.background is Some {
        bg_code(st.background->0, system)
    } else {
        Seq::empty()
    };
    let mut out = String::new();
    match span.style.foreground {
        Some(c) => {
            let s = fg_code_string(c, system);
            out.append(s.as_str());
        },
        None => {},
    }
    proof {
        assert(out@ =~= fgp);
    }
    match span.style.background {
        Some(c) => {
            let s = bg_code_string(c, system);
            out.append(s.as_str());
        },
        None => {},
    }
    proof {
        assert(out@ =~= fgp + bgp);
    }
    let attrs = attrs_string(&span.style);
    out.append(attrs.as_str());
    out.append(span.text.as_str());
    out.append("\u{1b}[0m");
    proof {
        assert(out@ =~= fgp + bgp + attr_codes(st) + span.text@ + "\u{1b}[0m"@);
    }
    out
}

/// Where a console's bytes are headed once the surrounding program flushes
/// them.
#[derive(Debug, Clone, Copy, PartialEq, Eq, Structural)]
pub enum OutputTarget {
    /// Standard output
    Stdout,
    /// Standard error
    Stderr,
    /// Kept in memory, for capture and testing
    Buffer,
}

/// A `COLORTERM` value that names true color.
pub open spec fn colorterm_truecolor(colorterm: Option<&str>) -> bool {
    match colorterm {
        Some(ct) => contains_seq(ct@, "truecolor"@) || contains_seq(ct@, "24bit"@),
        None => false,
    }
}

/// A `TERM` value that names 256 colors.
pub open spec fn term_256color(term: Option<&str>) -> bool {
    match term {
        Some(t) => contains_seq(t@, "256color"@),
        None => false,
    }
}

/// Detect color support from the environment values the caller read:
/// `NO_COLOR` wins, then `FORCE_COLOR`, then a `COLORTERM` naming true
/// color, then a `TERM` naming 256 colors, and otherwise standard color.
pub fn detect_color_system(
    no_color: bool,
    force_color: bool,
    colorterm: Option<&str>,
    term: Option<&str>,
) -> (r: (bool, ColorSystem))
    ensures
        r == (if no_color {
            (false, ColorSystem::NoColor)
        } else if force_color {
            (true, ColorSystem::Standard)
        } else if colorterm_truecolor(colorterm) {
            (true, ColorSystem::TrueColor)
        } else if term_256color(term) {
            (true, ColorSystem::EightBit)
        } else {
            (true, ColorSystem::Standard)
        }),
{
    if no_color {
        return (false, ColorSystem::NoColor);
    }
    if force_color {
        return (true, ColorSystem::Standard);
    }
    match colorterm {
        Some(ct) => {
            let v = str_chars(ct);
            if contains_sub(&v, "truecolor") || contains_sub(&v, "24bit") {
                return (true, ColorSystem::TrueColor);
            }
        },
        None => {},
    }
    match term {
        Some(t) => {
            let v = str_chars(t);
            if contains_sub(&v, "256color") {
                return (true, ColorSystem::EightBit);
            }
        },
        None => {},
    }
    (true, ColorSystem::Standard)
}

/// Segments that render the given cells correctly at a width: at least
/// one full line; each line width-bounded (or a single unbreakable word),
/// newline-free, and taken verbatim from the cells; and no visible cell
/// lost across the lines.
pub open spec fn rendered_lines_ok(
    segs: Seq<Segment>,
    cells: Seq<(char, Style)>,
    width: nat,
) -> bool {
    &&& segs.len() >= 1
    &&& forall|i: int| 0 <= i < segs.len() ==> (#[trigger] segs[i]).newline
    &&& forall|i: int| 0 <= i < segs.len() ==> line_fits((#[trigger] segs[i]).spans@, width)
    &&& forall|i: int|
        0 <= i < segs.len() ==> is_slice_of(spans_cells((#[trigger] segs[i]).spans@), cells)
    &&& keep_solid(segments_cells(segs)) == keep_solid(cells)
    &&& crate::text::rows_lay_out(crate::renderable::segment_rows(segs), cells)
    &&& forall|i: int, k: int|
        0 <= i < segs.len() && 0 <= k < segs[i].spans@.len() ==> (
        #[trigger] segs[i].spans@[k]).text@.len() > 0
    &&& forall|i: int, k: int|
        0 <= i < segs.len() && 0 <= k < segs[i].spans@.len() - 1 ==> (
        #[trigger] segs[i].spans@[k]).style != segs[i].spans@[k + 1].style
    &&& ((forall|m: int| 0 <= m < cells.len() ==> (#[trigger] cells[m]).0 != '\n')
        && crate::chars::display_width(crate::text::cells_chars(cells)) <= width) ==> (segs.len()
        == 1 && spans_cells(segs[0].spans@) == cells)
}

/// The width a console renders at: its fixed width, or eighty columns.
pub open spec fn console_width(c: Console) -> nat {
    match c.width {
        Some(w) => w as nat,
        None => 80,
    }
}

/// A buffered rich console: it renders markup and renderables into ANSI
/// bytes held in an internal buffer, which the surrounding program writes
/// to the terminal.
#[derive(Debug)]
pub struct Console {
    /// Where the buffered bytes are headed
    pub target: OutputTarget,
    /// Fixed terminal width, if one was set
    pub width: Option<usize>,
    /// Whether color output is forced
    pub force_color: bool,
    /// Whether color is enabled
    pub color_enabled: bool,
    /// The color system in use
    pub color_system: ColorSystem,
    /// Whether markup parsing is enabled
    pub markup: bool,
    /// Whether emoji shortcode translation is enabled
    pub emoji: bool,
    /// Whether soft word wrapping is enabled
    pub soft_wrap: bool,
    /// Whether rendered segments are being recorded
    pub record: bool,
    /// The recorded segments
    pub recording: Vec<Segment>,
    /// The buffered output bytes
    pub buffer: String,
}

impl Console {
    /// Create a console for standard output. Color capability starts at the
    /// standard system; the surrounding program may refine it with
    /// `detect_color_system` and the `color_system` builder.
    pub fn new() -> (c: Console)
        ensures
            c.target is Stdout,
            c.width is None,
            c.color_enabled,
            c.color_system is Standard,
            c.markup,
            !c.record,
            c.buffer@.len() == 0,
    {
        Console {
            target: OutputTarget::Stdout,
            width: None,
            force_color: false,
            color_enabled: true,
            color_system: ColorSystem::Standard,
            markup: true,
            emoji: true,
            soft_wrap: true,
            record: false,
            recording: Vec::new(),
            buffer: String::new(),
        }
    }

    /// Create a console for standard error.
    pub fn stderr() -> (c: Console)
        ensures
            c.target is Stderr,
            c.width is None,
            c.color_enabled,
            c.color_system is Standard,
            c.markup,
            c.buffer@.len() == 0,
    {
        Console { target: OutputTarget::Stderr, ..Console::new() }
    }

    /// Create a console that captures output in memory, for testing:
    /// eighty columns, forced true color.
    pub fn capture() -> (c: Console)
        ensures
            c.target is Buffer,
            c.width == Some(80usize),
            c.force_color,
            c.color_enabled,
            c.color_system is TrueColor,
            c.markup,
            c.buffer@.len() == 0,
    {
        Console {
            target: OutputTarget::Buffer,
            width: Some(80),
            force_color: true,
            color_enabled: true,
            color_system: ColorSystem::TrueColor,
            markup: true,
            emoji: true,
            soft_wrap: true,
            record: false,
            recording: Vec::new(),
            buffer: String::new(),
        }
    }

    /// The bytes buffered so far. Every console buffers — the surrounding
    /// program flushes stdout and stderr consoles — so this returns the
    /// pending bytes for any target, not only for a capture console.
    pub fn get_captured_output(&self) -> (r: String)
        ensures
            r@ == self.buffer@,
    {
        self.buffer.clone()
    }

    /// Set a fixed terminal width.
    pub fn width(self, width: usize) -> (c: Console)
        ensures
            c == (Console { width: Some(width), ..self }),
    {
        Console { width: Some(width), ..self }
    }

    /// Force color output even when not detected; a console that had no
    /// color moves up to the standard system.
    pub fn force_color(self, force: bool) -> (c: Console)
        ensures
            c.force_color == force,
            force ==> c.color_enabled,
            force && self.color_system is NoColor ==> c.color_system is Standard,
            force && !(self.color_system is NoColor) ==> c.color_system == self.color_system,
            !force ==> c == (Console { force_color: false, ..self }),
    {
        if force {
            let system = if self.color_system == ColorSystem::NoColor {
                ColorSystem::Standard
            } else {
                self.color_system
            };
            Console { force_color: true, color_enabled: true, color_system: system, ..self }
        } else {
            Console { force_color: false, ..self }
        }
    }

    /// Set the color system explicitly; any system but `NoColor` enables
    /// color. Every other console field is kept.
    pub fn color_system(self, system: ColorSystem) -> (c: Console)
        ensures
            c.color_system == system,
            c.color_enabled == !(system is NoColor),
            c.width == self.width,
            c.target == self.target,
            c.markup == self.markup,
            c.buffer == self.buffer,
            c.force_color == self.force_color,
            c.emoji == self.emoji,
            c.soft_wrap == self.soft_wrap,
            c.record == self.record,
            c.recording == self.recording,
    {
        let enabled = system != ColorSystem::NoColor;
        Console { color_system: system, color_enabled: enabled, ..self }
    }

    /// Enable or disable markup parsing.
    pub fn markup(self, enabled: bool) -> (c: Console)
        ensures
            c == (Console { markup: enabled, ..self }),
    {
        Console { markup: enabled, ..self }
    }

    /// Enable or disable emoji shortcode translation.
    pub fn emoji(self, enabled: bool) -> (c: Console)
        ensures
            c == (Console { emoji: enabled, ..self }),
    {
        Console { emoji: enabled, ..self }
    }

    /// Enable or disable soft word wrapping.
    pub fn soft_wrap(self, enabled: bool) -> (c: Console)
        ensures
            c == (Console { soft_wrap: enabled, ..self }),
    {
        Console { soft_wrap: enabled, ..self }
    }

    /// Enable or disable recording of rendered segments.
    pub fn record(self, enabled: bool) -> (c: Console)
        ensures
            c == (Console { record: enabled, ..self }),
    {
        Console { record: enabled, ..self }
    }

    /// Start recording rendered segments, clearing earlier recordings.
    pub fn start_recording(&mut self)
        ensures
            final(self).record,
            final(self).recording@.len() == 0,
            final(self).buffer == old(self).buffer,
    {
        self.record = true;
        self.recording = Vec::new();
    }

    /// Stop recording rendered segments.
    pub fn stop_recording(&mut self)
        ensures
            *final(self) == (Console { record: false, ..*old(self) }),
    {
        self.record = false;
    }

    /// The width used for rendering: the fixed width, or eighty columns.
    pub fn get_width(&self) -> (w: usize)
        ensures
            w == (match self.width {
                Some(x) => x,
                None => 80usize,
            }),
    {
        match self.width {
            Some(w) => w,
            None => 80,
        }
    }

    /// Append the ANSI bytes of the given segments to the buffer, recording
    /// the segments when recording is on.
    #[verifier::rlimit(100)]
    #[verifier::spinoff_prover]
    fn write_segments(&mut self, segments: &Vec<Segment>)
        ensures
            final(self).buffer@ == old(self).buffer@ + segments_ansi_of(
                segments@,
                old(self).color_system,
                old(self).color_enabled,
            ),
            final(self).color_system == old(self).color_system,
            final(self).color_enabled == old(self).color_enabled,
            final(self).width == old(self).width,
            final(self).markup == old(self).markup,
            final(self).record == old(self).record,
    {
        let ghost system = self.color_system;
        let ghost enabled = self.color_enabled;
        if self.record {
            let mut i: usize = 0;
            while i < segments.len()
                invariant
                    i <= segments@.len(),
                    self.color_system == old(self).color_system,
                    self.color_enabled == old(self).color_enabled,
                    self.width == old(self).width,
                    self.markup == old(self).markup,
                    self.record == old(self).record,
                    self.buffer == old(self).buffer,
                decreases segments@.len() - i,
            {
                self.recording.push(segments[i].clone());
                i = i + 1;
            }
        }
        let ghost start = self.buffer@;
        let mut i: usize = 0;
        while i < segments.len()
            invariant
                i <= segments@.len(),
                self.color_system == system,
                self.color_enabled == enabled,
                self.width == old(self).width,
                self.markup == old(self).markup,
                self.record == old(self).record,
                self.buffer@ == start + segments_ansi_of(
                    segments@.subrange(0, i as int),
                    system,
                    enabled,
                ),
            decreases segments@.len() - i,
        {
            let seg = &segments[i];
            let ghost before = self.buffer@;
            let mut j: usize = 0;
            while j < seg.spans.len()
                invariant
                    j <= seg.spans@.len(),
                    seg == &segments@[i as int],
                    i < segments@.len(),
                    self.color_system == system,
                    self.color_enabled == enabled,
                    self.width == old(self).width,
                    self.markup == old(self).markup,
                    self.record == old(self).record,
                    self.buffer@ == before + spans_ansi_of(
                        seg.spans@.subrange(0, j as int),
                        system,
                        enabled,
                    ),
                decreases seg.spans@.len() - j,
            {
                let piece = span_ansi(&seg.spans[j], self.color_system, self.color_enabled);
                self.buffer.append(piece.as_str());
                j = j + 1;
                proof {
                    lemma_spans_ansi_snoc(seg.spans@.subrange(0, j as int), system, enabled);
                    assert(seg.spans@.subrange(0, j as int).drop_last() =~= seg.spans@.subrange(
                        0,
                        j - 1,
                    ));
                }
            }
            proof {
                assert(seg.spans@.subrange(0, seg.spans@.len() as int) =~= seg.spans@);
            }
            if seg.newline {
                crate::chars::push_char(&mut self.buffer, '\n');
            }
            i = i + 1;
            proof {
                lemma_segments_ansi_snoc(segments@.subrange(0, i as int), system, enabled);
                assert(segments@.subrange(0, i as int).drop_last() =~= segments@.subrange(
                    0,
                    i - 1,
                ));
                assert(segments@.subrange(0, i as int).last() == segments@[i - 1]);
            }
        }
        proof {
            assert(segments@.subrange(0, segments@.len() as int) =~= segments@);
        }
    }

    /// Render any renderable into the buffer at the console's width.
    pub fn print_renderable<R: Renderable>(&mut self, renderable: &R)
        ensures
            old(self).buffer@.is_prefix_of(final(self).buffer@),
            final(self).color_system == old(self).color_system,
            final(self).color_enabled == old(self).color_enabled,
            final(self).width == old(self).width,
            final(self).markup == old(self).markup,
    {
        let context = RenderContext {
            width: self.get_width(),
            height: None,
            direction: TextDirection::Auto,
        };
        let segments = renderable.render(&context);
        let ghost before = self.buffer@;
        self.write_segments(&segments);
        proof {
            assert(before.is_prefix_of(self.buffer@));
        }
    }

    /// Parse markup (when enabled) and render the text into the buffer:
    /// the buffer grows by exactly the ANSI bytes of segments that lay the
    /// parsed (or, with markup off, plain) cells out at the console width.
    pub fn print(&mut self, content: &str)
        ensures
            final(self).color_system == old(self).color_system,
            final(self).color_enabled == old(self).color_enabled,
            final(self).markup == old(self).markup,
            final(self).width == old(self).width,
            old(self).markup ==> exists|segs: Seq<Segment>|
                {
                    &&& #[trigger] rendered_lines_ok(
                        segs,
                        crate::markup::markup_cells(content@),
                        console_width(*old(self)),
                    )
                    &&& final(self).buffer@ == old(self).buffer@ + segments_ansi_of(
                        segs,
                        old(self).color_system,
                        old(self).color_enabled,
                    )
                },
            !old(self).markup ==> exists|segs: Seq<Segment>|
                {
                    &&& #[trigger] rendered_lines_ok(
                        segs,
                        plain_cells(content@),
                        console_width(*old(self)),
                    )
                    &&& final(self).buffer@ == old(self).buffer@ + segments_ansi_of(
                        segs,
                        old(self).color_system,
                        old(self).color_enabled,
                    )
                },
    {
        if self.markup {
            let text = crate::markup::parse(content);
            let segments = text.render_lines(self.get_width());
            self.write_segments(&segments);
            proof {
                assert(rendered_lines_ok(
                    segments@,
                    crate::markup::markup_cells(content@),
                    console_width(*old(self)),
                ));
            }
        } else {
            let text = Text::plain(content);
            let segments = text.render_lines(self.get_width());
            self.write_segments(&segments);
            proof {
                assert(rendered_lines_ok(
                    segments@,
                    plain_cells(content@),
                    console_width(*old(self)),
                ));
            }
        }
    }

    /// Print content followed by a newline; the buffer grows by exactly
    /// the printed bytes and one newline.
    pub fn println(&mut self, content: &str)
        ensures
            final(self).color_system == old(self).color_system,
            final(self).markup == old(self).markup,
            final(self).width == old(self).width,
            old(self).markup ==> exists|segs: Seq<Segment>|
                {
                    &&& #[trigger] rendered_lines_ok(
                        segs,
                        crate::markup::markup_cells(content@),
                        console_width(*old(self)),
                    )
                    &&& final(self).buffer@ == old(self).buffer@ + segments_ansi_of(
                        segs,
                        old(self).color_system,
                        old(self).color_enabled,
                    ) + seq!['\n']
                },
            !old(self).markup ==> exists|segs: Seq<Segment>|
                {
                    &&& #[trigger] rendered_lines_ok(
                        segs,
                        plain_cells(content@),
                        console_width(*old(self)),
                    )
                    &&& final(self).buffer@ == old(self).buffer@ + segments_ansi_of(
                        segs,
                        old(self).color_system,
                        old(self).color_enabled,
                    ) + seq!['\n']
                },
    {
        self.print(content);
        let ghost mid = self.buffer@;
        self.newline();
        proof {
            assert(self.buffer@ =~= mid + seq!['\n']);
            if old(self).markup {
                let segs = choose|segs: Seq<Segment>|
                    {
                        &&& #[trigger] rendered_lines_ok(
                            segs,
                            crate::markup::markup_cells(content@),
                            console_width(*old(self)),
                        )
                        &&& mid == old(self).buffer@ + segments_ansi_of(
                            segs,
                            old(self).color_system,
                            old(self).color_enabled,
                        )
                    };
                assert(self.buffer@ =~= old(self).buffer@ + segments_ansi_of(
                    segs,
                    old(self).color_system,
                    old(self).color_enabled,
                ) + seq!['\n']);
            } else {
                let segs = choose|segs: Seq<Segment>|
                    {
                        &&& #[trigger] rendered_lines_ok(
                            segs,
                            plain_cells(content@),
                            console_width(*old(self)),
                        )
                        &&& mid == old(self).buffer@ + segments_ansi_of(
                            segs,
                            old(self).color_system,
                            old(self).color_enabled,
                        )
                    };
                assert(self.buffer@ =~= old(self).buffer@ + segments_ansi_of(
                    segs,
                    old(self).color_system,
                    old(self).color_enabled,
                ) + seq!['\n']);
            }
        }
    }

    /// Render content without markup parsing, so brackets stay literal:
    /// the buffer grows by exactly the ANSI bytes of segments laying out
    /// the content's characters unchanged, with no style attached.
    pub fn print_raw(&mut self, content: &str)
        ensures
            final(self).color_system == old(self).color_system,
            final(self).color_enabled == old(self).color_enabled,
            final(self).markup == old(self).markup,
            final(self).width == old(self).width,
            exists|segs: Seq<Segment>|
                {
                    &&& #[trigger] rendered_lines_ok(
                        segs,
                        plain_cells(content@),
                        console_width(*old(self)),
                    )
                    &&& final(self).buffer@ == old(self).buffer@ + segments_ansi_of(
                        segs,
                        old(self).color_system,
                        old(self).color_enabled,
                    )
                },
    {
        let text = Text::plain(content);
        let segments = text.render_lines(self.get_width());
        self.write_segments(&segments);
        proof {
            assert(rendered_lines_ok(
                segments@,
                plain_cells(content@),
                console_width(*old(self)),
            ));
        }
    }

    /// Render content without markup parsing, followed by a newline.
    pub fn println_raw(&mut self, content: &str)
        ensures
            final(self).color_system == old(self).color_system,
            final(self).markup == old(self).markup,
            final(self).width == old(self).width,
            exists|segs: Seq<Segment>|
                {
                    &&& #[trigger] rendered_lines_ok(
                        segs,
                        plain_cells(content@),
                        console_width(*old(self)),
                    )
                    &&& final(self).buffer@ == old(self).buffer@ + segments_ansi_of(
                        segs,
                        old(self).color_system,
                        old(self).color_enabled,
                    ) + seq!['\n']
                },
    {
        self.print_raw(content);
        let ghost mid = self.buffer@;
        self.newline();
        proof {
            assert(self.buffer@ =~= mid + seq!['\n']);
            let segs = choose|segs: Seq<Segment>|
                {
                    &&& #[trigger] rendered_lines_ok(
                        segs,
                        plain_cells(content@),
                        console_width(*old(self)),
                    )
                    &&& mid == old(self).buffer@ + segments_ansi_of(
                        segs,
                        old(self).color_system,
                        old(self).color_enabled,
                    )
                };
            assert(self.buffer@ =~= old(self).buffer@ + segments_ansi_of(
                segs,
                old(self).color_system,
                old(self).color_enabled,
            ) + seq!['\n']);
        }
    }

    /// Append an empty line to the buffer.
    pub fn newline(&mut self)
        ensures
            final(self).buffer@ == old(self).buffer@.push('\n'),
            final(self).color_system == old(self).color_system,
            final(self).markup == old(self).markup,
            final(self).width == old(self).width,
    {
        crate::chars::push_char(&mut self.buffer, '\n');
        if self.record {
            self.recording.push(Segment::empty_line());
        }
    }

    /// Draw a horizontal rule with a title across the width: the buffer
    /// grows by exactly one rendered line and a trailing newline.
    pub fn rule(&mut self, title: &str)
        ensures
            final(self).color_system == old(self).color_system,
            final(self).markup == old(self).markup,
            final(self).width == old(self).width,
            exists|segs: Seq<Segment>|
                {
                    &&& segs.len() == 1
                    &&& (#[trigger] segs[0]).newline
                    &&& final(self).buffer@ == old(self).buffer@ + segments_ansi_of(
                        segs,
                        old(self).color_system,
                        old(self).color_enabled,
                    ) + seq!['\n']
                },
    {
        let r = crate::rule::Rule::new(title);
        let line = r.render_line(self.get_width());
        let mut segments: Vec<Segment> = Vec::new();
        segments.push(line);
        self.write_segments(&segments);
        let ghost mid = self.buffer@;
        self.newline();
        proof {
            assert(self.buffer@ =~= mid + seq!['\n']);
        }
    }

    /// Render a value's debug representation, without markup parsing: the
    /// buffer grows by exactly the raw rendering of some text (the debug
    /// form, which carries no specification) and a trailing newline.
    pub fn print_debug<T: core::fmt::Debug>(&mut self, value: &T)
        ensures
            final(self).color_system == old(self).color_system,
            final(self).markup == old(self).markup,
            final(self).width == old(self).width,
            exists|content: Seq<char>, segs: Seq<Segment>|
                {
                    &&& #[trigger] rendered_lines_ok(
                        segs,
                        plain_cells(content),
                        console_width(*old(self)),
                    )
                    &&& final(self).buffer@ == old(self).buffer@ + segments_ansi_of(
                        segs,
                        old(self).color_system,
                        old(self).color_enabled,
                    ) + seq!['\n']
                },
    {
        let content = crate::inspect::debug_repr(value);
        self.println_raw(content.as_str());
    }

    /// Render any renderable to plain text, without escape codes.
    pub fn export_text<R: Renderable>(&self, renderable: &R) -> String {
        let context = RenderContext {
            width: self.get_width(),
            height: None,
            direction: TextDirection::Auto,
        };
        let segments = renderable.render(&context);
        segments_to_text(&segments)
    }
}

/// The plain text of a list of segments: each segment's text, with a
/// newline after those that carry one.
pub open spec fn segments_text_of(segs: Seq<Segment>) -> Seq<char>
    decreases segs.len(),
{
    if segs.len() == 0 {
        Seq::empty()
    } else {
        spans_plain(segs[0].spans@) + (if segs[0].newline {
            seq!['\n']
        } else {
            Seq::<char>::empty()
        }) + segments_text_of(segs.drop_first())
    }
}

/// Concatenate the plain text of segments, with newlines where marked.
pub fn segments_to_text(segments: &Vec<Segment>) -> (r: String)
    ensures
        r@ == segments_text_of(segments@),
{
    let mut out = String::new();
    let mut i: usize = 0;
    proof {
        assert(segments@.subrange(0, segments@.len() as int) =~= segments@);
        assert(out@ + segments_text_of(segments@) =~= segments_text_of(segments@));
    }
    while i < segments.len()
        invariant
            i <= segments@.len(),
            out@ + segments_text_of(segments@.subrange(i as int, segments@.len() as int))
                == segments_text_of(segments@),
        decreases segments@.len() - i,
    {
        let ghost rest = segments@.subrange(i as int, segments@.len() as int);
        let ghost out0 = out@;
        let piece = segments[i].plain_text();
        out.append(piece.as_str());
        if segments[i].newline {
            crate::chars::push_char(&mut out, '\n');
        }
        proof {
            assert(rest[0] == segments@[i as int]);
            assert(rest.drop_first() =~= segments@.subrange(i + 1, segments@.len() as int));
            let a = spans_plain(segments@[i as int].spans@);
            let b: Seq<char> = if segments@[i as int].newline {
                seq!['\n']
            } else {
                Seq::<char>::empty()
            };
            let c = segments_text_of(rest.drop_first());
            assert(segments_text_of(rest) == a + b + c);
            assert(out@ =~= out0 + a + b);
            assert((out0 + a + b) + c =~= out0 + ((a + b) + c));
        }
        i = i + 1;
    }
    proof {
        assert(segments@.subrange(segments@.len() as int, segments@.len() as int)
            =~= Seq::<Segment>::empty());
        assert(out@ + Seq::<char>::empty() =~= out@);
    }
    out
}

proof fn lemma_spans_ansi_snoc(ss: Seq<Span>, system: ColorSystem, enabled: bool)
    requires
        ss.len() > 0,
    ensures
        spans_ansi_of(ss, system, enabled) == spans_ansi_of(ss.drop_last(), system, enabled)
            + span_ansi_of(ss.last().style, ss.last().text@, system, enabled),
    decreases ss.len(),
{
    if ss.len() == 1 {
        assert(ss.drop_first() =~= Seq::<Span>::empty());
        assert(ss.drop_last() =~= Seq::<Span>::empty());
        assert(ss[0] == ss.last());
        assert(span_ansi_of(ss[0].style, ss[0].text@, system, enabled) + Seq::<char>::empty()
            =~= span_ansi_of(ss[0].style, ss[0].text@, system, enabled));
        assert(Seq::<char>::empty() + span_ansi_of(ss[0].style, ss[0].text@, system, enabled)
            =~= span_ansi_of(ss[0].style, ss[0].text@, system, enabled));
    } else {
        lemma_spans_ansi_snoc(ss.drop_first(), system, enabled);
        assert(ss.drop_first().drop_last() =~= ss.drop_last().drop_first());
        assert(ss.drop_first().last() == ss.last());
        assert(ss.drop_last()[0] == ss[0]);
        let head = span_ansi_of(ss[0].style, ss[0].text@, system, enabled);
        let mid = spans_ansi_of(ss.drop_last().drop_first(), system, enabled);
        let tail = span_ansi_of(ss.last().style, ss.last().text@, system, enabled);
        assert(head + (mid + tail) =~= (head + mid) + tail);
    }
}

proof fn lemma_segments_ansi_snoc(segs: Seq<Segment>, system: ColorSystem, enabled: bool)
    requires
        segs.len() > 0,
    ensures
        segments_ansi_of(segs, system, enabled) == segments_ansi_of(
            segs.drop_last(),
            system,
            enabled,
        ) + segment_ansi_of(segs.last(), system, enabled),
    decreases segs.len(),
{
    if segs.len() == 1 {
        assert(segs.drop_first() =~= Seq::<Segment>::empty());
        assert(segs.drop_last() =~= Seq::<Segment>::empty());
        assert(segs[0] == segs.last());
        assert(segment_ansi_of(segs[0], system, enabled) + Seq::<char>::empty()
            =~= segment_ansi_of(segs[0], system, enabled));
        assert(Seq::<char>::empty() + segment_ansi_of(segs[0], system, enabled)
            =~= segment_ansi_of(segs[0], system, enabled));
    } else {
        lemma_segments_ansi_snoc(segs.drop_first(), system, enabled);
        assert(segs.drop_first().drop_last() =~= segs.drop_last().drop_first());
        assert(segs.drop_first().last() == segs.last());
        assert(segs.drop_last()[0] == segs[0]);
        let head = segment_ansi_of(segs[0], system, enabled);
        let mid = segments_ansi_of(segs.drop_last().drop_first(), system, enabled);
        let tail = segment_ansi_of(segs.last(), system, enabled);
        assert(head + (mid + tail) =~= (head + mid) + tail);
    }
}

/// A captured collection of segments, for testing.
#[derive(Debug)]
pub struct CapturedOutput {
    /// The captured segments
    pub segments: Vec<Segment>,
}

impl CapturedOutput {
    /// Create an empty capture.
    pub fn new() -> (c: CapturedOutput)
        ensures
            c.segments@.len() == 0,
    {
        CapturedOutput { segments: Vec::new() }
    }

    /// The plain text of the captured segments.
    pub fn plain_text(&self) -> (r: String)
        ensures
            r@ == segments_text_of(self.segments@),
    {
        segments_to_text(&self.segments)
    }
}

} // verus!
