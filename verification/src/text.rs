//! The styled text model: ordered spans of styled text, and the
//! width-bounded word wrapping that turns a text into display lines.

use vstd::prelude::*;

verus! {

use crate::chars::{
    str_chars,
    chars_string,
    chars_width,
    display_width,
    dwidth,
    wclamp,
    is_white_space,
    lemma_display_width_concat,
};
use crate::style::Style;
use crate::bidi::TextDirection;

/// Horizontal alignment options.
#[derive(Debug, Clone, Copy, PartialEq, Eq, Default, Structural)]
pub enum Alignment {
    /// Left-aligned (default)
    #[default]
    Left,
    /// Centered
    Center,
    /// Right-aligned
    Right,
}

/// Overflow behaviour when content is wider than the target width.
#[derive(Debug, Clone, Copy, PartialEq, Eq, Default, Structural)]
pub enum Overflow {
    /// Wrap at word boundaries to fit the width (default)
    #[default]
    Wrap,
    /// Render at natural width, never reflowing
    Visible,
}

/// A contiguous run of text sharing one style.
#[derive(Debug, Clone)]
pub struct Span {
    /// The text of the run
    pub text: String,
    /// The style of the run
    pub style: Style,
    /// An optional hyperlink target
    pub link: Option<String>,
}

impl Span {
    /// Create an unstyled span.
    pub fn raw(text: &str) -> (s: Span)
        ensures
            s.text@ == text@,
            s.style == crate::style::empty_style(),
            s.link is None,
    {
        Span { text: text.to_owned(), style: Style::new(), link: None }
    }

    /// Create a styled span.
    pub fn styled(text: &str, style: Style) -> (s: Span)
        ensures
            s.text@ == text@,
            s.style == style,
            s.link is None,
    {
        Span { text: text.to_owned(), style, link: None }
    }

    /// The display width of this span's text.
    pub fn width(&self) -> (w: usize)
        ensures
            w == dwidth(self.text@),
    {
        let v = str_chars(self.text.as_str());
        chars_width(&v)
    }
}

/// The concatenated text of a sequence of spans, ignoring style.
pub open spec fn spans_plain(ss: Seq<Span>) -> Seq<char>
    decreases ss.len(),
{
    if ss.len() == 0 {
        Seq::empty()
    } else {
        ss[0].text@ + spans_plain(ss.drop_first())
    }
}

/// The per-character expansion of a sequence of spans: each character of
/// each span, paired with that span's style.
pub open spec fn spans_cells(ss: Seq<Span>) -> Seq<(char, Style)>
    decreases ss.len(),
{
    if ss.len() == 0 {
        Seq::empty()
    } else {
        ss[0].text@.map_values(|c: char| (c, ss[0].style)) + spans_cells(ss.drop_first())
    }
}

/// The characters of a cell sequence.
pub open spec fn cells_chars(cs: Seq<(char, Style)>) -> Seq<char> {
    cs.map_values(|p: (char, Style)| p.0)
}

/// The cells of an unstyled text: every character paired with the empty
/// style.
pub open spec fn plain_cells(s: Seq<char>) -> Seq<(char, Style)> {
    s.map_values(|c: char| (c, crate::style::empty_style()))
}

/// No character of the sequence is whitespace.
pub open spec fn no_space(s: Seq<char>) -> bool {
    forall|i: int| 0 <= i < s.len() ==> !is_white_space(s[i])
}

/// A display line respects the width bound, except when it is a single
/// unbreakable word wider than the whole line.
pub open spec fn line_fits(ss: Seq<Span>, width: nat) -> bool {
    dwidth(spans_plain(ss)) <= width || no_space(spans_plain(ss))
}

/// The fold that computes the widest newline-separated line: the running
/// width of the current line and the widest line seen so far.
pub open spec fn natural_width_go(s: Seq<char>, line_w: nat, max_w: nat) -> nat
    decreases s.len(),
{
    if s.len() == 0 {
        if line_w > max_w {
            line_w
        } else {
            max_w
        }
    } else if s[0] == '\n' {
        natural_width_go(
            s.drop_first(),
            0,
            if line_w > max_w {
                line_w
            } else {
                max_w
            },
        )
    } else {
        natural_width_go(s.drop_first(), line_w + crate::chars::cwidth(s[0]), max_w)
    }
}

/// The display width of the widest newline-separated line of a text.
pub open spec fn natural_width(s: Seq<char>) -> nat {
    natural_width_go(s, 0, 0)
}

/// Styled text: an ordered sequence of spans together with its layout
/// options.
#[derive(Debug, Clone)]
pub struct Text {
    /// The styled runs, in order
    pub spans: Vec<Span>,
    /// Horizontal alignment
    pub alignment: Alignment,
    /// Overflow behaviour
    pub overflow: Overflow,
    /// Base text direction
    pub direction: TextDirection,
}

/// The plain text of a text value: its spans' texts concatenated.
pub open spec fn text_plain(t: Text) -> Seq<char> {
    spans_plain(t.spans@)
}

pub proof fn lemma_spans_plain_push(ss: Seq<Span>, s: Span)
    ensures
        spans_plain(ss.push(s)) == spans_plain(ss) + s.text@,
    decreases ss.len(),
{
    if ss.len() == 0 {
        let p = ss.push(s);
        assert(p.drop_first() =~= Seq::<Span>::empty());
        assert(p[0] == s);
        assert(spans_plain(p) == s.text@ + spans_plain(Seq::<Span>::empty()));
        assert(s.text@ + Seq::<char>::empty() =~= s.text@);
        assert(spans_plain(ss) + s.text@ =~= s.text@);
    } else {
        assert(ss.push(s).drop_first() =~= ss.drop_first().push(s));
        lemma_spans_plain_push(ss.drop_first(), s);
        assert(ss[0].text@ + (spans_plain(ss.drop_first()) + s.text@) =~= (ss[0].text@
            + spans_plain(ss.drop_first())) + s.text@);
    }
}

proof fn lemma_spans_cells_push(ss: Seq<Span>, s: Span)
    ensures
        spans_cells(ss.push(s)) == spans_cells(ss) + s.text@.map_values(|c: char| (c, s.style)),
    decreases ss.len(),
{
    if ss.len() == 0 {
        let p = ss.push(s);
        assert(p.drop_first() =~= Seq::<Span>::empty());
        assert(p[0] == s);
        assert(spans_cells(p) == s.text@.map_values(|c: char| (c, s.style)) + spans_cells(
            Seq::<Span>::empty(),
        ));
        assert(s.text@.map_values(|c: char| (c, s.style)) + Seq::<(char, Style)>::empty()
            =~= s.text@.map_values(|c: char| (c, s.style)));
        assert(spans_cells(ss) + s.text@.map_values(|c: char| (c, s.style)) =~= s.text@.map_values(
            |c: char| (c, s.style),
        ));
    } else {
        assert(ss.push(s).drop_first() =~= ss.drop_first().push(s));
        lemma_spans_cells_push(ss.drop_first(), s);
        assert(ss[0].text@.map_values(|c: char| (c, ss[0].style)) + (spans_cells(ss.drop_first())
            + s.text@.map_values(|c: char| (c, s.style))) =~= (ss[0].text@.map_values(
            |c: char| (c, ss[0].style),
        ) + spans_cells(ss.drop_first())) + s.text@.map_values(|c: char| (c, s.style)));
    }
}

impl Text {
    /// Create an empty text.
    pub fn new() -> (t: Text)
        ensures
            t.spans@.len() == 0,
            text_plain(t) == Seq::<char>::empty(),
            t.alignment is Left,
            t.overflow is Wrap,
            t.direction is Auto,
    {
        Text {
            spans: Vec::new(),
            alignment: Alignment::Left,
            overflow: Overflow::Wrap,
            direction: TextDirection::Auto,
        }
    }

    /// Create a text holding one unstyled run.
    pub fn plain(text: &str) -> (t: Text)
        ensures
            text_plain(t) == text@,
            spans_cells(t.spans@) == plain_cells(text@),
            t.spans@.len() == 1,
            t.overflow is Wrap,
            t.direction is Auto,
            t.alignment is Left,
    {
        let mut t = Text::new();
        t.push(text);
        proof {
            assert(t.spans@.drop_first() =~= Seq::<Span>::empty());
            assert(t.spans@[0] == t.spans@.last());
            assert(spans_cells(t.spans@) == t.spans@[0].text@.map_values(
                |c: char| (c, t.spans@[0].style),
            ) + spans_cells(t.spans@.drop_first()));
            assert(spans_cells(t.spans@.drop_first()) == Seq::<(char, Style)>::empty());
            assert(t.spans@[0].text@.map_values(|c: char| (c, t.spans@[0].style))
                + Seq::<(char, Style)>::empty() =~= plain_cells(text@));
        }
        t
    }

    /// Create a text from a list of spans.
    pub fn from_spans(spans: Vec<Span>) -> (t: Text)
        ensures
            t.spans@ == spans@,
            t.overflow is Wrap,
            t.alignment is Left,
            t.direction is Auto,
    {
        Text {
            spans,
            alignment: Alignment::Left,
            overflow: Overflow::Wrap,
            direction: TextDirection::Auto,
        }
    }

    /// Append an unstyled run.
    pub fn push(&mut self, text: &str)
        ensures
            text_plain(*final(self)) == text_plain(*old(self)) + text@,
            final(self).spans@.len() == old(self).spans@.len() + 1,
            final(self).spans@.last().text@ == text@,
            final(self).spans@.last().style == crate::style::empty_style(),
            final(self).spans@.subrange(0, old(self).spans@.len() as int) == old(self).spans@,
            final(self).alignment == old(self).alignment,
            final(self).overflow == old(self).overflow,
            final(self).direction == old(self).direction,
    {
        let s = Span::raw(text);
        proof {
            lemma_spans_plain_push(self.spans@, s);
            assert(self.spans@.push(s).subrange(0, self.spans@.len() as int) =~= self.spans@);
        }
        self.spans.push(s);
    }

    /// Append a styled run.
    pub fn push_styled(&mut self, text: &str, style: Style)
        ensures
            text_plain(*final(self)) == text_plain(*old(self)) + text@,
            final(self).spans@.len() == old(self).spans@.len() + 1,
            final(self).spans@.last().style == style,
            final(self).spans@.last().text@ == text@,
            final(self).spans@.subrange(0, old(self).spans@.len() as int) == old(self).spans@,
            final(self).alignment == old(self).alignment,
            final(self).overflow == old(self).overflow,
            final(self).direction == old(self).direction,
    {
        let s = Span::styled(text, style);
        proof {
            lemma_spans_plain_push(self.spans@, s);
            assert(self.spans@.push(s).subrange(0, self.spans@.len() as int) =~= self.spans@);
        }
        self.spans.push(s);
    }

    /// Append an already built span.
    pub fn push_span(&mut self, span: Span)
        ensures
            final(self).spans@ == old(self).spans@.push(span),
            text_plain(*final(self)) == text_plain(*old(self)) + span.text@,
            final(self).alignment == old(self).alignment,
            final(self).overflow == old(self).overflow,
            final(self).direction == old(self).direction,
    {
        proof {
            lemma_spans_plain_push(self.spans@, span);
        }
        self.spans.push(span);
    }

    /// Disable wrapping: the text renders at its natural width.
    pub fn no_wrap(self) -> (t: Text)
        ensures
            t == (Text { overflow: Overflow::Visible, ..self }),
    {
        Text { overflow: Overflow::Visible, ..self }
    }

    /// Set the alignment.
    pub fn align(self, alignment: Alignment) -> (t: Text)
        ensures
            t == (Text { alignment, ..self }),
    {
        Text { alignment, ..self }
    }

    /// Set the base text direction.
    pub fn with_direction(self, direction: TextDirection) -> (t: Text)
        ensures
            t == (Text { direction, ..self }),
    {
        Text { direction, ..self }
    }

    /// The concatenated text of all spans, ignoring style.
    pub fn plain_text(&self) -> (r: String)
        ensures
            r@ == text_plain(*self),
    {
        let mut v: Vec<char> = Vec::new();
        let mut i: usize = 0;
        while i < self.spans.len()
            invariant
                i <= self.spans@.len(),
                v@ == spans_plain(self.spans@.subrange(0, i as int)),
            decreases self.spans@.len() - i,
        {
            let cs = str_chars(self.spans[i].text.as_str());
            let mut j: usize = 0;
            while j < cs.len()
                invariant
                    j <= cs@.len(),
                    cs@ == self.spans@[i as int].text@,
                    i < self.spans@.len(),
                    v@ == spans_plain(self.spans@.subrange(0, i as int)) + cs@.subrange(
                        0,
                        j as int,
                    ),
                decreases cs@.len() - j,
            {
                v.push(cs[j]);
                j = j + 1;
                proof {
                    assert(cs@.subrange(0, j as int) =~= cs@.subrange(0, j - 1).push(cs@[j - 1]));
                    assert(spans_plain(self.spans@.subrange(0, i as int)) + cs@.subrange(
                        0,
                        j - 1,
                    ).push(cs@[j - 1]) =~= (spans_plain(self.spans@.subrange(0, i as int))
                        + cs@.subrange(0, j - 1)).push(cs@[j - 1]));
                }
            }
            proof {
                assert(cs@.subrange(0, cs@.len() as int) =~= cs@);
                lemma_spans_plain_push(
                    self.spans@.subrange(0, i as int),
                    self.spans@[i as int],
                );
                assert(self.spans@.subrange(0, i + 1) =~= self.spans@.subrange(0, i as int).push(
                    self.spans@[i as int],
                ));
            }
            i = i + 1;
        }
        proof {
            assert(self.spans@.subrange(0, self.spans@.len() as int) =~= self.spans@);
        }
        chars_string(&v)
    }

    /// The per-character expansion of this text.
    fn cells(&self) -> (r: Vec<(char, Style)>)
        ensures
            r@ == spans_cells(self.spans@),
    {
        let mut r: Vec<(char, Style)> = Vec::new();
        let mut i: usize = 0;
        while i < self.spans.len()
            invariant
                i <= self.spans@.len(),
                r@ == spans_cells(self.spans@.subrange(0, i as int)),
            decreases self.spans@.len() - i,
        {
            let cs = str_chars(self.spans[i].text.as_str());
            let style = self.spans[i].style;
            let ghost sty = self.spans@[i as int].style;
            let mut j: usize = 0;
            while j < cs.len()
                invariant
                    j <= cs@.len(),
                    cs@ == self.spans@[i as int].text@,
                    i < self.spans@.len(),
                    style == sty,
                    sty == self.spans@[i as int].style,
                    r@ == spans_cells(self.spans@.subrange(0, i as int)) + cs@.subrange(
                        0,
                        j as int,
                    ).map_values(|c: char| (c, sty)),
                decreases cs@.len() - j,
            {
                r.push((cs[j], style));
                j = j + 1;
                proof {
                    assert(cs@.subrange(0, j as int) =~= cs@.subrange(0, j - 1).push(cs@[j - 1]));
                    assert(cs@.subrange(0, j - 1).push(cs@[j - 1]).map_values(|c: char| (c, sty))
                        =~= cs@.subrange(0, j - 1).map_values(|c: char| (c, sty)).push(
                        (cs@[j - 1], sty),
                    ));
                    assert(spans_cells(self.spans@.subrange(0, i as int)) + cs@.subrange(
                        0,
                        j - 1,
                    ).map_values(|c: char| (c, sty)).push((cs@[j - 1], sty)) =~= (spans_cells(
                        self.spans@.subrange(0, i as int),
                    ) + cs@.subrange(0, j - 1).map_values(|c: char| (c, sty))).push(
                        (cs@[j - 1], sty),
                    ));
                }
            }
            proof {
                assert(cs@.subrange(0, cs@.len() as int) =~= cs@);
                lemma_spans_cells_push(
                    self.spans@.subrange(0, i as int),
                    self.spans@[i as int],
                );
                assert(self.spans@.subrange(0, i + 1) =~= self.spans@.subrange(0, i as int).push(
                    self.spans@[i as int],
                ));
            }
            i = i + 1;
        }
        proof {
            assert(self.spans@.subrange(0, self.spans@.len() as int) =~= self.spans@);
        }
        r
    }

    /// The natural display width of this text: the widest of its newline
    /// separated lines, saturated at the machine word.
    pub fn width(&self) -> (w: usize)
        ensures
            w == wclamp(natural_width(text_plain(*self))),
    {
        let cells = self.cells();
        proof {
            lemma_spans_cells_chars(self.spans@);
        }
        let ghost chars = cells_chars(cells@);
        let mut max_w: usize = 0;
        let mut line_w: usize = 0;
        let ghost mut real_line: nat = 0;
        let ghost mut real_max: nat = 0;
        let mut i: usize = 0;
        proof {
            assert(chars.skip(0) =~= chars);
        }
        while i < cells.len()
            invariant
                i <= cells@.len(),
                chars == cells_chars(cells@),
                line_w == wclamp(real_line),
                max_w == wclamp(real_max),
                natural_width(chars) == natural_width_go(
                    chars.skip(i as int),
                    real_line,
                    real_max,
                ),
            decreases cells@.len() - i,
        {
            let (c, _) = cells[i];
            let ghost rest = chars.skip(i as int);
            proof {
                assert(rest[0] == chars[i as int]);
                assert(chars[i as int] == cells@[i as int].0);
                assert(rest.drop_first() =~= chars.skip(i + 1));
            }
            if c == '\n' {
                proof {
                    if real_line > real_max {
                        real_max = real_line;
                    }
                }
                if line_w > max_w {
                    max_w = line_w;
                }
                line_w = 0;
                proof {
                    real_line = 0;
                }
            } else {
                let cw = crate::chars::char_cell_width(c);
                if cw > usize::MAX - line_w {
                    line_w = usize::MAX;
                } else {
                    line_w = line_w + cw;
                }
                proof {
                    real_line = real_line + crate::chars::cwidth(c);
                }
            }
            i = i + 1;
        }
        proof {
            assert(chars.skip(chars.len() as int) =~= Seq::<char>::empty());
        }
        if line_w > max_w {
            max_w = line_w;
        }
        proof {
            if real_line > real_max {
                real_max = real_line;
            }
            assert(max_w == wclamp(real_max));
        }
        max_w
    }

    /// Wrap this text to the given width: lines break at whitespace, the
    /// whitespace at a break is dropped, and a single word wider than the
    /// whole width stands alone on its line. Under `Overflow::Visible` the
    /// text only breaks at explicit newlines.
    pub fn wrap(&self, width: usize) -> (r: Vec<Vec<Span>>)
        ensures
            r@.len() >= 1,
            self.overflow is Wrap ==> forall|i: int|
                0 <= i < r@.len() ==> #[trigger] line_fits(r@[i]@, width as nat),
            forall|i: int|
                0 <= i < r@.len() ==> is_slice_of(
                    spans_cells(#[trigger] r@[i]@),
                    spans_cells(self.spans@),
                ),
            forall|i: int, m: int|
                0 <= i < r@.len() && 0 <= m < spans_cells(r@[i]@).len() ==> (#[trigger] spans_cells(
                    r@[i]@,
                )[m]).0 != '\n',
            keep_solid(lines_spans_cells(r@)) == keep_solid(spans_cells(self.spans@)),
            rows_lay_out(span_rows(r@), spans_cells(self.spans@)),
            forall|i: int, k: int|
                0 <= i < r@.len() && 0 <= k < r@[i]@.len() ==> (#[trigger] r@[i]@[k]).text@.len()
                    > 0,
            forall|i: int, k: int|
                0 <= i < r@.len() && 0 <= k < r@[i]@.len() - 1 ==> (#[trigger] r@[i]@[k]).style
                    != r@[i]@[k + 1].style,
            ((forall|m: int|
                0 <= m < spans_cells(self.spans@).len() ==> (#[trigger] spans_cells(
                    self.spans@,
                )[m]).0 != '\n') && crate::chars::display_width(
                cells_chars(spans_cells(self.spans@)),
            ) <= width) ==> (r@.len() == 1 && spans_cells(r@[0]@) == spans_cells(self.spans@)),
    {
        let cells = self.cells();
        let ghost all = spans_cells(self.spans@);
        let paras = split_newlines(&cells);
        let mut lines: Vec<Vec<Span>> = Vec::new();
        let mut i: usize = 0;
        match self.overflow {
            Overflow::Visible => {
                proof {
                    assert(paras@.subrange(0, 0) =~= Seq::<Vec<(char, Style)>>::empty());
                }
                while i < paras.len()
                    invariant
                        i <= paras@.len(),
                        lines@.len() == i,
                        all == spans_cells(self.spans@),
                        cells@ == all,
                        keep_solid(lines_cells(paras@)) == keep_solid(all),
                        lines_spans_cells(lines@) == lines_cells(paras@.subrange(0, i as int)),
                        forall|k: int|
                            0 <= k < paras@.len() ==> is_slice_of(#[trigger] paras@[k]@, cells@),
                        forall|k: int|
                            0 <= k < lines@.len() ==> is_slice_of(
                                spans_cells(#[trigger] lines@[k]@),
                                all,
                            ),
                        forall|k: int|
                            0 <= k < lines@.len() ==> spans_cells(#[trigger] lines@[k]@)
                                == paras@[k]@,
                        forall|k: int, t: int|
                            0 <= k < lines@.len() && 0 <= t < lines@[k]@.len() ==> (
                            #[trigger] lines@[k]@[t]).text@.len() > 0,
                        forall|k: int, t: int|
                            0 <= k < lines@.len() && 0 <= t < lines@[k]@.len() - 1 ==> (
                            #[trigger] lines@[k]@[t]).style != lines@[k]@[t + 1].style,
                        forall|k: int, m: int|
                            0 <= k < paras@.len() && 0 <= m < paras@[k]@.len() ==> (
                            #[trigger] paras@[k]@[m]).0 != '\n',
                        forall|k: int, m: int|
                            0 <= k < lines@.len() && 0 <= m < spans_cells(lines@[k]@).len() ==> (
                            #[trigger] spans_cells(lines@[k]@)[m]).0 != '\n',
                    decreases paras@.len() - i,
                {
                    let line = cells_to_spans(&paras[i]);
                    proof {
                        assert(spans_cells(line@) == paras@[i as int]@);
                    }
                    let ghost lines0 = lines@;
                    lines.push(line);
                    i = i + 1;
                    proof {
                        lemma_lines_spans_cells_push(lines0, lines@.last());
                        assert(paras@.subrange(0, i as int) =~= paras@.subrange(0, i - 1).push(
                            paras@[i - 1],
                        ));
                        lemma_lines_cells_push(paras@.subrange(0, i - 1), paras@[i - 1]);
                    }
                }
                proof {
                    assert(paras@.subrange(0, paras@.len() as int) =~= paras@);
                    assert(span_rows(lines@) =~= cell_rows(paras@));
                    assert(rows_lay_out(span_rows(lines@), all));
                    if forall|m: int| 0 <= m < all.len() ==> (#[trigger] all[m]).0 != '\n' {
                        assert(paras@.len() == 1 && paras@[0]@ == cells@);
                        assert(spans_cells(lines@[0]@) == all);
                    }
                }
                lines
            },
            Overflow::Wrap => {
                let ghost oc = (choose|c: Seq<(int, int)>|
                    cuts_cover(c, cell_rows(paras@), cells@, cells@.len() as int));
                let ghost mut tc: Seq<(int, int)> = Seq::empty();
                let ghost mut upto: int = 0;
                proof {
                    assert(paras@.subrange(0, 0) =~= Seq::<Vec<(char, Style)>>::empty());
                    assert(keep_solid(lines_spans_cells(lines@)) =~= Seq::<(char, Style)>::empty());
                    assert(keep_solid(
                        lines_cells(Seq::<Vec<(char, Style)>>::empty()),
                    ) =~= Seq::<(char, Style)>::empty());
                    assert(rows_lay_out(cell_rows(paras@), cells@));
                    lemma_cuts_cover_shape(oc, cell_rows(paras@), cells@, cells@.len() as int);
                    lemma_cuts_cover_empty(all);
                    assert(span_rows(lines@) =~= Seq::<Seq<(char, Style)>>::empty());
                }
                while i < paras.len()
                    invariant
                        i <= paras@.len(),
                        lines@.len() >= i,
                        all == spans_cells(self.spans@),
                        cells@ == all,
                        keep_solid(lines_cells(paras@)) == keep_solid(all),
                        keep_solid(lines_spans_cells(lines@)) == keep_solid(
                            lines_cells(paras@.subrange(0, i as int)),
                        ),
                        forall|k: int|
                            0 <= k < paras@.len() ==> is_slice_of(#[trigger] paras@[k]@, cells@),
                        forall|k: int|
                            0 <= k < lines@.len() ==> #[trigger] line_fits(
                                lines@[k]@,
                                width as nat,
                            ),
                        forall|k: int|
                            0 <= k < lines@.len() ==> is_slice_of(
                                spans_cells(#[trigger] lines@[k]@),
                                all,
                            ),
                        forall|k: int, m: int|
                            0 <= k < paras@.len() && 0 <= m < paras@[k]@.len() ==> (
                            #[trigger] paras@[k]@[m]).0 != '\n',
                        forall|k: int, m: int|
                            0 <= k < lines@.len() && 0 <= m < spans_cells(lines@[k]@).len() ==> (
                            #[trigger] spans_cells(lines@[k]@)[m]).0 != '\n',
                        forall|k: int, t: int|
                            0 <= k < lines@.len() && 0 <= t < lines@[k]@.len() ==> (
                            #[trigger] lines@[k]@[t]).text@.len() > 0,
                        forall|k: int, t: int|
                            0 <= k < lines@.len() && 0 <= t < lines@[k]@.len() - 1 ==> (
                            #[trigger] lines@[k]@[t]).style != lines@[k]@[t + 1].style,
                        cuts_cover(oc, cell_rows(paras@), cells@, cells@.len() as int),
                        oc.len() == paras@.len(),
                        cuts_cover(tc, span_rows(lines@), all, upto),
                        (if i == 0 {
                            upto == 0
                        } else {
                            upto == oc[i - 1].1
                        }),
                        ((forall|m: int| 0 <= m < all.len() ==> (#[trigger] all[m]).0 != '\n')
                            && crate::chars::display_width(cells_chars(all)) <= width) ==> (
                        paras@.len() == 1 && paras@[0]@ == all && lines@.len() == i && (i > 0
                            ==> spans_cells(lines@[0]@) == all)),
                    decreases paras@.len() - i,
                {
                    let wrapped = wrap_cells(&paras[i], width);
                    let ghost lines_before = lines@.len();
                    let ghost base = lines_spans_cells(lines@);
                    let ghost piece = paras@[i as int]@;
                    let ghost ic = (choose|c: Seq<(int, int)>|
                        cuts_cover(c, cell_rows(wrapped@), piece, piece.len() as int));
                    let ghost off = oc[i as int].0;
                    let ghost upto0 = upto;
                    let mut j: usize = 0;
                    proof {
                        assert(wrapped@.subrange(0, 0) =~= Seq::<Vec<(char, Style)>>::empty());
                        assert(base + lines_cells(Seq::<Vec<(char, Style)>>::empty()) =~= base);
                        assert(rows_lay_out(cell_rows(wrapped@), piece));
                        lemma_cuts_cover_shape(ic, cell_rows(wrapped@), piece, piece.len() as int);
                        lemma_cuts_cover_facts(
                            oc,
                            cell_rows(paras@),
                            cells@,
                            cells@.len() as int,
                            i as int,
                        );
                        assert(piece == all.subrange(off, oc[i as int].1));
                        if i > 0 {
                            lemma_cuts_cover_facts(
                                oc,
                                cell_rows(paras@),
                                cells@,
                                cells@.len() as int,
                                i - 1,
                            );
                        }
                        assert(all_space_range(all, upto0, off));
                    }
                    while j < wrapped.len()
                        invariant
                            j <= wrapped@.len(),
                            lines@.len() == lines_before + j,
                            i < paras@.len(),
                            all == spans_cells(self.spans@),
                            base == lines_cells(paras@.subrange(0, i as int)) || keep_solid(base)
                                == keep_solid(lines_cells(paras@.subrange(0, i as int))),
                            lines_spans_cells(lines@) == base + lines_cells(
                                wrapped@.subrange(0, j as int),
                            ),
                            keep_solid(lines_cells(wrapped@)) == keep_solid(paras@[i as int]@),
                            is_slice_of(paras@[i as int]@, all),
                            forall|k: int|
                                0 <= k < wrapped@.len() ==> line_cells_fit(
                                    #[trigger] wrapped@[k]@,
                                    width as nat,
                                ),
                            forall|k: int|
                                0 <= k < wrapped@.len() ==> is_slice_of(
                                    #[trigger] wrapped@[k]@,
                                    paras@[i as int]@,
                                ),
                            forall|k: int|
                                0 <= k < lines@.len() ==> #[trigger] line_fits(
                                    lines@[k]@,
                                    width as nat,
                                ),
                            forall|k: int|
                                0 <= k < lines@.len() ==> is_slice_of(
                                    spans_cells(#[trigger] lines@[k]@),
                                    all,
                                ),
                            forall|m: int|
                                0 <= m < paras@[i as int]@.len() ==> (#[trigger] (paras@[
                                    i as int
                                ]@)[m]).0 != '\n',
                            forall|k: int, m: int|
                                0 <= k < lines@.len() && 0 <= m < spans_cells(lines@[k]@).len()
                                    ==> (#[trigger] spans_cells(lines@[k]@)[m]).0 != '\n',
                            forall|k: int, t: int|
                                0 <= k < lines@.len() && 0 <= t < lines@[k]@.len() ==> (
                                #[trigger] lines@[k]@[t]).text@.len() > 0,
                            forall|k: int, t: int|
                                0 <= k < lines@.len() && 0 <= t < lines@[k]@.len() - 1 ==> (
                                #[trigger] lines@[k]@[t]).style != lines@[k]@[t + 1].style,
                            cuts_cover(ic, cell_rows(wrapped@), piece, piece.len() as int),
                            ic.len() == wrapped@.len(),
                            piece == paras@[i as int]@,
                            off == oc[i as int].0,
                            piece == all.subrange(off, off + piece.len() as int),
                            off + piece.len() <= all.len(),
                            0 <= upto0 <= off,
                            all_space_range(all, upto0, off),
                            cuts_cover(tc, span_rows(lines@), all, upto),
                            (if j == 0 {
                                upto == upto0
                            } else {
                                upto == off + ic[j - 1].1
                            }),
                            ((forall|m: int|
                                0 <= m < all.len() ==> (#[trigger] all[m]).0 != '\n')
                                && crate::chars::display_width(cells_chars(all)) <= width) ==> (
                            wrapped@.len() == 1 && wrapped@[0]@ == all && lines_before == 0 && (j
                                > 0 ==> spans_cells(lines@[0]@) == all)),
                        decreases wrapped@.len() - j,
                    {
                        let line = cells_to_spans(&wrapped[j]);
                        proof {
                            lemma_cells_fit_to_line_fits(wrapped@[j as int]@, line@, width as nat);
                            lemma_slice_of_trans(wrapped@[j as int]@, paras@[i as int]@, all);
                            lemma_slice_of_no_newline(wrapped@[j as int]@, paras@[i as int]@);
                            assert(spans_cells(line@) == wrapped@[j as int]@);
                        }
                        let ghost lines0 = lines@;
                        lines.push(line);
                        j = j + 1;
                        proof {
                            lemma_lines_spans_cells_push(lines0, lines@.last());
                            assert(wrapped@.subrange(0, j as int) =~= wrapped@.subrange(
                                0,
                                j - 1,
                            ).push(wrapped@[j - 1]));
                            lemma_lines_cells_push(wrapped@.subrange(0, j - 1), wrapped@[j - 1]);
                            let wl = wrapped@[j - 1]@;
                            assert(base + (lines_cells(wrapped@.subrange(0, j - 1)) + wl) =~= (base
                                + lines_cells(wrapped@.subrange(0, j - 1))) + wl);
                            lemma_cuts_cover_facts(
                                ic,
                                cell_rows(wrapped@),
                                piece,
                                piece.len() as int,
                                j - 1,
                            );
                            assert(wrapped@[j - 1]@ == piece.subrange(ic[j - 1].0, ic[j - 1].1));
                            assert(piece.subrange(ic[j - 1].0, ic[j - 1].1) =~= all.subrange(
                                off + ic[j - 1].0,
                                off + ic[j - 1].1,
                            ));
                            if j - 1 == 0 {
                                lemma_space_range_shift(all, piece, off, 0, ic[0].0);
                            } else {
                                lemma_cuts_cover_facts(
                                    ic,
                                    cell_rows(wrapped@),
                                    piece,
                                    piece.len() as int,
                                    j - 2,
                                );
                                lemma_space_range_shift(
                                    all,
                                    piece,
                                    off,
                                    ic[j - 2].1,
                                    ic[j - 1].0,
                                );
                            }
                            assert(all_space_range(all, upto, off + ic[j - 1].0));
                            assert(span_rows(lines@) =~= span_rows(lines0).push(
                                spans_cells(line@),
                            ));
                            lemma_cuts_cover_push(
                                tc,
                                span_rows(lines0),
                                all,
                                upto,
                                off + ic[j - 1].0,
                                off + ic[j - 1].1,
                                off + ic[j - 1].1,
                            );
                            tc = tc.push((off + ic[j - 1].0, off + ic[j - 1].1));
                            upto = off + ic[j - 1].1;
                        }
                    }
                    i = i + 1;
                    proof {
                        assert(wrapped@.subrange(0, wrapped@.len() as int) =~= wrapped@);
                        lemma_keep_solid_concat(base, lines_cells(wrapped@));
                        assert(paras@.subrange(0, i as int) =~= paras@.subrange(0, i - 1).push(
                            paras@[i - 1],
                        ));
                        lemma_lines_cells_push(paras@.subrange(0, i - 1), paras@[i - 1]);
                        lemma_keep_solid_concat(
                            lines_cells(paras@.subrange(0, i - 1)),
                            paras@[i - 1]@,
                        );
                        lemma_cuts_cover_shape(ic, cell_rows(wrapped@), piece, piece.len() as int);
                        lemma_cuts_cover_facts(
                            ic,
                            cell_rows(wrapped@),
                            piece,
                            piece.len() as int,
                            ic.len() - 1,
                        );
                        lemma_space_range_shift(
                            all,
                            piece,
                            off,
                            ic.last().1,
                            piece.len() as int,
                        );
                        lemma_cuts_cover_extend(
                            tc,
                            span_rows(lines@),
                            all,
                            upto,
                            off + piece.len() as int,
                        );
                        upto = off + piece.len() as int;
                        assert(upto == oc[i - 1].1);
                    }
                }
                proof {
                    assert(paras@.subrange(0, paras@.len() as int) =~= paras@);
                    lemma_cuts_cover_shape(oc, cell_rows(paras@), cells@, cells@.len() as int);
                    lemma_cuts_cover_extend(tc, span_rows(lines@), all, upto, all.len() as int);
                    assert(rows_lay_out(span_rows(lines@), all));
                }
                lines
            },
        }
    }
}

impl Span {
    /// The number of spans in a wrapped line, summed for convenience in
    /// measurement: the display width of a whole line of spans.
    pub fn line_width(line: &Vec<Span>) -> (w: usize)
        ensures
            w == dwidth(spans_plain(line@)),
    {
        let mut v: Vec<char> = Vec::new();
        let mut i: usize = 0;
        while i < line.len()
            invariant
                i <= line@.len(),
                v@ == spans_plain(line@.subrange(0, i as int)),
            decreases line@.len() - i,
        {
            let cs = str_chars(line[i].text.as_str());
            let mut j: usize = 0;
            while j < cs.len()
                invariant
                    j <= cs@.len(),
                    cs@ == line@[i as int].text@,
                    i < line@.len(),
                    v@ == spans_plain(line@.subrange(0, i as int)) + cs@.subrange(0, j as int),
                decreases cs@.len() - j,
            {
                v.push(cs[j]);
                j = j + 1;
                proof {
                    assert(cs@.subrange(0, j as int) =~= cs@.subrange(0, j - 1).push(cs@[j - 1]));
                    assert(spans_plain(line@.subrange(0, i as int)) + cs@.subrange(0, j - 1).push(
                        cs@[j - 1],
                    ) =~= (spans_plain(line@.subrange(0, i as int)) + cs@.subrange(0, j - 1)).push(
                        cs@[j - 1],
                    ));
                }
            }
            proof {
                assert(cs@.subrange(0, cs@.len() as int) =~= cs@);
                lemma_spans_plain_push(line@.subrange(0, i as int), line@[i as int]);
                assert(line@.subrange(0, i + 1) =~= line@.subrange(0, i as int).push(
                    line@[i as int],
                ));
            }
            i = i + 1;
        }
        proof {
            assert(line@.subrange(0, line@.len() as int) =~= line@);
        }
        chars_width(&v)
    }
}

impl Text {
    /// Render into display segments at the given width: one full line per
    /// wrapped line, carrying over every guarantee of `wrap` — at least one
    /// segment, width-bounded newline-free lines taken verbatim from the
    /// text, with no visible cell lost.
    pub fn render_lines(&self, width: usize) -> (r: Vec<crate::renderable::Segment>)
        ensures
            r@.len() >= 1,
            forall|i: int| 0 <= i < r@.len() ==> (#[trigger] r@[i]).newline,
            self.overflow is Wrap ==> forall|i: int|
                0 <= i < r@.len() ==> line_fits((#[trigger] r@[i]).spans@, width as nat),
            forall|i: int|
                0 <= i < r@.len() ==> is_slice_of(
                    spans_cells((#[trigger] r@[i]).spans@),
                    spans_cells(self.spans@),
                ),
            forall|i: int, m: int|
                0 <= i < r@.len() && 0 <= m < spans_cells(r@[i].spans@).len() ==> (
                #[trigger] spans_cells(r@[i].spans@)[m]).0 != '\n',
            keep_solid(crate::renderable::segments_cells(r@)) == keep_solid(
                spans_cells(self.spans@),
            ),
            rows_lay_out(
                crate::renderable::segment_rows(r@),
                spans_cells(self.spans@),
            ),
            forall|i: int, k: int|
                0 <= i < r@.len() && 0 <= k < r@[i].spans@.len() ==> (
                #[trigger] r@[i].spans@[k]).text@.len() > 0,
            forall|i: int, k: int|
                0 <= i < r@.len() && 0 <= k < r@[i].spans@.len() - 1 ==> (
                #[trigger] r@[i].spans@[k]).style != r@[i].spans@[k + 1].style,
            ((forall|m: int|
                0 <= m < spans_cells(self.spans@).len() ==> (#[trigger] spans_cells(
                    self.spans@,
                )[m]).0 != '\n') && crate::chars::display_width(
                cells_chars(spans_cells(self.spans@)),
            ) <= width) ==> (r@.len() == 1 && spans_cells(r@[0].spans@) == spans_cells(
                self.spans@,
            )),
    {
        let mut wrapped = self.wrap(width);
        let ghost full = wrapped@;
        let mut segments: Vec<crate::renderable::Segment> = Vec::new();
        proof {
            assert(full.subrange(0, full.len() as int) =~= full);
            assert(full.subrange(full.len() as int, full.len() as int)
                =~= Seq::<Vec<Span>>::empty());
        }
        while wrapped.len() > 0
            invariant
                wrapped@ == full.subrange(0, wrapped@.len() as int),
                wrapped@.len() <= full.len(),
                segments@.len() == full.len() - wrapped@.len(),
                forall|m: int|
                    0 <= m < segments@.len() ==> (#[trigger] segments@[m]).newline
                        && segments@[m].spans@ == full[wrapped@.len() + m]@,
                crate::renderable::segments_cells(segments@) == lines_spans_cells(
                    full.subrange(wrapped@.len() as int, full.len() as int),
                ),
            decreases wrapped@.len(),
        {
            let ghost k = wrapped@.len() as int;
            match wrapped.pop() {
                Some(line) => {
                    proof {
                        assert(line == full.subrange(0, k)[k - 1]);
                        assert(line == full[k - 1]);
                        assert(wrapped@ =~= full.subrange(0, k - 1));
                    }
                    let ghost segs0 = segments@;
                    segments.insert(0, crate::renderable::Segment::line(line));
                    proof {
                        assert(segments@ =~= seq![segments@[0]] + segs0);
                        assert(segments@.drop_first() =~= segs0);
                        assert(crate::renderable::segments_cells(segments@) == spans_cells(
                            segments@[0].spans@,
                        ) + crate::renderable::segments_cells(segments@.drop_first()));
                        let rest = full.subrange(k - 1, full.len() as int);
                        assert(rest[0] == full[k - 1]);
                        assert(rest.drop_first() =~= full.subrange(k, full.len() as int));
                        assert(lines_spans_cells(rest) == spans_cells(full[k - 1]@)
                            + lines_spans_cells(full.subrange(k, full.len() as int)));
                    }
                },
                None => {},
            }
        }
        proof {
            assert(full.subrange(0, 0) =~= Seq::<Vec<Span>>::empty());
            assert(crate::renderable::segment_rows(segments@) =~= span_rows(full));
            assert forall|i2: int, k: int|
                0 <= i2 < segments@.len() && 0 <= k < segments@[i2].spans@.len() implies (
            #[trigger] segments@[i2].spans@[k]).text@.len() > 0 by {
                assert(segments@[i2].spans@ == full[i2]@);
            }
            assert forall|i2: int, k: int|
                0 <= i2 < segments@.len() && 0 <= k < segments@[i2].spans@.len() - 1 implies (
            #[trigger] segments@[i2].spans@[k]).style != segments@[i2].spans@[k + 1].style by {
                assert(segments@[i2].spans@ == full[i2]@);
            }
            if segments@.len() == 1 {
                assert(segments@[0].spans@ == full[0]@);
            }
        }
        segments
    }
}

impl crate::renderable::Renderable for Text {
    /// Render by wrapping at the context width: one segment per line, and
    /// always at least one segment (an empty line for empty input); the
    /// guarantees are stated on the inherent `render_lines`.
    fn render(&self, context: &crate::console::RenderContext) -> (r: Vec<
        crate::renderable::Segment,
    >) {
        self.render_lines(context.width)
    }

    /// The natural width of the text.
    fn max_width(&self) -> usize {
        self.width()
    }
}

/// The link target of a span, as characters.
pub open spec fn link_view(s: Span) -> Option<Seq<char>> {
    match s.link {
        Some(h) => Some(h@),
        None => None,
    }
}

/// Two spans carry the same text, style and link.
pub open spec fn span_eqv(a: Span, b: Span) -> bool {
    a.text@ == b.text@ && a.style == b.style && link_view(a) == link_view(b)
}

/// The spans of `inp` reappear at position `at` of `out`, unchanged.
pub open spec fn spans_copy_at(out: Seq<Span>, inp: Seq<Span>, at: int) -> bool {
    forall|t: int| 0 <= t < inp.len() ==> span_eqv(#[trigger] out[at + t], inp[t])
}

/// A span of `n` spaces with no style.
pub open spec fn space_span(s: Span, n: nat) -> bool {
    s.text@ == crate::chars::char_repeat(' ', n) && s.style == crate::style::empty_style()
}

impl Span {
    /// An equal copy of the span, field by field.
    pub fn duplicate(&self) -> (r: Span)
        ensures
            span_eqv(r, *self),
    {
        let text = crate::chars::chars_string(&crate::chars::str_chars(self.text.as_str()));
        let link = match &self.link {
            Some(h) => Some(crate::chars::chars_string(&crate::chars::str_chars(h.as_str()))),
            None => None,
        };
        Span { text, style: self.style, link }
    }
}

/// The concatenated text of a list of spans, as a string.
pub fn spans_to_string(spans: &Vec<Span>) -> (r: String)
    ensures
        r@ == spans_plain(spans@),
{
    let mut v: Vec<char> = Vec::new();
    let mut i: usize = 0;
    while i < spans.len()
        invariant
            i <= spans@.len(),
            v@ == spans_plain(spans@.subrange(0, i as int)),
        decreases spans@.len() - i,
    {
        let cs = str_chars(spans[i].text.as_str());
        let mut j: usize = 0;
        while j < cs.len()
            invariant
                j <= cs@.len(),
                cs@ == spans@[i as int].text@,
                i < spans@.len(),
                v@ == spans_plain(spans@.subrange(0, i as int)) + cs@.subrange(0, j as int),
            decreases cs@.len() - j,
        {
            v.push(cs[j]);
            j = j + 1;
            proof {
                assert(cs@.subrange(0, j as int) =~= cs@.subrange(0, j - 1).push(cs@[j - 1]));
                assert(spans_plain(spans@.subrange(0, i as int)) + cs@.subrange(0, j - 1).push(
                    cs@[j - 1],
                ) =~= (spans_plain(spans@.subrange(0, i as int)) + cs@.subrange(0, j - 1)).push(
                    cs@[j - 1],
                ));
            }
        }
        proof {
            assert(cs@.subrange(0, cs@.len() as int) =~= cs@);
            lemma_spans_plain_push(spans@.subrange(0, i as int), spans@[i as int]);
            assert(spans@.subrange(0, i + 1) =~= spans@.subrange(0, i as int).push(
                spans@[i as int],
            ));
        }
        i = i + 1;
    }
    proof {
        assert(spans@.subrange(0, spans@.len() as int) =~= spans@);
    }
    chars_string(&v)
}

/// A line of cells respects the width bound or is free of whitespace.
pub open spec fn line_cells_fit(cs: Seq<(char, Style)>, width: nat) -> bool {
    dwidth(cells_chars(cs)) <= width || no_space(cells_chars(cs))
}

/// `line` is a contiguous piece of `cs`: the wrapped content is taken
/// verbatim, characters and styles alike, from the original text.
pub open spec fn is_slice_of(line: Seq<(char, Style)>, cs: Seq<(char, Style)>) -> bool {
    exists|a: int, b: int| 0 <= a <= b <= cs.len() && line == #[trigger] cs.subrange(a, b)
}

/// Every cell in `[a, b)` of `cs` is whitespace.
pub open spec fn all_space_range(cs: Seq<(char, Style)>, a: int, b: int) -> bool {
    forall|m: int| a <= m < b ==> is_white_space((#[trigger] cs[m]).0)
}

/// The cuts lay the rows over the prefix `[0, upto)` of the cells: each
/// row is the verbatim slice of `cs` under its cut, the cuts sit in order
/// without overlap, and every cell of the prefix outside the cuts is
/// whitespace.
#[verifier::opaque]
pub open spec fn cuts_cover(
    cuts: Seq<(int, int)>,
    rows: Seq<Seq<(char, Style)>>,
    cs: Seq<(char, Style)>,
    upto: int,
) -> bool {
    &&& 0 <= upto <= cs.len()
    &&& cuts.len() == rows.len()
    &&& forall|k: int| 0 <= k < cuts.len() ==> 0 <= (#[trigger] cuts[k]).0 <= cuts[k].1 <= upto
    &&& forall|k: int|
        0 <= k < cuts.len() ==> rows[k] == cs.subrange((#[trigger] cuts[k]).0, cuts[k].1)
    &&& forall|k: int| 0 <= k < cuts.len() - 1 ==> (#[trigger] cuts[k]).1 <= cuts[k + 1].0
    &&& forall|k: int|
        0 <= k < cuts.len() - 1 ==> all_space_range(cs, (#[trigger] cuts[k]).1, cuts[k + 1].0)
    &&& (if cuts.len() > 0 {
        all_space_range(cs, 0, cuts[0].0) && all_space_range(cs, cuts.last().1, upto)
    } else {
        all_space_range(cs, 0, upto)
    })
}

/// The rows are successive verbatim pieces of the cells, in order, and
/// whitespace is the only thing missing between, before or after them:
/// wrapping drops cells only at the chosen break points.
pub open spec fn rows_lay_out(rows: Seq<Seq<(char, Style)>>, cs: Seq<(char, Style)>) -> bool {
    exists|cuts: Seq<(int, int)>| #[trigger] cuts_cover(cuts, rows, cs, cs.len() as int)
}

/// The empty cover.
pub proof fn lemma_cuts_cover_empty(cs: Seq<(char, Style)>)
    ensures
        cuts_cover(Seq::<(int, int)>::empty(), Seq::<Seq<(char, Style)>>::empty(), cs, 0),
{
    reveal(cuts_cover);
}

/// What one cut of a cover says: bounds, the verbatim row, and the
/// whitespace gap before it.
pub proof fn lemma_cuts_cover_facts(
    cuts: Seq<(int, int)>,
    rows: Seq<Seq<(char, Style)>>,
    cs: Seq<(char, Style)>,
    upto: int,
    k: int,
)
    requires
        cuts_cover(cuts, rows, cs, upto),
        0 <= k < cuts.len(),
    ensures
        0 <= cuts[k].0 <= cuts[k].1 <= upto,
        rows[k] == cs.subrange(cuts[k].0, cuts[k].1),
        k > 0 ==> cuts[k - 1].1 <= cuts[k].0 && all_space_range(cs, cuts[k - 1].1, cuts[k].0),
        k == 0 ==> all_space_range(cs, 0, cuts[0].0),
{
    reveal(cuts_cover);
}

/// The shape of a cover: as many cuts as rows, and whitespace after the
/// last cut up to the covered bound.
pub proof fn lemma_cuts_cover_shape(
    cuts: Seq<(int, int)>,
    rows: Seq<Seq<(char, Style)>>,
    cs: Seq<(char, Style)>,
    upto: int,
)
    requires
        cuts_cover(cuts, rows, cs, upto),
    ensures
        cuts.len() == rows.len(),
        0 <= upto <= cs.len(),
        cuts.len() > 0 ==> cuts.last().1 <= upto && all_space_range(cs, cuts.last().1, upto),
        cuts.len() == 0 ==> all_space_range(cs, 0, upto),
{
    reveal(cuts_cover);
}

/// Widening the covered prefix over whitespace keeps the cover.
pub proof fn lemma_cuts_cover_extend(
    cuts: Seq<(int, int)>,
    rows: Seq<Seq<(char, Style)>>,
    cs: Seq<(char, Style)>,
    upto: int,
    new_upto: int,
)
    requires
        cuts_cover(cuts, rows, cs, upto),
        upto <= new_upto <= cs.len(),
        all_space_range(cs, upto, new_upto),
    ensures
        cuts_cover(cuts, rows, cs, new_upto),
{
    reveal(cuts_cover);
}

/// Appending one verbatim slice, with only whitespace between it and the
/// covered prefix and only whitespace after it, keeps the cover.
pub proof fn lemma_cuts_cover_push(
    cuts: Seq<(int, int)>,
    rows: Seq<Seq<(char, Style)>>,
    cs: Seq<(char, Style)>,
    upto: int,
    a: int,
    b: int,
    new_upto: int,
)
    requires
        cuts_cover(cuts, rows, cs, upto),
        upto <= a <= b <= new_upto <= cs.len(),
        all_space_range(cs, upto, a),
        all_space_range(cs, b, new_upto),
    ensures
        cuts_cover(cuts.push((a, b)), rows.push(cs.subrange(a, b)), cs, new_upto),
{
    reveal(cuts_cover);
    let c2 = cuts.push((a, b));
    let r2 = rows.push(cs.subrange(a, b));
    assert(c2.last() == (a, b));
    assert forall|k: int| 0 <= k < c2.len() implies 0 <= (#[trigger] c2[k]).0 <= c2[k].1
        <= new_upto by {
        if k < cuts.len() {
            assert(c2[k] == cuts[k]);
        }
    }
    assert forall|k: int|
        0 <= k < c2.len() implies r2[k] == cs.subrange((#[trigger] c2[k]).0, c2[k].1) by {
        if k < cuts.len() {
            assert(c2[k] == cuts[k]);
            assert(r2[k] == rows[k]);
        }
    }
    assert forall|k: int| 0 <= k < c2.len() - 1 implies (#[trigger] c2[k]).1 <= c2[k + 1].0 by {
        if k < cuts.len() - 1 {
            assert(c2[k] == cuts[k]);
            assert(c2[k + 1] == cuts[k + 1]);
        } else {
            assert(c2[k] == cuts[k]);
            assert(cuts[k].1 <= upto);
        }
    }
    assert forall|k: int|
        0 <= k < c2.len() - 1 implies all_space_range(cs, (#[trigger] c2[k]).1, c2[k + 1].0) by {
        if k < cuts.len() - 1 {
            assert(c2[k] == cuts[k]);
            assert(c2[k + 1] == cuts[k + 1]);
        } else {
            assert(c2[k] == cuts[k]);
            assert(cuts.last() == cuts[k]);
            assert(all_space_range(cs, cuts[k].1, upto));
            assert forall|m: int| cuts[k].1 <= m < a implies is_white_space(
                (#[trigger] cs[m]).0,
            ) by {
                if m < upto {
                } else {
                }
            }
        }
    }
    if cuts.len() > 0 {
        assert(all_space_range(cs, 0, c2[0].0));
    } else {
        assert(all_space_range(cs, 0, upto));
        assert forall|m: int| 0 <= m < a implies is_white_space((#[trigger] cs[m]).0) by {
            if m < upto {
            } else {
            }
        }
    }
    assert(all_space_range(cs, c2.last().1, new_upto));
}

/// The rows of a list of cell lines.
pub open spec fn cell_rows(ls: Seq<Vec<(char, Style)>>) -> Seq<Seq<(char, Style)>> {
    ls.map_values(|v: Vec<(char, Style)>| v@)
}

/// The rows of a list of span lines.
pub open spec fn span_rows(ls: Seq<Vec<Span>>) -> Seq<Seq<(char, Style)>> {
    ls.map_values(|line: Vec<Span>| spans_cells(line@))
}

/// An all-whitespace range of a verbatim slice is an all-whitespace range
/// of the underlying cells.
pub proof fn lemma_space_range_shift(
    cs: Seq<(char, Style)>,
    sub: Seq<(char, Style)>,
    off: int,
    a: int,
    b: int,
)
    requires
        0 <= off,
        off + sub.len() <= cs.len(),
        sub == cs.subrange(off, off + sub.len()),
        0 <= a <= b <= sub.len(),
        all_space_range(sub, a, b),
    ensures
        all_space_range(cs, off + a, off + b),
{
    assert forall|m: int| off + a <= m < off + b implies is_white_space(
        (#[trigger] cs[m]).0,
    ) by {
        assert(sub[m - off] == cs[m]);
    }
}

/// The display width of a middle piece splits off both ends, and no piece
/// is wider than the whole.
pub proof fn lemma_display_sub_parts(cs: Seq<(char, Style)>, a: int, b: int, c: int)
    requires
        0 <= a <= b <= c <= cs.len(),
    ensures
        crate::chars::display_width(cells_chars(cs.subrange(a, c))) == crate::chars::display_width(
            cells_chars(cs.subrange(a, b)),
        ) + crate::chars::display_width(cells_chars(cs.subrange(b, c))),
        crate::chars::display_width(cells_chars(cs.subrange(a, c)))
            <= crate::chars::display_width(cells_chars(cs)),
{
    let n = cs.len() as int;
    assert(cs.subrange(a, c) =~= cs.subrange(a, b) + cs.subrange(b, c));
    lemma_cells_chars_concat(cs.subrange(a, b), cs.subrange(b, c));
    crate::chars::lemma_display_width_concat(
        cells_chars(cs.subrange(a, b)),
        cells_chars(cs.subrange(b, c)),
    );
    assert(cs =~= cs.subrange(0, a) + cs.subrange(a, n));
    lemma_cells_chars_concat(cs.subrange(0, a), cs.subrange(a, n));
    crate::chars::lemma_display_width_concat(
        cells_chars(cs.subrange(0, a)),
        cells_chars(cs.subrange(a, n)),
    );
    assert(cs.subrange(a, n) =~= cs.subrange(a, c) + cs.subrange(c, n));
    lemma_cells_chars_concat(cs.subrange(a, c), cs.subrange(c, n));
    crate::chars::lemma_display_width_concat(
        cells_chars(cs.subrange(a, c)),
        cells_chars(cs.subrange(c, n)),
    );
    assert(cells_chars(cs.subrange(0, n)) =~= cells_chars(cs));
}

/// A contiguous piece of a newline-free cell sequence is newline-free.
proof fn lemma_slice_of_no_newline(line: Seq<(char, Style)>, cs: Seq<(char, Style)>)
    requires
        is_slice_of(line, cs),
        forall|m: int| 0 <= m < cs.len() ==> (#[trigger] cs[m]).0 != '\n',
    ensures
        forall|m: int| 0 <= m < line.len() ==> (#[trigger] line[m]).0 != '\n',
{
    let (a, b): (int, int) = choose|a: int, b: int|
        0 <= a <= b <= cs.len() && line == #[trigger] cs.subrange(a, b);
    assert forall|m: int| 0 <= m < line.len() implies (#[trigger] line[m]).0 != '\n' by {
        assert(line[m] == cs[a + m]);
    }
}

/// The cells that carry visible content: whitespace cells removed.
pub open spec fn keep_solid(cs: Seq<(char, Style)>) -> Seq<(char, Style)>
    decreases cs.len(),
{
    if cs.len() == 0 {
        Seq::empty()
    } else if is_white_space(cs[0].0) {
        keep_solid(cs.drop_first())
    } else {
        seq![cs[0]] + keep_solid(cs.drop_first())
    }
}

/// The concatenated cells of a list of cell lines.
pub open spec fn lines_cells(ls: Seq<Vec<(char, Style)>>) -> Seq<(char, Style)>
    decreases ls.len(),
{
    if ls.len() == 0 {
        Seq::empty()
    } else {
        ls[0]@ + lines_cells(ls.drop_first())
    }
}

/// The concatenated cells of a list of span lines.
pub open spec fn lines_spans_cells(ls: Seq<Vec<Span>>) -> Seq<(char, Style)>
    decreases ls.len(),
{
    if ls.len() == 0 {
        Seq::empty()
    } else {
        spans_cells(ls[0]@) + lines_spans_cells(ls.drop_first())
    }
}

pub proof fn lemma_keep_solid_concat(a: Seq<(char, Style)>, b: Seq<(char, Style)>)
    ensures
        keep_solid(a + b) == keep_solid(a) + keep_solid(b),
    decreases a.len(),
{
    if a.len() == 0 {
        assert(a + b =~= b);
        assert(keep_solid(a) + keep_solid(b) =~= keep_solid(b));
    } else {
        assert((a + b).drop_first() =~= a.drop_first() + b);
        lemma_keep_solid_concat(a.drop_first(), b);
        if !is_white_space(a[0].0) {
            assert(seq![a[0]] + (keep_solid(a.drop_first()) + keep_solid(b)) =~= (seq![a[0]]
                + keep_solid(a.drop_first())) + keep_solid(b));
        }
    }
}

pub proof fn lemma_keep_solid_all_space(a: Seq<(char, Style)>)
    requires
        forall|m: int| 0 <= m < a.len() ==> is_white_space((#[trigger] a[m]).0),
    ensures
        keep_solid(a) == Seq::<(char, Style)>::empty(),
    decreases a.len(),
{
    if a.len() > 0 {
        lemma_keep_solid_all_space(a.drop_first());
    }
}

pub proof fn lemma_keep_solid_all_solid(a: Seq<(char, Style)>)
    requires
        forall|m: int| 0 <= m < a.len() ==> !is_white_space((#[trigger] a[m]).0),
    ensures
        keep_solid(a) == a,
    decreases a.len(),
{
    if a.len() > 0 {
        lemma_keep_solid_all_solid(a.drop_first());
        assert(seq![a[0]] + a.drop_first() =~= a);
    }
}

pub proof fn lemma_lines_cells_push(ls: Seq<Vec<(char, Style)>>, l: Vec<(char, Style)>)
    ensures
        lines_cells(ls.push(l)) == lines_cells(ls) + l@,
    decreases ls.len(),
{
    if ls.len() == 0 {
        let p = ls.push(l);
        assert(p.drop_first() =~= Seq::<Vec<(char, Style)>>::empty());
        assert(p[0] == l);
        assert(lines_cells(p) == p[0]@ + lines_cells(p.drop_first()));
        assert(l@ + Seq::<(char, Style)>::empty() =~= l@);
        assert(lines_cells(ls) + l@ =~= l@);
    } else {
        let p = ls.push(l);
        assert(p.drop_first() =~= ls.drop_first().push(l));
        assert(p[0] == ls[0]);
        assert(lines_cells(p) == p[0]@ + lines_cells(p.drop_first()));
        lemma_lines_cells_push(ls.drop_first(), l);
        assert(ls[0]@ + (lines_cells(ls.drop_first()) + l@) =~= (ls[0]@ + lines_cells(
            ls.drop_first(),
        )) + l@);
    }
}

pub proof fn lemma_lines_spans_cells_push(ls: Seq<Vec<Span>>, l: Vec<Span>)
    ensures
        lines_spans_cells(ls.push(l)) == lines_spans_cells(ls) + spans_cells(l@),
    decreases ls.len(),
{
    if ls.len() == 0 {
        let p = ls.push(l);
        assert(p.drop_first() =~= Seq::<Vec<Span>>::empty());
        assert(p[0] == l);
        assert(lines_spans_cells(p) == spans_cells(p[0]@) + lines_spans_cells(p.drop_first()));
        assert(spans_cells(l@) + Seq::<(char, Style)>::empty() =~= spans_cells(l@));
        assert(lines_spans_cells(ls) + spans_cells(l@) =~= spans_cells(l@));
    } else {
        let p = ls.push(l);
        assert(p.drop_first() =~= ls.drop_first().push(l));
        assert(p[0] == ls[0]);
        assert(lines_spans_cells(p) == spans_cells(p[0]@) + lines_spans_cells(p.drop_first()));
        lemma_lines_spans_cells_push(ls.drop_first(), l);
        assert(spans_cells(ls[0]@) + (lines_spans_cells(ls.drop_first()) + spans_cells(l@)) =~= (
        spans_cells(ls[0]@) + lines_spans_cells(ls.drop_first())) + spans_cells(l@));
    }
}

proof fn lemma_slice_of_trans(x: Seq<(char, Style)>, y: Seq<(char, Style)>, z: Seq<(char, Style)>)
    requires
        is_slice_of(x, y),
        is_slice_of(y, z),
    ensures
        is_slice_of(x, z),
{
    let (a, b): (int, int) = choose|a: int, b: int|
        0 <= a <= b <= y.len() && x == #[trigger] y.subrange(a, b);
    let (c, d): (int, int) = choose|c: int, d: int|
        0 <= c <= d <= z.len() && y == #[trigger] z.subrange(c, d);
    assert(y.subrange(a, b) =~= z.subrange(c + a, c + b));
}

proof fn lemma_cells_fit_to_line_fits(cs: Seq<(char, Style)>, ss: Seq<Span>, width: nat)
    requires
        line_cells_fit(cs, width),
        spans_cells(ss) == cs,
    ensures
        line_fits(ss, width),
{
    lemma_spans_cells_chars(ss);
}

/// The characters of a span sequence's cells are its plain text.
pub proof fn lemma_spans_cells_chars(ss: Seq<Span>)
    ensures
        cells_chars(spans_cells(ss)) == spans_plain(ss),
    decreases ss.len(),
{
    if ss.len() == 0 {
        assert(cells_chars(spans_cells(ss)) =~= spans_plain(ss));
    } else {
        lemma_spans_cells_chars(ss.drop_first());
        let head = ss[0].text@.map_values(|c: char| (c, ss[0].style));
        assert(cells_chars(head + spans_cells(ss.drop_first())) =~= cells_chars(head)
            + cells_chars(spans_cells(ss.drop_first())));
        assert(cells_chars(head) =~= ss[0].text@);
    }
}

/// Split a cell sequence at newline characters; the newlines separate
/// paragraphs and are not kept, each paragraph is a contiguous piece of
/// the input, and no visible cell is lost.
#[verifier::rlimit(100)]
fn split_newlines(cells: &Vec<(char, Style)>) -> (r: Vec<Vec<(char, Style)>>)
    ensures
        r@.len() >= 1,
        forall|k: int| 0 <= k < r@.len() ==> is_slice_of(#[trigger] r@[k]@, cells@),
        forall|k: int, m: int|
            0 <= k < r@.len() && 0 <= m < r@[k]@.len() ==> (#[trigger] r@[k]@[m]).0 != '\n',
        keep_solid(lines_cells(r@)) == keep_solid(cells@),
        rows_lay_out(cell_rows(r@), cells@),
        (forall|m: int| 0 <= m < cells@.len() ==> (#[trigger] cells@[m]).0 != '\n') ==> (r@.len()
            == 1 && r@[0]@ == cells@),
{
    let mut r: Vec<Vec<(char, Style)>> = Vec::new();
    let mut cur: Vec<(char, Style)> = Vec::new();
    let ghost mut line_start: int = 0;
    let ghost mut cutsg: Seq<(int, int)> = Seq::empty();
    let mut i: usize = 0;
    proof {
        assert(cur@ =~= cells@.subrange(0, 0));
        assert(lines_cells(r@) + cur@ =~= Seq::<(char, Style)>::empty());
        assert(keep_solid(cells@.subrange(0, 0)) =~= Seq::<(char, Style)>::empty());
        lemma_cuts_cover_empty(cells@);
        assert(cell_rows(r@) =~= Seq::<Seq<(char, Style)>>::empty());
    }
    while i < cells.len()
        invariant
            i <= cells@.len(),
            0 <= line_start <= i,
            cur@ == cells@.subrange(line_start, i as int),
            forall|m: int| 0 <= m < cur@.len() ==> (#[trigger] cur@[m]).0 != '\n',
            forall|k: int| 0 <= k < r@.len() ==> is_slice_of(#[trigger] r@[k]@, cells@),
            forall|k: int, m: int|
                0 <= k < r@.len() && 0 <= m < r@[k]@.len() ==> (#[trigger] r@[k]@[m]).0 != '\n',
            keep_solid(lines_cells(r@) + cur@) == keep_solid(cells@.subrange(0, i as int)),
            cuts_cover(cutsg, cell_rows(r@), cells@, line_start),
            (forall|m: int| 0 <= m < cells@.len() ==> (#[trigger] cells@[m]).0 != '\n') ==> (
            r@.len() == 0 && line_start == 0),
        decreases cells@.len() - i,
    {
        let (c, st) = cells[i];
        let ghost cell = cells@[i as int];
        proof {
            assert(cells@.subrange(0, i + 1) =~= cells@.subrange(0, i as int) + seq![cell]);
            lemma_keep_solid_concat(cells@.subrange(0, i as int), seq![cell]);
            assert(seq![cell].drop_first() =~= Seq::<(char, Style)>::empty());
        }
        if c == '\n' {
            proof {
                assert(cur@ == cells@.subrange(line_start, i as int));
                lemma_lines_cells_push(r@, cur);
                // The dropped newline is whitespace, so the visible cells
                // are untouched.
                assert(is_white_space(cell.0));
                assert(seq![cell].len() == 1);
                assert(seq![cell][0] == cell);
                assert(keep_solid(seq![cell]) == keep_solid(seq![cell].drop_first()));
                assert(keep_solid(seq![cell]) =~= Seq::<(char, Style)>::empty());
                assert(lines_cells(r@.push(cur)) + cells@.subrange(i + 1, i + 1) =~= lines_cells(
                    r@,
                ) + cur@);
            }
            let ghost r0 = r@;
            let ghost cur0 = cur@;
            r.push(cur);
            cur = Vec::new();
            proof {
                if forall|m: int| 0 <= m < cells@.len() ==> (#[trigger] cells@[m]).0 != '\n' {
                    assert(cells@[i as int].0 == '\n');
                    assert(false);
                }
                assert(cell_rows(r@) =~= cell_rows(r0).push(cur0));
                lemma_cuts_cover_push(
                    cutsg,
                    cell_rows(r0),
                    cells@,
                    line_start,
                    line_start,
                    i as int,
                    i + 1,
                );
                cutsg = cutsg.push((line_start, i as int));
                line_start = i + 1;
                assert(cur@ =~= cells@.subrange(line_start, i + 1));
                assert(keep_solid(cells@.subrange(0, i as int)) + Seq::<(char, Style)>::empty()
                    =~= keep_solid(cells@.subrange(0, i as int)));
            }
        } else {
            let ghost lc = lines_cells(r@);
            let ghost c0 = cur@;
            cur.push((c, st));
            proof {
                assert(cells@.subrange(line_start, i + 1) =~= cells@.subrange(
                    line_start,
                    i as int,
                ).push(cells@[i as int]));
                assert(lc + cur@ =~= (lc + c0) + seq![cell]);
                lemma_keep_solid_concat(lc + c0, seq![cell]);
            }
        }
        i = i + 1;
    }
    proof {
        lemma_lines_cells_push(r@, cur);
        assert(cells@.subrange(0, cells@.len() as int) =~= cells@);
    }
    let ghost r0 = r@;
    let ghost cur0 = cur@;
    r.push(cur);
    proof {
        assert(cell_rows(r@) =~= cell_rows(r0).push(cur0));
        lemma_cuts_cover_push(
            cutsg,
            cell_rows(r0),
            cells@,
            line_start,
            line_start,
            cells@.len() as int,
            cells@.len() as int,
        );
        cutsg = cutsg.push((line_start, cells@.len() as int));
        assert(cuts_cover(cutsg, cell_rows(r@), cells@, cells@.len() as int));
        assert(rows_lay_out(cell_rows(r@), cells@));
        if forall|m: int| 0 <= m < cells@.len() ==> (#[trigger] cells@[m]).0 != '\n' {
            assert(cur0 =~= cells@);
        }
    }
    r
}

/// Coalesce a line of cells into spans: consecutive cells with the same
/// style merge into one span.
pub fn cells_to_spans(cs: &Vec<(char, Style)>) -> (r: Vec<Span>)
    ensures
        spans_cells(r@) == cs@,
        forall|k: int| 0 <= k < r@.len() ==> (#[trigger] r@[k]).text@.len() > 0,
        forall|k: int| 0 <= k < r@.len() - 1 ==> (#[trigger] r@[k]).style != r@[k + 1].style,
{
    let mut r: Vec<Span> = Vec::new();
    let mut i: usize = 0;
    while i < cs.len()
        invariant
            i <= cs@.len(),
            spans_cells(r@) == cs@.subrange(0, i as int),
            forall|k: int| 0 <= k < r@.len() ==> (#[trigger] r@[k]).text@.len() > 0,
            forall|k: int| 0 <= k < r@.len() - 1 ==> (#[trigger] r@[k]).style != r@[k + 1].style,
            r@.len() > 0 && i < cs@.len() ==> r@.last().style != cs@[i as int].1,
        decreases cs@.len() - i,
    {
        let style = cs[i].1;
        let mut j: usize = i;
        let mut text: Vec<char> = Vec::new();
        while j < cs.len() && cs[j].1 == style
            invariant
                i <= j <= cs@.len(),
                style == cs@[i as int].1,
                text@ == cells_chars(cs@.subrange(i as int, j as int)),
                forall|m: int| i <= m < j ==> (#[trigger] cs@[m]).1 == style,
            decreases cs@.len() - j,
        {
            text.push(cs[j].0);
            j = j + 1;
            proof {
                assert(cs@.subrange(i as int, j as int) =~= cs@.subrange(i as int, j - 1).push(
                    cs@[j - 1],
                ));
                assert(cells_chars(cs@.subrange(i as int, j - 1).push(cs@[j - 1])) =~= cells_chars(
                    cs@.subrange(i as int, j - 1),
                ).push(cs@[j - 1].0));
            }
        }
        let span = Span { text: chars_string(&text), style, link: None };
        proof {
            lemma_spans_cells_push(r@, span);
            assert(span.text@.map_values(|c: char| (c, span.style)) =~= cs@.subrange(
                i as int,
                j as int,
            ));
            assert(spans_cells(r@) + cs@.subrange(i as int, j as int) =~= cs@.subrange(
                0,
                j as int,
            ));
        }
        r.push(span);
        i = j;
    }
    proof {
        assert(cs@.subrange(0, cs@.len() as int) =~= cs@);
    }
    r
}

/// The display width of the characters of a cell vector, saturated.
fn cells_width(cs: &Vec<(char, Style)>, a: usize, b: usize) -> (w: usize)
    requires
        a <= b <= cs@.len(),
    ensures
        w == dwidth(cells_chars(cs@.subrange(a as int, b as int))),
{
    let mut v: Vec<char> = Vec::new();
    let mut i: usize = a;
    while i < b
        invariant
            a <= i <= b <= cs@.len(),
            v@ == cells_chars(cs@.subrange(a as int, i as int)),
        decreases b - i,
    {
        v.push(cs[i].0);
        i = i + 1;
        proof {
            assert(cs@.subrange(a as int, i as int) =~= cs@.subrange(a as int, i - 1).push(
                cs@[i - 1],
            ));
            assert(cells_chars(cs@.subrange(a as int, i - 1).push(cs@[i - 1])) =~= cells_chars(
                cs@.subrange(a as int, i - 1),
            ).push(cs@[i - 1].0));
        }
    }
    chars_width(&v)
}

proof fn lemma_cells_chars_concat(a: Seq<(char, Style)>, b: Seq<(char, Style)>)
    ensures
        cells_chars(a + b) == cells_chars(a) + cells_chars(b),
{
    assert(cells_chars(a + b) =~= cells_chars(a) + cells_chars(b));
}

proof fn lemma_dwidth_concat_bound(a: Seq<char>, b: Seq<char>, wa: nat, wb: nat, width: nat)
    requires
        dwidth(a) == wa,
        dwidth(b) == wb,
        wa + wb <= width,
    ensures
        dwidth(a + b) <= width,
{
    lemma_display_width_concat(a, b);
    if width < usize::MAX {
        assert(display_width(a) == wa && display_width(b) == wb);
    }
}

/// Wrap one newline-free paragraph of cells into display lines; every
/// line is a contiguous piece of the paragraph, and the lines together
/// keep every visible cell of the paragraph, in order — only whitespace is
/// dropped at the breaks.
#[verifier::rlimit(100)]
fn wrap_cells(cells: &Vec<(char, Style)>, width: usize) -> (r: Vec<Vec<(char, Style)>>)
    ensures
        r@.len() >= 1,
        forall|k: int| 0 <= k < r@.len() ==> line_cells_fit(#[trigger] r@[k]@, width as nat),
        forall|k: int| 0 <= k < r@.len() ==> is_slice_of(#[trigger] r@[k]@, cells@),
        keep_solid(lines_cells(r@)) == keep_solid(cells@),
        rows_lay_out(cell_rows(r@), cells@),
        crate::chars::display_width(cells_chars(cells@)) <= width ==> (r@.len() == 1 && r@[0]@
            == cells@),
{
    let n = cells.len();
    let mut lines: Vec<Vec<(char, Style)>> = Vec::new();
    let mut cur: Vec<(char, Style)> = Vec::new();
    let mut cur_w: usize = 0;
    let mut pending: Vec<(char, Style)> = Vec::new();
    let mut pend_w: usize = 0;
    let ghost mut cur_start: int = 0;
    let ghost mut cur_end: int = 0;
    let ghost mut cutsg: Seq<(int, int)> = Seq::empty();
    let mut i: usize = 0;
    proof {
        assert(cur@ =~= cells@.subrange(0, 0));
        assert(pending@ =~= cells@.subrange(0, 0));
        assert(lines_cells(lines@) + cur@ =~= Seq::<(char, Style)>::empty());
        assert(keep_solid(cells@.subrange(0, 0)) =~= Seq::<(char, Style)>::empty());
        assert(cell_rows(lines@) =~= Seq::<Seq<(char, Style)>>::empty());
        lemma_cuts_cover_empty(cells@);
    }
    while i < n
        invariant
            i <= n,
            n == cells@.len(),
            cur_w == dwidth(cells_chars(cur@)),
            cur_w <= width,
            pend_w == dwidth(cells_chars(pending@)),
            0 <= cur_start <= cur_end <= i,
            cur@ == cells@.subrange(cur_start, cur_end),
            pending@ == cells@.subrange(cur_end, i as int),
            pending@.len() > 0 && i < n ==> !is_white_space(cells@[i as int].0),
            forall|m: int| 0 <= m < pending@.len() ==> is_white_space((#[trigger] pending@[m]).0),
            keep_solid(lines_cells(lines@) + cur@) == keep_solid(cells@.subrange(0, i as int)),
            forall|k: int| 0 <= k < lines@.len() ==> line_cells_fit(#[trigger] lines@[k]@, width as nat),
            forall|k: int| 0 <= k < lines@.len() ==> is_slice_of(#[trigger] lines@[k]@, cells@),
            cuts_cover(cutsg, cell_rows(lines@), cells@, cur_start),
            crate::chars::display_width(cells_chars(cells@)) <= width ==> (lines@.len() == 0
                && cur_start == 0),
        decreases n - i,
    {
        let run_is_space = crate::chars::space_char(cells[i].0);
        let start = i;
        let mut j: usize = i;
        while j < n && crate::chars::space_char(cells[j].0) == run_is_space
            invariant
                start <= j <= n,
                n == cells@.len(),
                forall|m: int|
                    start <= m < j ==> is_white_space((#[trigger] cells@[m]).0) == run_is_space,
            decreases n - j,
        {
            j = j + 1;
        }
        let mut run = cells_slice(cells, start, j);
        let w = cells_width(cells, start, j);
        proof {
            assert(run@ == cells@.subrange(start as int, j as int));
        }
        let ghost runv = run@;
        proof {
            assert(cells@.subrange(0, j as int) =~= cells@.subrange(0, i as int) + runv);
            lemma_keep_solid_concat(cells@.subrange(0, i as int), runv);
        }
        if run_is_space {
            // Maximal runs alternate, so the pending run of a previous
            // iteration was already consumed by a word run and the line
            // under construction ends exactly where this run starts.
            proof {
                assert(pending@.len() == 0);
                assert(cur_end == i as int);
                assert forall|m: int| 0 <= m < runv.len() implies is_white_space(
                    (#[trigger] runv[m]).0,
                ) by {
                    assert(runv[m] == cells@[start + m]);
                }
                lemma_keep_solid_all_space(runv);
                assert(keep_solid(cells@.subrange(0, i as int)) + Seq::<(char, Style)>::empty()
                    =~= keep_solid(cells@.subrange(0, i as int)));
            }
            pending = run;
            pend_w = w;
        } else {
            proof {
                assert forall|m: int| 0 <= m < cells_chars(runv).len() implies !is_white_space(
                    cells_chars(runv)[m],
                ) by {
                    assert(cells_chars(runv)[m] == runv[m].0);
                    assert(runv[m] == cells@[start + m]);
                }
                assert(no_space(cells_chars(runv)));
            }
            if cur.len() == 0 {
                proof {
                    assert(cur_start == cur_end);
                }
                if pend_w <= width && w <= width - pend_w {
                    let mut line = pending;
                    let ghost pc = line@;
                    let ghost rc = run@;
                    line.append(&mut run);
                    proof {
                        lemma_cells_chars_concat(pc, rc);
                        lemma_dwidth_concat_bound(
                            cells_chars(pc),
                            cells_chars(rc),
                            pend_w as nat,
                            w as nat,
                            width as nat,
                        );
                    }
                    cur = line;
                    cur_w = if pend_w <= usize::MAX - w {
                        pend_w + w
                    } else {
                        usize::MAX
                    };
                    proof {
                        lemma_display_width_concat(cells_chars(pc), cells_chars(rc));
                        cur_start = cur_end;
                        cur_end = j as int;
                        assert(cur@ =~= cells@.subrange(cur_start, cur_end));
                        let lc = lines_cells(lines@);
                        lemma_keep_solid_all_space(pc);
                        assert(lc + (pc + rc) =~= (lc + pc) + rc);
                        assert(lc + pc =~= (lc + Seq::<(char, Style)>::empty()) + pc);
                        lemma_keep_solid_concat(lc, pc);
                        lemma_keep_solid_concat(lc + pc, rc);
                        assert(lc + Seq::<(char, Style)>::empty() =~= lc);
                        assert(keep_solid(lc) + Seq::<(char, Style)>::empty() =~= keep_solid(lc));
                    }
                } else if w <= width {
                    cur = run;
                    cur_w = w;
                    proof {
                        if crate::chars::display_width(cells_chars(cells@)) <= width {
                            lemma_display_sub_parts(cells@, cur_end, i as int, j as int);
                            assert(false);
                        }
                        assert forall|m: int| cur_end <= m < i as int implies is_white_space(
                            (#[trigger] cells@[m]).0,
                        ) by {
                            assert(cells@[m] == pending@[m - cur_end]);
                        }
                        lemma_cuts_cover_extend(
                            cutsg,
                            cell_rows(lines@),
                            cells@,
                            cur_start,
                            start as int,
                        );
                        cur_start = start as int;
                        cur_end = j as int;
                        let lc = lines_cells(lines@);
                        lemma_keep_solid_concat(lc, runv);
                        assert(lc + Seq::<(char, Style)>::empty() =~= lc);
                        lemma_keep_solid_concat(lc, Seq::<(char, Style)>::empty());
                    }
                } else {
                    proof {
                        assert(runv == cells@.subrange(start as int, j as int));
                    }
                    let ghost lines0 = lines@;
                    lines.push(run);
                    proof {
                        if crate::chars::display_width(cells_chars(cells@)) <= width {
                            lemma_display_sub_parts(cells@, start as int, j as int, j as int);
                            assert(false);
                        }
                        assert forall|m: int| cur_end <= m < i as int implies is_white_space(
                            (#[trigger] cells@[m]).0,
                        ) by {
                            assert(cells@[m] == pending@[m - cur_end]);
                        }
                        assert(cell_rows(lines@) =~= cell_rows(lines0).push(runv));
                        lemma_cuts_cover_push(
                            cutsg,
                            cell_rows(lines0),
                            cells@,
                            cur_start,
                            start as int,
                            j as int,
                            j as int,
                        );
                        cutsg = cutsg.push((start as int, j as int));
                        cur_start = j as int;
                        cur_end = j as int;
                        assert(cur@ =~= cells@.subrange(cur_start, cur_end));
                        lemma_lines_cells_push(lines0, run);
                        let lc = lines_cells(lines0);
                        assert(lc + Seq::<(char, Style)>::empty() =~= lc);
                        lemma_keep_solid_concat(lc, runv);
                        assert(lines_cells(lines@) + cur@ =~= lc + runv);
                        assert(cuts_cover(cutsg, cell_rows(lines@), cells@, cur_start));
                    }
                }
                pending = Vec::new();
                pend_w = 0;
                proof {
                    assert(cells_chars(Seq::<(char, Style)>::empty()) =~= Seq::<char>::empty());
                    assert(pending@ =~= cells@.subrange(j as int, j as int));
                }
            } else {
                if pend_w <= width - cur_w && w <= width - cur_w - pend_w {
                    let ghost c0 = cur@;
                    let ghost p0 = pending@;
                    let ghost rc = run@;
                    cur.append(&mut pending);
                    let ghost c1 = cur@;
                    cur.append(&mut run);
                    proof {
                        lemma_cells_chars_concat(c0, p0);
                        lemma_display_width_concat(cells_chars(c0), cells_chars(p0));
                        lemma_cells_chars_concat(c1, rc);
                        lemma_display_width_concat(cells_chars(c1), cells_chars(rc));
                    }
                    cur_w = {
                        let s1 = if cur_w <= usize::MAX - pend_w {
                            cur_w + pend_w
                        } else {
                            usize::MAX
                        };
                        if s1 <= usize::MAX - w {
                            s1 + w
                        } else {
                            usize::MAX
                        }
                    };
                    pending = Vec::new();
                    pend_w = 0;
                    proof {
                        assert(cells_chars(Seq::<(char, Style)>::empty()) =~= Seq::<char>::empty());
                        cur_end = j as int;
                        assert(cur@ =~= cells@.subrange(cur_start, cur_end));
                        assert(pending@ =~= cells@.subrange(j as int, j as int));
                        let lc = lines_cells(lines@);
                        lemma_keep_solid_all_space(p0);
                        assert(lc + ((c0 + p0) + rc) =~= ((lc + c0) + p0) + rc);
                        lemma_keep_solid_concat(lc + c0, p0);
                        lemma_keep_solid_concat((lc + c0) + p0, rc);
                        assert(keep_solid(lc + c0) + Seq::<(char, Style)>::empty() =~= keep_solid(
                            lc + c0,
                        ));
                    }
                } else {
                    proof {
                        assert(cur@ == cells@.subrange(cur_start, cur_end));
                    }
                    let ghost lines0 = lines@;
                    let ghost c0 = cur@;
                    let ghost p0 = pending@;
                    lines.push(cur);
                    cur = Vec::new();
                    cur_w = 0;
                    pending = Vec::new();
                    pend_w = 0;
                    proof {
                        if crate::chars::display_width(cells_chars(cells@)) <= width {
                            lemma_display_sub_parts(cells@, cur_start, cur_end, i as int);
                            lemma_display_sub_parts(cells@, cur_start, i as int, j as int);
                            assert(false);
                        }
                        assert forall|m: int| cur_end <= m < i as int implies is_white_space(
                            (#[trigger] cells@[m]).0,
                        ) by {
                            assert(cells@[m] == p0[m - cur_end]);
                        }
                        assert(cell_rows(lines@) =~= cell_rows(lines0).push(c0));
                        lemma_cuts_cover_push(
                            cutsg,
                            cell_rows(lines0),
                            cells@,
                            cur_start,
                            cur_start,
                            cur_end,
                            cur_end,
                        );
                        cutsg = cutsg.push((cur_start, cur_end));
                        assert(cells_chars(Seq::<(char, Style)>::empty()) =~= Seq::<char>::empty());
                        lemma_lines_cells_push(lines0, lines@.last());
                        assert(lines_cells(lines@) =~= lines_cells(lines0) + c0);
                        lemma_keep_solid_all_space(p0);
                    }
                    if w <= width {
                        cur = run;
                        cur_w = w;
                        proof {
                            lemma_cuts_cover_extend(
                                cutsg,
                                cell_rows(lines@),
                                cells@,
                                cur_end,
                                start as int,
                            );
                            cur_start = start as int;
                            cur_end = j as int;
                            assert(pending@ =~= cells@.subrange(j as int, j as int));
                            let lc0 = lines_cells(lines0);
                            lemma_keep_solid_concat(lc0 + c0, runv);
                            assert(lines_cells(lines@) + cur@ =~= (lc0 + c0) + runv);
                            assert(lc0 + c0 =~= lines_cells(lines0) + c0);
                        }
                    } else {
                        proof {
                            assert(runv == cells@.subrange(start as int, j as int));
                        }
                        let ghost lines1 = lines@;
                        lines.push(run);
                        proof {
                            assert(cell_rows(lines@) =~= cell_rows(lines1).push(runv));
                            lemma_cuts_cover_push(
                                cutsg,
                                cell_rows(lines1),
                                cells@,
                                cur_end,
                                start as int,
                                j as int,
                                j as int,
                            );
                            cutsg = cutsg.push((start as int, j as int));
                            cur_start = j as int;
                            cur_end = j as int;
                            assert(cur@ =~= cells@.subrange(cur_start, cur_end));
                            assert(pending@ =~= cells@.subrange(j as int, j as int));
                            lemma_lines_cells_push(lines1, run);
                            let lc0 = lines_cells(lines0);
                            lemma_keep_solid_concat(lc0 + c0, runv);
                            assert(lines_cells(lines@) + cur@ =~= (lc0 + c0) + runv);
                        }
                    }
                }
            }
        }
        i = j;
    }
    proof {
        assert(cells@.subrange(0, n as int) =~= cells@);
    }
    if cur.len() > 0 {
        proof {
            if crate::chars::display_width(cells_chars(cells@)) <= width {
                lemma_display_sub_parts(cells@, cur_start, cur_end, n as int);
            }
        }
        if pending.len() > 0 && pend_w <= width - cur_w {
            let ghost c0 = cur@;
            let ghost p0 = pending@;
            cur.append(&mut pending);
            proof {
                lemma_cells_chars_concat(c0, p0);
                lemma_dwidth_concat_bound(
                    cells_chars(c0),
                    cells_chars(p0),
                    cur_w as nat,
                    pend_w as nat,
                    width as nat,
                );
                cur_end = n as int;
                assert(cur@ =~= cells@.subrange(cur_start, cur_end));
                let lc = lines_cells(lines@);
                lemma_keep_solid_all_space(p0);
                assert(lc + (c0 + p0) =~= (lc + c0) + p0);
                lemma_keep_solid_concat(lc + c0, p0);
                assert(keep_solid(lc + c0) + Seq::<(char, Style)>::empty() =~= keep_solid(
                    lc + c0,
                ));
            }
        }
        proof {
            assert(cur@ == cells@.subrange(cur_start, cur_end));
        }
        let ghost lines0 = lines@;
        let ghost c0 = cur@;
        lines.push(cur);
        proof {
            lemma_lines_cells_push(lines0, lines@.last());
            assert(lines_cells(lines@) =~= lines_cells(lines0) + c0);
            assert(cell_rows(lines@) =~= cell_rows(lines0).push(c0));
            assert forall|m: int| cur_end <= m < n as int implies is_white_space(
                (#[trigger] cells@[m]).0,
            ) by {
                assert(cells@[m] == pending@[m - cur_end]);
            }
            lemma_cuts_cover_push(
                cutsg,
                cell_rows(lines0),
                cells@,
                cur_start,
                cur_start,
                cur_end,
                n as int,
            );
            cutsg = cutsg.push((cur_start, cur_end));
            if crate::chars::display_width(cells_chars(cells@)) <= width {
                assert(cur_end == n as int);
                assert(c0 =~= cells@);
            }
        }
    } else if lines.len() == 0 {
        proof {
            assert(lines_cells(lines@) + cur@ =~= Seq::<(char, Style)>::empty());
            assert(keep_solid(Seq::<(char, Style)>::empty()) =~= Seq::<(char, Style)>::empty());
        }
        if pend_w <= width {
            proof {
                assert(pending@ == cells@.subrange(cur_end, n as int));
            }
            let ghost p0 = pending@;
            let ghost lines0 = lines@;
            proof {
                assert(lines0 =~= Seq::<Vec<(char, Style)>>::empty());
            }
            lines.push(pending);
            proof {
                lemma_lines_cells_push(lines0, lines@.last());
                assert(lines_cells(lines@) =~= p0);
                lemma_keep_solid_all_space(p0);
                assert(cur_start == cur_end);
                assert(cell_rows(lines@) =~= cell_rows(lines0).push(p0));
                lemma_cuts_cover_push(
                    cutsg,
                    cell_rows(lines0),
                    cells@,
                    cur_start,
                    cur_end,
                    n as int,
                    n as int,
                );
                cutsg = cutsg.push((cur_end, n as int));
                if crate::chars::display_width(cells_chars(cells@)) <= width {
                    assert(p0 =~= cells@);
                }
            }
        } else {
            let empty_line: Vec<(char, Style)> = Vec::new();
            proof {
                assert(cells_chars(Seq::<(char, Style)>::empty()) =~= Seq::<char>::empty());
                assert(empty_line@ =~= cells@.subrange(0, 0));
            }
            let ghost lines0 = lines@;
            proof {
                assert(lines0 =~= Seq::<Vec<(char, Style)>>::empty());
            }
            lines.push(empty_line);
            proof {
                lemma_lines_cells_push(lines0, lines@.last());
                assert(lines_cells(lines@) =~= Seq::<(char, Style)>::empty());
                if crate::chars::display_width(cells_chars(cells@)) <= width {
                    lemma_display_sub_parts(cells@, cur_end, n as int, n as int);
                    assert(false);
                }
                assert(cur_start == cur_end);
                assert forall|m: int| cur_end <= m < n as int implies is_white_space(
                    (#[trigger] cells@[m]).0,
                ) by {
                    assert(cells@[m] == pending@[m - cur_end]);
                }
                assert(empty_line@ =~= cells@.subrange(cur_start, cur_start));
                assert(cell_rows(lines@) =~= cell_rows(lines0).push(empty_line@));
                lemma_cuts_cover_push(
                    cutsg,
                    cell_rows(lines0),
                    cells@,
                    cur_start,
                    cur_start,
                    cur_start,
                    n as int,
                );
                cutsg = cutsg.push((cur_start, cur_start));
            }
        }
    } else {
        proof {
            assert(lines_cells(lines@) + cur@ =~= lines_cells(lines@));
            assert(cur_start == cur_end);
            assert forall|m: int| cur_end <= m < n as int implies is_white_space(
                (#[trigger] cells@[m]).0,
            ) by {
                assert(cells@[m] == pending@[m - cur_end]);
            }
            lemma_cuts_cover_extend(cutsg, cell_rows(lines@), cells@, cur_start, n as int);
        }
    }
    proof {
        assert(cuts_cover(cutsg, cell_rows(lines@), cells@, cells@.len() as int));
        assert(rows_lay_out(cell_rows(lines@), cells@));
    }
    lines
}

/// Copy the cell range `[a, b)` out of a vector.
fn cells_slice(v: &Vec<(char, Style)>, a: usize, b: usize) -> (r: Vec<(char, Style)>)
    requires
        a <= b <= v@.len(),
    ensures
        r@ == v@.subrange(a as int, b as int),
{
    let mut r: Vec<(char, Style)> = Vec::new();
    let mut i: usize = a;
    while i < b
        invariant
            a <= i <= b <= v@.len(),
            r@ == v@.subrange(a as int, i as int),
        decreases b - i,
    {
        r.push(v[i]);
        i = i + 1;
        proof {
            assert(v@.subrange(a as int, i as int) =~= v@.subrange(a as int, i - 1).push(
                v@[i - 1],
            ));
        }
    }
    r
}

} // verus!
