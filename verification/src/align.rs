//! An alignment wrapper: positions its child horizontally and vertically
//! within the available space.

use vstd::prelude::*;

verus! {

use crate::renderable::{Renderable, Segment};
use crate::console::RenderContext;
use crate::text::{Alignment, Span, spans_copy_at, space_span, span_eqv, spans_plain};
use crate::chars::{repeat_char, dwidth};

/// The number of blank lines a height constraint adds.
pub open spec fn align_extra(height: Option<usize>, lines: nat) -> nat {
    match height {
        None => 0,
        Some(h) => if lines >= h {
            0
        } else {
            (h - lines) as nat
        },
    }
}

/// Where the content starts among the added blank lines.
pub open spec fn valign_offset(v: VerticalAlignment, extra: nat) -> nat {
    match v {
        VerticalAlignment::Top => 0,
        VerticalAlignment::Bottom => extra,
        VerticalAlignment::Middle => extra / 2,
    }
}

/// One aligned line: a line narrower than the width gains space runs per
/// the horizontal alignment — right of it, left of it, or split floor and
/// ceiling around it — while its own spans pass through unchanged; a line
/// at least as wide passes through whole.
pub open spec fn aligned_line(
    out: Segment,
    inp: Segment,
    align: Alignment,
    pad: bool,
    width: nat,
) -> bool {
    let lw = dwidth(spans_plain(inp.spans@));
    &&& out.newline == inp.newline
    &&& (lw >= width ==> (out.spans@.len() == inp.spans@.len() && spans_copy_at(
        out.spans@,
        inp.spans@,
        0,
    )))
    &&& (lw < width ==> (match align {
        Alignment::Left => (if pad {
            out.spans@.len() == inp.spans@.len() + 1 && spans_copy_at(out.spans@, inp.spans@, 0)
                && space_span(out.spans@.last(), (width - lw) as nat)
        } else {
            out.spans@.len() == inp.spans@.len() && spans_copy_at(out.spans@, inp.spans@, 0)
        }),
        Alignment::Right => (out.spans@.len() == inp.spans@.len() + 1 && space_span(
            out.spans@[0],
            (width - lw) as nat,
        ) && spans_copy_at(out.spans@, inp.spans@, 1)),
        Alignment::Center => (if pad {
            out.spans@.len() == inp.spans@.len() + 2 && space_span(
                out.spans@[0],
                ((width - lw) as nat) / 2,
            ) && spans_copy_at(out.spans@, inp.spans@, 1) && space_span(
                out.spans@.last(),
                ((width - lw) as nat - ((width - lw) as nat) / 2) as nat,
            )
        } else {
            out.spans@.len() == inp.spans@.len() + 1 && space_span(
                out.spans@[0],
                ((width - lw) as nat) / 2,
            ) && spans_copy_at(out.spans@, inp.spans@, 1)
        }),
    }))
}

/// Vertical alignment options.
#[derive(Debug, Clone, Copy, PartialEq, Eq, Default, Structural)]
pub enum VerticalAlignment {
    /// Top-aligned (default)
    #[default]
    Top,
    /// Middle-aligned
    Middle,
    /// Bottom-aligned
    Bottom,
}

/// A renderable that aligns its child within the available space.
pub struct Align<R> {
    /// The wrapped content
    pub child: R,
    /// Horizontal alignment
    pub align: Alignment,
    /// Vertical alignment
    pub vertical: VerticalAlignment,
    /// Height constraint for vertical alignment
    pub height: Option<usize>,
    /// Whether to pad lines on the trailing side
    pub pad: bool,
}

impl<R: Renderable> Align<R> {
    /// Wrap a renderable left-aligned.
    pub fn left(child: R) -> (a: Align<R>)
        ensures
            a.align is Left,
            a.vertical is Top,
            a.height is None,
            a.pad,
    {
        Align {
            child,
            align: Alignment::Left,
            vertical: VerticalAlignment::Top,
            height: None,
            pad: true,
        }
    }

    /// Wrap a renderable centered.
    pub fn center(child: R) -> (a: Align<R>)
        ensures
            a.align is Center,
            a.vertical is Top,
            a.height is None,
            a.pad,
    {
        Align {
            child,
            align: Alignment::Center,
            vertical: VerticalAlignment::Top,
            height: None,
            pad: true,
        }
    }

    /// Wrap a renderable right-aligned.
    pub fn right(child: R) -> (a: Align<R>)
        ensures
            a.align is Right,
            a.vertical is Top,
            a.height is None,
            a.pad,
    {
        Align {
            child,
            align: Alignment::Right,
            vertical: VerticalAlignment::Top,
            height: None,
            pad: true,
        }
    }

    /// Set the vertical alignment.
    pub fn vertical(self, vertical: VerticalAlignment) -> (a: Align<R>)
        ensures
            a.vertical == vertical,
            a.align == self.align,
            a.height == self.height,
            a.pad == self.pad,
    {
        Align { vertical, ..self }
    }

    /// Set a height constraint.
    pub fn height(self, height: usize) -> (a: Align<R>)
        ensures
            a.height == Some(height),
            a.align == self.align,
            a.vertical == self.vertical,
            a.pad == self.pad,
    {
        Align { height: Some(height), ..self }
    }
}

fn blank_line(width: usize) -> (s: Segment)
    ensures
        s.newline,
        crate::padding::blank_line(s, width as nat),
{
    let fill = repeat_char(' ', width);
    let mut spans: Vec<Span> = Vec::new();
    spans.push(Span::raw(fill.as_str()));
    Segment::line(spans)
}

impl<R> Align<R> {
    /// Align already rendered segments within the width: pad each line
    /// with spaces per the horizontal alignment, then pad with blank lines
    /// per the vertical alignment to meet a height constraint; every line
    /// keeps its spans unchanged between the space runs.
    pub fn align_segments(&self, segments: Vec<Segment>, width: usize) -> (r: Vec<Segment>)
        ensures
            r@.len() as int == (match self.height {
                None => segments@.len() as int,
                Some(h) => if segments@.len() >= h {
                    segments@.len() as int
                } else {
                    h as int
                },
            }),
            r@.len() == segments@.len() + align_extra(self.height, segments@.len() as nat),
            forall|k: int|
                0 <= k < segments@.len() ==> aligned_line(
                    #[trigger] r@[valign_offset(
                        self.vertical,
                        align_extra(self.height, segments@.len() as nat),
                    ) + k],
                    segments@[k],
                    self.align,
                    self.pad,
                    width as nat,
                ),
            forall|k: int|
                (0 <= k < valign_offset(
                    self.vertical,
                    align_extra(self.height, segments@.len() as nat),
                ) || valign_offset(self.vertical, align_extra(self.height, segments@.len() as nat))
                    + segments@.len() <= k < r@.len()) ==> crate::padding::blank_line(
                    #[trigger] r@[k],
                    width as nat,
                ),
    {
        let mut aligned: Vec<Segment> = Vec::new();
        let mut i: usize = 0;
        while i < segments.len()
            invariant
                i <= segments@.len(),
                aligned@.len() == i,
                forall|q: int|
                    0 <= q < i ==> aligned_line(
                        #[trigger] aligned@[q],
                        segments@[q],
                        self.align,
                        self.pad,
                        width as nat,
                    ),
            decreases segments@.len() - i,
        {
            let seg = &segments[i];
            let line_width = crate::text::Span::line_width(&seg.spans);
            let mut line: Vec<Span> = Vec::new();
            if line_width < width {
                let padding = width - line_width;
                match self.align {
                    Alignment::Left => {
                        let mut k: usize = 0;
                        while k < seg.spans.len()
                            invariant
                                k <= seg.spans@.len(),
                                seg == &segments[i as int],
                                i < segments@.len(),
                                line@.len() == k,
                                forall|t: int|
                                    0 <= t < k ==> span_eqv(#[trigger] line@[t], seg.spans@[t]),
                            decreases seg.spans@.len() - k,
                        {
                            line.push(seg.spans[k].duplicate());
                            k = k + 1;
                        }
                        if self.pad {
                            let fill = repeat_char(' ', padding);
                            line.push(Span::raw(fill.as_str()));
                        }
                    },
                    Alignment::Right => {
                        let fill = repeat_char(' ', padding);
                        line.push(Span::raw(fill.as_str()));
                        let mut k: usize = 0;
                        while k < seg.spans.len()
                            invariant
                                k <= seg.spans@.len(),
                                seg == &segments[i as int],
                                i < segments@.len(),
                                line@.len() == 1 + k,
                                space_span(line@[0], padding as nat),
                                forall|t: int|
                                    0 <= t < k ==> span_eqv(
                                        #[trigger] line@[1 + t],
                                        seg.spans@[t],
                                    ),
                            decreases seg.spans@.len() - k,
                        {
                            line.push(seg.spans[k].duplicate());
                            k = k + 1;
                        }
                    },
                    Alignment::Center => {
                        let left_pad = padding / 2;
                        let right_pad = padding - left_pad;
                        let fill = repeat_char(' ', left_pad);
                        line.push(Span::raw(fill.as_str()));
                        let mut k: usize = 0;
                        while k < seg.spans.len()
                            invariant
                                k <= seg.spans@.len(),
                                seg == &segments[i as int],
                                i < segments@.len(),
                                line@.len() == 1 + k,
                                space_span(line@[0], (padding / 2) as nat),
                                forall|t: int|
                                    0 <= t < k ==> span_eqv(
                                        #[trigger] line@[1 + t],
                                        seg.spans@[t],
                                    ),
                            decreases seg.spans@.len() - k,
                        {
                            line.push(seg.spans[k].duplicate());
                            k = k + 1;
                        }
                        if self.pad {
                            let fill2 = repeat_char(' ', right_pad);
                            line.push(Span::raw(fill2.as_str()));
                        }
                    },
                }
            } else {
                let mut k: usize = 0;
                while k < seg.spans.len()
                    invariant
                        k <= seg.spans@.len(),
                        seg == &segments[i as int],
                        i < segments@.len(),
                        line@.len() == k,
                        forall|t: int| 0 <= t < k ==> span_eqv(#[trigger] line@[t], seg.spans@[t]),
                    decreases seg.spans@.len() - k,
                {
                    line.push(seg.spans[k].duplicate());
                    k = k + 1;
                }
            }
            if seg.newline {
                aligned.push(Segment::line(line));
            } else {
                aligned.push(Segment::new(line));
            }
            proof {
                assert(aligned_line(
                    aligned@.last(),
                    segments@[i as int],
                    self.align,
                    self.pad,
                    width as nat,
                ));
            }
            i = i + 1;
        }
        let ghost extra = align_extra(self.height, segments@.len() as nat);
        match self.height {
            Some(target) => {
                if aligned.len() < target {
                    let diff = target - aligned.len();
                    proof {
                        assert(extra == diff as nat);
                    }
                    match self.vertical {
                        VerticalAlignment::Top => {
                            let mut k: usize = 0;
                            while k < diff
                                invariant
                                    k <= diff,
                                    aligned@.len() == segments@.len() + k,
                                    forall|q: int|
                                        0 <= q < segments@.len() ==> aligned_line(
                                            #[trigger] aligned@[q],
                                            segments@[q],
                                            self.align,
                                            self.pad,
                                            width as nat,
                                        ),
                                    forall|q: int|
                                        segments@.len() <= q < aligned@.len()
                                            ==> crate::padding::blank_line(
                                            #[trigger] aligned@[q],
                                            width as nat,
                                        ),
                                decreases diff - k,
                            {
                                aligned.push(blank_line(width));
                                k = k + 1;
                            }
                        },
                        VerticalAlignment::Bottom => {
                            let mut k: usize = 0;
                            while k < diff
                                invariant
                                    k <= diff,
                                    aligned@.len() == segments@.len() + k,
                                    forall|q: int|
                                        0 <= q < k ==> crate::padding::blank_line(
                                            #[trigger] aligned@[q],
                                            width as nat,
                                        ),
                                    forall|q: int|
                                        0 <= q < segments@.len() ==> aligned_line(
                                            #[trigger] aligned@[k + q],
                                            segments@[q],
                                            self.align,
                                            self.pad,
                                            width as nat,
                                        ),
                                decreases diff - k,
                            {
                                let ghost a0 = aligned@;
                                aligned.insert(0, blank_line(width));
                                k = k + 1;
                                proof {
                                    assert forall|q: int| 0 <= q < segments@.len() implies aligned_line(
                                        #[trigger] aligned@[k + q],
                                        segments@[q],
                                        self.align,
                                        self.pad,
                                        width as nat,
                                    ) by {
                                        assert(aligned@[k + q] == a0[(k - 1) + q]);
                                    }
                                    assert forall|q: int|
                                        0 <= q < k implies crate::padding::blank_line(
                                        #[trigger] aligned@[q],
                                        width as nat,
                                    ) by {
                                        if q > 0 {
                                            assert(aligned@[q] == a0[q - 1]);
                                        }
                                    }
                                }
                            }
                        },
                        VerticalAlignment::Middle => {
                            let top_pad = diff / 2;
                            let bottom_pad = diff - top_pad;
                            let mut k: usize = 0;
                            while k < top_pad
                                invariant
                                    k <= top_pad,
                                    aligned@.len() == segments@.len() + k,
                                    forall|q: int|
                                        0 <= q < k ==> crate::padding::blank_line(
                                            #[trigger] aligned@[q],
                                            width as nat,
                                        ),
                                    forall|q: int|
                                        0 <= q < segments@.len() ==> aligned_line(
                                            #[trigger] aligned@[k + q],
                                            segments@[q],
                                            self.align,
                                            self.pad,
                                            width as nat,
                                        ),
                                decreases top_pad - k,
                            {
                                let ghost a0 = aligned@;
                                aligned.insert(0, blank_line(width));
                                k = k + 1;
                                proof {
                                    assert forall|q: int| 0 <= q < segments@.len() implies aligned_line(
                                        #[trigger] aligned@[k + q],
                                        segments@[q],
                                        self.align,
                                        self.pad,
                                        width as nat,
                                    ) by {
                                        assert(aligned@[k + q] == a0[(k - 1) + q]);
                                    }
                                    assert forall|q: int|
                                        0 <= q < k implies crate::padding::blank_line(
                                        #[trigger] aligned@[q],
                                        width as nat,
                                    ) by {
                                        if q > 0 {
                                            assert(aligned@[q] == a0[q - 1]);
                                        }
                                    }
                                }
                            }
                            let mut k2: usize = 0;
                            while k2 < bottom_pad
                                invariant
                                    k2 <= bottom_pad,
                                    aligned@.len() == segments@.len() + top_pad + k2,
                                    forall|q: int|
                                        0 <= q < top_pad ==> crate::padding::blank_line(
                                            #[trigger] aligned@[q],
                                            width as nat,
                                        ),
                                    forall|q: int|
                                        0 <= q < segments@.len() ==> aligned_line(
                                            #[trigger] aligned@[top_pad + q],
                                            segments@[q],
                                            self.align,
                                            self.pad,
                                            width as nat,
                                        ),
                                    forall|q: int|
                                        segments@.len() + top_pad <= q < aligned@.len()
                                            ==> crate::padding::blank_line(
                                            #[trigger] aligned@[q],
                                            width as nat,
                                        ),
                                decreases bottom_pad - k2,
                            {
                                aligned.push(blank_line(width));
                                k2 = k2 + 1;
                            }
                        },
                    }
                } else {
                    proof {
                        assert(extra == 0);
                    }
                }
            },
            None => {
                proof {
                    assert(extra == 0);
                }
            },
        }
        aligned
    }
}

impl<R: Renderable> Renderable for Align<R> {
    /// Render the child, then align it; the layout is stated on the
    /// inherent `align_segments`.
    fn render(&self, context: &RenderContext) -> Vec<Segment> {
        let segments = self.child.render(context);
        self.align_segments(segments, context.width)
    }
}

} // verus!
