//! A padding wrapper: configurable blank space around any renderable.

use vstd::prelude::*;

verus! {

use crate::renderable::{Renderable, Segment};
use crate::console::RenderContext;
use crate::text::{Span, span_eqv, space_span};
use crate::chars::repeat_char;

/// A full line of `width` spaces with no style.
pub open spec fn blank_line(s: Segment, width: nat) -> bool {
    &&& s.newline
    &&& s.spans@.len() == 1
    &&& space_span(s.spans@[0], width)
}

/// One padded line: the input line's spans, preserved in text, style and
/// link, with a span of `left` spaces in front and one of `right` spaces
/// behind (absent when the amount is zero).
pub open spec fn padded_line(out: Segment, inp: Segment, left: nat, right: nat) -> bool {
    let lcount: int = if left > 0 {
        1int
    } else {
        0int
    };
    let rcount: int = if right > 0 {
        1int
    } else {
        0int
    };
    &&& out.newline == inp.newline
    &&& out.spans@.len() == lcount + inp.spans@.len() + rcount
    &&& (left > 0 ==> space_span(out.spans@[0], left))
    &&& (right > 0 ==> space_span(out.spans@.last(), right))
    &&& crate::text::spans_copy_at(out.spans@, inp.spans@, lcount)
}

/// Padding amounts for the four sides.
#[derive(Debug, Clone, Copy, PartialEq, Eq, Structural)]
pub struct PaddingSpec {
    /// Top padding (lines)
    pub top: usize,
    /// Right padding (spaces)
    pub right: usize,
    /// Bottom padding (lines)
    pub bottom: usize,
    /// Left padding (spaces)
    pub left: usize,
}

impl PaddingSpec {
    /// Padding with all sides equal.
    pub fn all(size: usize) -> (p: PaddingSpec)
        ensures
            p == (PaddingSpec { top: size, right: size, bottom: size, left: size }),
    {
        PaddingSpec { top: size, right: size, bottom: size, left: size }
    }

    /// Padding with vertical and horizontal values.
    pub fn symmetric(vertical: usize, horizontal: usize) -> (p: PaddingSpec)
        ensures
            p == (PaddingSpec {
                top: vertical,
                right: horizontal,
                bottom: vertical,
                left: horizontal,
            }),
    {
        PaddingSpec { top: vertical, right: horizontal, bottom: vertical, left: horizontal }
    }

    /// Padding for each side individually.
    pub fn new(top: usize, right: usize, bottom: usize, left: usize) -> (p: PaddingSpec)
        ensures
            p == (PaddingSpec { top, right, bottom, left }),
    {
        PaddingSpec { top, right, bottom, left }
    }

    /// No padding at all.
    pub fn none() -> (p: PaddingSpec)
        ensures
            p == (PaddingSpec { top: 0, right: 0, bottom: 0, left: 0 }),
    {
        PaddingSpec::all(0)
    }
}

/// A renderable that adds padding around its child.
pub struct Padding<R> {
    /// The wrapped content
    pub child: R,
    /// The padding amounts
    pub spec: PaddingSpec,
}

impl<R: Renderable> Padding<R> {
    /// Wrap a renderable with the given padding.
    pub fn new(child: R, spec: PaddingSpec) -> (p: Padding<R>)
        ensures
            p.spec == spec,
    {
        Padding { child, spec }
    }

    /// Wrap a renderable with equal padding on all sides.
    pub fn all(child: R, size: usize) -> (p: Padding<R>)
        ensures
            p.spec == (PaddingSpec { top: size, right: size, bottom: size, left: size }),
    {
        Padding::new(child, PaddingSpec::all(size))
    }

    /// Wrap a renderable with vertical and horizontal padding.
    pub fn symmetric(child: R, vertical: usize, horizontal: usize) -> (p: Padding<R>)
        ensures
            p.spec == (PaddingSpec {
                top: vertical,
                right: horizontal,
                bottom: vertical,
                left: horizontal,
            }),
    {
        Padding::new(child, PaddingSpec::symmetric(vertical, horizontal))
    }
}

impl<R> Padding<R> {
    /// Add the configured padding around already rendered segments: blank
    /// lines above and below, spaces on each side of every line. The
    /// result has exactly the child's lines, each framed by the left and
    /// right space runs, between the top and bottom blank lines.
    pub fn pad_segments(&self, child_segments: Vec<Segment>, width: usize) -> (r: Vec<Segment>)
        ensures
            r@.len() == self.spec.top + child_segments@.len() + self.spec.bottom,
            forall|k: int| 0 <= k < self.spec.top ==> blank_line(#[trigger] r@[k], width as nat),
            forall|k: int|
                self.spec.top + child_segments@.len() <= k < r@.len() ==> blank_line(
                    #[trigger] r@[k],
                    width as nat,
                ),
            forall|k: int|
                0 <= k < child_segments@.len() ==> padded_line(
                    #[trigger] r@[self.spec.top + k],
                    child_segments@[k],
                    self.spec.left as nat,
                    self.spec.right as nat,
                ),
    {
        let mut result: Vec<Segment> = Vec::new();
        let blank = repeat_char(' ', width);
        let mut i: usize = 0;
        while i < self.spec.top
            invariant
                i <= self.spec.top,
                result@.len() == i,
                blank@ == crate::chars::char_repeat(' ', width as nat),
                forall|q: int| 0 <= q < i ==> blank_line(#[trigger] result@[q], width as nat),
            decreases self.spec.top - i,
        {
            let mut spans: Vec<Span> = Vec::new();
            spans.push(Span::raw(blank.as_str()));
            result.push(Segment::line(spans));
            i = i + 1;
        }
        let left_pad = repeat_char(' ', self.spec.left);
        let right_pad = repeat_char(' ', self.spec.right);
        let mut j: usize = 0;
        while j < child_segments.len()
            invariant
                j <= child_segments@.len(),
                result@.len() == self.spec.top + j,
                blank@ == crate::chars::char_repeat(' ', width as nat),
                left_pad@ == crate::chars::char_repeat(' ', self.spec.left as nat),
                right_pad@ == crate::chars::char_repeat(' ', self.spec.right as nat),
                forall|q: int|
                    0 <= q < self.spec.top ==> blank_line(#[trigger] result@[q], width as nat),
                forall|q: int|
                    0 <= q < j ==> padded_line(
                        #[trigger] result@[self.spec.top + q],
                        child_segments@[q],
                        self.spec.left as nat,
                        self.spec.right as nat,
                    ),
            decreases child_segments@.len() - j,
        {
            let seg = &child_segments[j];
            let ghost lcount: int = if self.spec.left > 0 {
                1int
            } else {
                0int
            };
            let mut spans: Vec<Span> = Vec::new();
            if self.spec.left > 0 {
                spans.push(Span::raw(left_pad.as_str()));
            }
            let mut k: usize = 0;
            while k < seg.spans.len()
                invariant
                    k <= seg.spans@.len(),
                    seg == &child_segments[j as int],
                    j < child_segments@.len(),
                    left_pad@ == crate::chars::char_repeat(' ', self.spec.left as nat),
                    lcount == (if self.spec.left > 0 {
                        1int
                    } else {
                        0int
                    }),
                    spans@.len() == lcount + k,
                    self.spec.left > 0 ==> space_span(spans@[0], self.spec.left as nat),
                    forall|t: int|
                        0 <= t < k ==> span_eqv(#[trigger] spans@[lcount + t], seg.spans@[t]),
                decreases seg.spans@.len() - k,
            {
                spans.push(seg.spans[k].duplicate());
                k = k + 1;
            }
            if self.spec.right > 0 {
                spans.push(Span::raw(right_pad.as_str()));
            }
            let ghost spans0 = spans@;
            if seg.newline {
                result.push(Segment::line(spans));
            } else {
                result.push(Segment::new(spans));
            }
            proof {
                assert(padded_line(
                    result@.last(),
                    child_segments@[j as int],
                    self.spec.left as nat,
                    self.spec.right as nat,
                ));
            }
            j = j + 1;
        }
        let mut b: usize = 0;
        while b < self.spec.bottom
            invariant
                b <= self.spec.bottom,
                result@.len() == self.spec.top + child_segments@.len() + b,
                blank@ == crate::chars::char_repeat(' ', width as nat),
                forall|q: int|
                    0 <= q < self.spec.top ==> blank_line(#[trigger] result@[q], width as nat),
                forall|q: int|
                    0 <= q < child_segments@.len() ==> padded_line(
                        #[trigger] result@[self.spec.top + q],
                        child_segments@[q],
                        self.spec.left as nat,
                        self.spec.right as nat,
                    ),
                forall|q: int|
                    self.spec.top + child_segments@.len() <= q < result@.len() ==> blank_line(
                        #[trigger] result@[q],
                        width as nat,
                    ),
            decreases self.spec.bottom - b,
        {
            let mut spans: Vec<Span> = Vec::new();
            spans.push(Span::raw(blank.as_str()));
            result.push(Segment::line(spans));
            b = b + 1;
        }
        result
    }
}

impl<R: Renderable> Renderable for Padding<R> {
    /// Render the child at the reduced width, then pad it; the layout is
    /// stated on the inherent `pad_segments`.
    fn render(&self, context: &RenderContext) -> Vec<Segment> {
        let horizontal = if self.spec.left <= usize::MAX - self.spec.right {
            self.spec.left + self.spec.right
        } else {
            usize::MAX
        };
        let child_width = if context.width >= horizontal {
            context.width - horizontal
        } else {
            0
        };
        let child_context = RenderContext {
            width: child_width,
            height: context.height,
            direction: context.direction,
        };
        let child_segments = self.child.render(&child_context);
        self.pad_segments(child_segments, context.width)
    }
}

} // verus!
