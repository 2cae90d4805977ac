//! The rendering contract: a renderable turns a render context into display
//! segments, one per output line.

use vstd::prelude::*;

verus! {

use crate::text::{Span, spans_plain, spans_cells, spans_to_string};
use crate::style::Style;
use crate::console::RenderContext;

/// One rendered output line: ordered spans and a flag saying whether the
/// line ends with a newline.
#[derive(Debug, Clone)]
pub struct Segment {
    /// The styled runs of the line
    pub spans: Vec<Span>,
    /// Whether a newline follows the line
    pub newline: bool,
}

impl Segment {
    /// A segment without a trailing newline.
    pub fn new(spans: Vec<Span>) -> (s: Segment)
        ensures
            s.spans@ == spans@,
            !s.newline,
    {
        Segment { spans, newline: false }
    }

    /// A full line: a segment with a trailing newline.
    pub fn line(spans: Vec<Span>) -> (s: Segment)
        ensures
            s.spans@ == spans@,
            s.newline,
    {
        Segment { spans, newline: true }
    }

    /// An empty line.
    pub fn empty_line() -> (s: Segment)
        ensures
            s.spans@.len() == 0,
            s.newline,
    {
        Segment { spans: Vec::new(), newline: true }
    }

    /// The text of the line, ignoring style.
    pub fn plain_text(&self) -> (r: String)
        ensures
            r@ == spans_plain(self.spans@),
    {
        spans_to_string(&self.spans)
    }
}

/// The concatenated cells of a list of segments: each segment's spans,
/// expanded character by character.
pub open spec fn segments_cells(ss: Seq<Segment>) -> Seq<(char, Style)>
    decreases ss.len(),
{
    if ss.len() == 0 {
        Seq::empty()
    } else {
        spans_cells(ss[0].spans@) + segments_cells(ss.drop_first())
    }
}

/// The rows of a list of segments: each segment's cells.
pub open spec fn segment_rows(segs: Seq<Segment>) -> Seq<Seq<(char, Style)>> {
    segs.map_values(|s: Segment| spans_cells(s.spans@))
}

pub proof fn lemma_segments_cells_push(ss: Seq<Segment>, s: Segment)
    ensures
        segments_cells(ss.push(s)) == segments_cells(ss) + spans_cells(s.spans@),
    decreases ss.len(),
{
    if ss.len() == 0 {
        let p = ss.push(s);
        assert(p.drop_first() =~= Seq::<Segment>::empty());
        assert(p[0] == s);
        assert(segments_cells(p) == spans_cells(p[0].spans@) + segments_cells(p.drop_first()));
        assert(spans_cells(s.spans@) + Seq::<(char, Style)>::empty() =~= spans_cells(s.spans@));
        assert(segments_cells(ss) + spans_cells(s.spans@) =~= spans_cells(s.spans@));
    } else {
        let p = ss.push(s);
        assert(p.drop_first() =~= ss.drop_first().push(s));
        assert(p[0] == ss[0]);
        assert(segments_cells(p) == spans_cells(p[0].spans@) + segments_cells(p.drop_first()));
        lemma_segments_cells_push(ss.drop_first(), s);
        assert(spans_cells(ss[0].spans@) + (segments_cells(ss.drop_first()) + spans_cells(
            s.spans@,
        )) =~= (spans_cells(ss[0].spans@) + segments_cells(ss.drop_first())) + spans_cells(
            s.spans@,
        ));
    }
}

/// The capability contract implemented by everything that can be drawn:
/// render into a list of segments for a given context. Lines should not
/// exceed the context width; non-empty content yields at least one segment.
pub trait Renderable {
    /// Render into display segments for the given context.
    fn render(&self, context: &RenderContext) -> Vec<Segment>;

    /// The smallest width at which this renderable is useful.
    fn min_width(&self) -> usize {
        1
    }

    /// The width this renderable would take with no constraint.
    fn max_width(&self) -> usize {
        usize::MAX
    }
}

impl Renderable for Box<dyn Renderable> {
    /// Delegate to the boxed renderable.
    fn render(&self, context: &RenderContext) -> Vec<Segment> {
        (**self).render(context)
    }

    /// Delegate to the boxed renderable.
    fn min_width(&self) -> usize {
        (**self).min_width()
    }

    /// Delegate to the boxed renderable.
    fn max_width(&self) -> usize {
        (**self).max_width()
    }
}

} // verus!
