//! Layout trees: nested horizontal and vertical splits of the screen, with
//! fixed sizes, ratios and minimum sizes.

use vstd::prelude::*;

verus! {

use crate::renderable::{Renderable, Segment};
use crate::console::RenderContext;
use crate::text::Span;
use crate::chars::repeat_char;

/// Split direction of a layout node.
#[derive(Clone, Copy, Debug, PartialEq, Eq, Structural)]
pub enum Direction {
    /// Children side by side
    Horizontal,
    /// Children stacked
    Vertical,
}

/// A node in the layout tree.
pub struct Layout {
    /// Renderable content, for leaf nodes
    pub renderable: Option<Box<dyn Renderable>>,
    /// Child layouts
    pub children: Vec<Layout>,
    /// Split direction
    pub direction: Direction,
    /// Fixed size, if set
    pub size: Option<u16>,
    /// Ratio for flexible sizing
    pub ratio: u32,
    /// Name for debugging
    pub name: Option<String>,
    /// Minimum size
    pub minimum_size: u16,
    /// Whether this layout is visible
    pub visible: bool,
}

impl Layout {
    /// Create an empty layout.
    pub fn new() -> (l: Layout)
        ensures
            l.renderable is None,
            l.children@.len() == 0,
            l.direction is Vertical,
            l.size is None,
            l.ratio == 1,
            l.name is None,
            l.minimum_size == 0,
            l.visible,
    {
        Layout {
            renderable: None,
            children: Vec::new(),
            direction: Direction::Vertical,
            size: None,
            ratio: 1,
            name: None,
            minimum_size: 0,
            visible: true,
        }
    }

    /// Name the layout, for debugging.
    pub fn with_name(self, name: &str) -> (l: Layout)
        ensures
            l.name matches Some(n) && n@ == name@,
            l.size == self.size,
            l.ratio == self.ratio,
            l.minimum_size == self.minimum_size,
    {
        Layout { name: Some(name.to_owned()), ..self }
    }

    /// Set a fixed size.
    pub fn with_size(self, size: u16) -> (l: Layout)
        ensures
            l.size == Some(size),
            l.ratio == self.ratio,
            l.minimum_size == self.minimum_size,
            l.name == self.name,
    {
        Layout { size: Some(size), ..self }
    }

    /// Set a flexible ratio.
    pub fn with_ratio(self, ratio: u32) -> (l: Layout)
        ensures
            l.ratio == ratio,
            l.size == self.size,
            l.minimum_size == self.minimum_size,
            l.name == self.name,
    {
        Layout { ratio, ..self }
    }

    /// Set a minimum size.
    pub fn with_minimum_size(self, size: u16) -> (l: Layout)
        ensures
            l.minimum_size == size,
            l.size == self.size,
            l.ratio == self.ratio,
            l.name == self.name,
    {
        Layout { minimum_size: size, ..self }
    }

    /// Set the renderable content of a leaf node.
    pub fn update(&mut self, renderable: Box<dyn Renderable>)
        ensures
            final(self).renderable is Some,
            final(self).direction == old(self).direction,
            final(self).size == old(self).size,
            final(self).ratio == old(self).ratio,
    {
        self.renderable = Some(renderable);
    }

    /// Mutable access to the children.
    pub fn children_mut(&mut self) -> (r: &mut Vec<Layout>)
        ensures
            final(self).renderable == old(self).renderable,
    {
        &mut self.children
    }

    /// Split into columns.
    pub fn split_row(&mut self, layouts: Vec<Layout>)
        ensures
            final(self).direction is Horizontal,
            final(self).children@.len() == layouts@.len(),
            final(self).size == old(self).size,
            final(self).ratio == old(self).ratio,
    {
        self.direction = Direction::Horizontal;
        self.children = layouts;
    }

    /// Split into rows.
    pub fn split_column(&mut self, layouts: Vec<Layout>)
        ensures
            final(self).direction is Vertical,
            final(self).children@.len() == layouts@.len(),
            final(self).size == old(self).size,
            final(self).ratio == old(self).ratio,
    {
        self.direction = Direction::Vertical;
        self.children = layouts;
    }

    /// Compute the split sizes for a given total space: fixed sizes first,
    /// then minimum sizes for flexible children whose share would fall
    /// short, then the remaining space distributed by ratio with the last
    /// flexible child absorbing the rounding remainder.
    pub fn calculate_splits(&self, total_size: u16) -> (r: Vec<u16>)
        ensures
            r@.len() == self.children@.len(),
    {
        let count = self.children.len();
        if count == 0 {
            let r: Vec<u16> = Vec::new();
            return r;
        }
        let mut sizes: Vec<u16> = Vec::new();
        let mut k: usize = 0;
        while k < count
            invariant
                k <= count,
                sizes@.len() == k,
            decreases count - k,
        {
            sizes.push(0);
            k = k + 1;
        }
        let mut remaining = total_size;
        let mut candidates: Vec<usize> = Vec::new();
        let mut i: usize = 0;
        while i < count
            invariant
                i <= count,
                count == self.children@.len(),
                sizes@.len() == count,
                forall|m: int| 0 <= m < candidates@.len() ==> (#[trigger] candidates@[m]) < count,
            decreases count - i,
        {
            match self.children[i].size {
                Some(fixed) => {
                    let s = if fixed < remaining {
                        fixed
                    } else {
                        remaining
                    };
                    sizes.set(i, s);
                    remaining = remaining - s;
                },
                None => {
                    candidates.push(i);
                },
            }
            i = i + 1;
        }
        let mut rounds: usize = 0;
        let mut finished = false;
        while !finished && candidates.len() > 0 && rounds <= count
            invariant
                count == self.children@.len(),
                sizes@.len() == count,
                forall|m: int| 0 <= m < candidates@.len() ==> (#[trigger] candidates@[m]) < count,
                rounds <= count,
            decreases (if finished {
                0int
            } else {
                1int
            }), count + 1 - rounds,
        {
            if rounds < count {
                rounds = rounds + 1;
            } else {
                finished = true;
            }
            let mut total_ratio: u64 = 0;
            let mut m: usize = 0;
            while m < candidates.len()
                invariant
                    count == self.children@.len(),
                    forall|q: int|
                        0 <= q < candidates@.len() ==> (#[trigger] candidates@[q]) < count,
                    total_ratio <= 0x100_0000_0000,
                    m <= candidates@.len(),
                decreases candidates@.len() - m,
            {
                let idx = candidates[m];
                let add = self.children[idx].ratio as u64;
                total_ratio = if total_ratio + add > 0x100_0000_0000 {
                    0x100_0000_0000
                } else {
                    total_ratio + add
                };
                m = m + 1;
            }
            if remaining == 0 || total_ratio == 0 {
                let mut m2: usize = 0;
                while m2 < candidates.len()
                    invariant
                        count == self.children@.len(),
                        sizes@.len() == count,
                        forall|q: int|
                            0 <= q < candidates@.len() ==> (#[trigger] candidates@[q]) < count,
                        m2 <= candidates@.len(),
                    decreases candidates@.len() - m2,
                {
                    let idx = candidates[m2];
                    sizes.set(idx, 0);
                    m2 = m2 + 1;
                }
                finished = true;
            } else {
                let mut violator: Option<usize> = None;
                let mut m3: usize = 0;
                while m3 < candidates.len() && violator.is_none()
                    invariant
                        count == self.children@.len(),
                        forall|q: int|
                            0 <= q < candidates@.len() ==> (#[trigger] candidates@[q]) < count,
                        m3 <= candidates@.len(),
                        total_ratio <= 0x100_0000_0000,
                        violator matches Some(p) ==> p < candidates@.len(),
                    decreases (if violator is Some {
                        0int
                    } else {
                        1int
                    }), candidates@.len() - m3,
                {
                    let idx = candidates[m3];
                    let child_ratio = self.children[idx].ratio as u64;
                    let child_min = self.children[idx].minimum_size as u64;
                    proof {
                        assert(child_ratio * (remaining as u64) <= 0xFFFF_FFFFu64 * 0xFFFFu64)
                            by (nonlinear_arith)
                            requires
                                child_ratio <= 0xFFFF_FFFF,
                                remaining as u64 <= 0xFFFF,
                        ;
                        assert(child_min * total_ratio <= 0xFFFFu64 * 0x100_0000_0000u64)
                            by (nonlinear_arith)
                            requires
                                child_min <= 0xFFFF,
                                total_ratio <= 0x100_0000_0000,
                        ;
                    }
                    if child_ratio * (remaining as u64) < child_min * total_ratio {
                        violator = Some(m3);
                    } else {
                        m3 = m3 + 1;
                    }
                }
                match violator {
                    Some(idx_c) => {
                        let i2 = candidates.remove(idx_c);
                        let child_min = self.children[i2].minimum_size;
                        let s = if child_min < remaining {
                            child_min
                        } else {
                            remaining
                        };
                        sizes.set(i2, s);
                        remaining = remaining - s;
                    },
                    None => {
                        let mut distributed: u16 = 0;
                        let mut m4: usize = 0;
                        while m4 < candidates.len()
                            invariant
                                count == self.children@.len(),
                                sizes@.len() == count,
                                forall|q: int|
                                    0 <= q < candidates@.len() ==> (#[trigger] candidates@[q])
                                        < count,
                                m4 <= candidates@.len(),
                                distributed <= remaining,
                                total_ratio <= 0x100_0000_0000,
                                total_ratio >= 1,
                            decreases candidates@.len() - m4,
                        {
                            let idx = candidates[m4];
                            let left = remaining - distributed;
                            let s: u16 = if m4 + 1 == candidates.len() {
                                left
                            } else {
                                let cr = self.children[idx].ratio as u64;
                                proof {
                                    assert(2 * cr * (remaining as u64) <= 2 * 0xFFFF_FFFFu64
                                        * 0xFFFFu64) by (nonlinear_arith)
                                        requires
                                            cr <= 0xFFFF_FFFF,
                                            remaining as u64 <= 0xFFFF,
                                    ;
                                }
                                let num = 2 * cr * (remaining as u64) + total_ratio;
                                let rounded = num / (2 * total_ratio);
                                if rounded < left as u64 {
                                    rounded as u16
                                } else {
                                    left
                                }
                            };
                            sizes.set(idx, s);
                            distributed = distributed + s;
                            m4 = m4 + 1;
                        }
                        finished = true;
                    },
                }
            }
        }
                sizes
    }
}

impl Renderable for Layout {
    /// Render the layout tree: leaves render their content (or a blank
    /// line), vertical splits stack children with height constraints, and
    /// horizontal splits render columns and join them line by line.
    fn render(&self, context: &RenderContext) -> Vec<Segment>
        decreases *self,
    {
        broadcast use vstd::std_specs::vec::axiom_vec_index_decreases;

        if !self.visible {
            let r: Vec<Segment> = Vec::new();
            return r;
        }
        if self.children.len() == 0 {
            match &self.renderable {
                Some(r) => {
                    return r.render(context);
                },
                None => {
                    let blank = repeat_char(' ', context.width);
                    let mut spans: Vec<Span> = Vec::new();
                    spans.push(Span::raw(blank.as_str()));
                    let mut segs: Vec<Segment> = Vec::new();
                    segs.push(Segment::new(spans));
                    return segs;
                },
            }
        }
        let mut segments: Vec<Segment> = Vec::new();
        match self.direction {
            Direction::Vertical => {
                match context.height {
                    Some(total_height) => {
                        let h16: u16 = if total_height < 65535 {
                            total_height as u16
                        } else {
                            65535
                        };
                        let splits = self.calculate_splits(h16);
                        let mut i: usize = 0;
                        while i < self.children.len()
                            invariant
                                splits@.len() == self.children@.len(),
                                i <= self.children@.len(),
                            decreases self.children@.len() - i,
                        {
                            let h = splits[i] as usize;
                            if h > 0 {
                                let child_ctx = RenderContext {
                                    width: context.width,
                                    height: Some(h),
                                    direction: context.direction,
                                };
                                proof {
                                    assert(decreases_to!(*self => self.children));
                                    let ghost child = self.children@[i as int];
                                    assert(decreases_to!(self.children => child));
                                }
                                let child_segments = self.children[i].render(&child_ctx);
                                let mut count: usize = 0;
                                let mut j: usize = 0;
                                while j < child_segments.len() && count < h
                                    decreases child_segments.len() - j,
                                {
                                    segments.push(child_segments[j].clone());
                                    count = count + 1;
                                    j = j + 1;
                                }
                                let blank = repeat_char(' ', context.width);
                                while count < h
                                    decreases h - count,
                                {
                                    let mut spans: Vec<Span> = Vec::new();
                                    spans.push(Span::raw(blank.as_str()));
                                    segments.push(Segment::new(spans));
                                    count = count + 1;
                                }
                            }
                            i = i + 1;
                        }
                    },
                    None => {
                        let mut i: usize = 0;
                        while i < self.children.len()
                            invariant
                                i <= self.children@.len(),
                            decreases self.children@.len() - i,
                        {
                            proof {
                                assert(decreases_to!(*self => self.children));
                                let ghost child = self.children@[i as int];
                                assert(decreases_to!(self.children => child));
                            }
                            let child_segments = self.children[i].render(context);
                            let mut j: usize = 0;
                            while j < child_segments.len()
                                decreases child_segments.len() - j,
                            {
                                segments.push(child_segments[j].clone());
                                j = j + 1;
                            }
                            i = i + 1;
                        }
                    },
                }
            },
            Direction::Horizontal => {
                let w16: u16 = if context.width < 65535 {
                    context.width as u16
                } else {
                    65535
                };
                let splits = self.calculate_splits(w16);
                let mut columns: Vec<Vec<Segment>> = Vec::new();
                let mut max_lines: usize = 0;
                let mut i: usize = 0;
                while i < self.children.len()
                    invariant
                        splits@.len() == self.children@.len(),
                        i <= self.children@.len(),
                        columns@.len() == i,
                    decreases self.children@.len() - i,
                {
                    let w = splits[i] as usize;
                    if w == 0 {
                        let empty: Vec<Segment> = Vec::new();
                        columns.push(empty);
                    } else {
                        let child_ctx = RenderContext {
                            width: w,
                            height: context.height,
                            direction: context.direction,
                        };
                        proof {
                            assert(decreases_to!(*self => self.children));
                            let ghost child = self.children@[i as int];
                            assert(decreases_to!(self.children => child));
                        }
                        let child_segs = self.children[i].render(&child_ctx);
                        if child_segs.len() > max_lines {
                            max_lines = child_segs.len();
                        }
                        columns.push(child_segs);
                    }
                    i = i + 1;
                }
                let final_lines = match context.height {
                    Some(h) => h,
                    None => max_lines,
                };
                let mut line_idx: usize = 0;
                while line_idx < final_lines
                    invariant
                        splits@.len() == self.children@.len(),
                        columns@.len() == self.children@.len(),
                    decreases final_lines - line_idx,
                {
                    let mut line_spans: Vec<Span> = Vec::new();
                    let mut col: usize = 0;
                    while col < columns.len()
                        invariant
                            splits@.len() == self.children@.len(),
                            columns@.len() == self.children@.len(),
                            col <= columns@.len(),
                        decreases columns@.len() - col,
                    {
                        let segs = &columns[col];
                        if line_idx < segs.len() {
                            let seg = &segs[line_idx];
                            let mut k: usize = 0;
                            while k < seg.spans.len()
                                decreases seg.spans.len() - k,
                            {
                                line_spans.push(seg.spans[k].clone());
                                k = k + 1;
                            }
                        } else {
                            let w = splits[col] as usize;
                            let fill = repeat_char(' ', w);
                            line_spans.push(Span::raw(fill.as_str()));
                        }
                        col = col + 1;
                    }
                    segments.push(Segment::line(line_spans));
                    line_idx = line_idx + 1;
                }
            },
        }
        segments
    }
}

impl Default for Layout {
    /// An empty layout.
    fn default() -> (l: Layout)
        ensures
            l.renderable is None,
            l.visible,
    {
        Layout::new()
    }
}

} // verus!
