//! Render groups: several renderables stacked vertically, with optional
//! spacing and dividers.

use vstd::prelude::*;

verus! {

use crate::renderable::{Renderable, Segment};
use crate::console::RenderContext;
use crate::text::Span;
use crate::rule::Rule;
use crate::chars::repeat_char;

/// Fit strategy for renderables in a group.
#[derive(Debug, Clone, Copy, PartialEq, Eq, Structural)]
pub enum Fit {
    /// Each renderable uses the full width
    Fill,
    /// Each renderable uses its minimum width
    Shrink,
}

/// A group of renderables rendered vertically.
pub struct RenderGroup {
    /// The grouped renderables, in order
    pub renderables: Vec<Box<dyn Renderable>>,
    /// Blank lines between renderables
    pub spacing: usize,
    /// Fit strategy
    pub fit: Fit,
    /// Divider text drawn between renderables, if set
    pub divider: Option<String>,
}

impl RenderGroup {
    /// Create an empty group.
    pub fn new() -> (g: RenderGroup)
        ensures
            g.spacing == 0,
            g.fit is Fill,
            g.divider is None,
    {
        RenderGroup { renderables: Vec::new(), spacing: 0, fit: Fit::Fill, divider: None }
    }

    /// Add a renderable to the group.
    pub fn add(&mut self, renderable: Box<dyn Renderable>)
        ensures
            final(self).spacing == old(self).spacing,
            final(self).fit == old(self).fit,
            final(self).divider == old(self).divider,
    {
        self.renderables.push(renderable);
    }

    /// Set the spacing between renderables, in lines.
    pub fn spacing(self, spacing: usize) -> (g: RenderGroup)
        ensures
            g.spacing == spacing,
            g.fit == self.fit,
            g.divider == self.divider,
    {
        RenderGroup { spacing, ..self }
    }

    /// Set the fit strategy.
    pub fn fit(self, fit: Fit) -> (g: RenderGroup)
        ensures
            g.fit == fit,
            g.spacing == self.spacing,
            g.divider == self.divider,
    {
        RenderGroup { fit, ..self }
    }

    /// Set a divider drawn between renderables.
    pub fn divider(self, divider: &str) -> (g: RenderGroup)
        ensures
            g.divider matches Some(d) && d@ == divider@,
            g.spacing == self.spacing,
            g.fit == self.fit,
    {
        RenderGroup { divider: Some(divider.to_owned()), ..self }
    }

    /// Create a group from a list of renderables.
    pub fn from_renderables(renderables: Vec<Box<dyn Renderable>>) -> (g: RenderGroup)
        ensures
            g.spacing == 0,
            g.fit is Fill,
            g.divider is None,
    {
        RenderGroup { renderables, spacing: 0, fit: Fit::Fill, divider: None }
    }
}

impl Renderable for RenderGroup {
    /// Render every member in turn, with dividers and blank spacing lines
    /// between consecutive members.
    fn render(&self, context: &RenderContext) -> Vec<Segment> {
        let mut result: Vec<Segment> = Vec::new();
        let n = self.renderables.len();
        let mut i: usize = 0;
        while i < n
            invariant
                i <= n,
                n == self.renderables@.len(),
            decreases n - i,
        {
            let item = &self.renderables[i];
            let item_context = match self.fit {
                Fit::Fill => RenderContext {
                    width: context.width,
                    height: context.height,
                    direction: context.direction,
                },
                Fit::Shrink => {
                    let mw = item.min_width();
                    RenderContext {
                        width: if mw < context.width {
                            mw
                        } else {
                            context.width
                        },
                        height: context.height,
                        direction: context.direction,
                    }
                },
            };
            let segments = item.render(&item_context);
            let mut j: usize = 0;
            while j < segments.len()
                decreases segments.len() - j,
            {
                result.push(segments[j].clone());
                j = j + 1;
            }
            if i + 1 < n {
                match &self.divider {
                    Some(divider_text) => {
                        let rule = Rule::new(divider_text.as_str());
                        let divider_segments = rule.render(context);
                        let mut k: usize = 0;
                        while k < divider_segments.len()
                            decreases divider_segments.len() - k,
                        {
                            result.push(divider_segments[k].clone());
                            k = k + 1;
                        }
                    },
                    None => {},
                }
                let blank = repeat_char(' ', context.width);
                let mut s: usize = 0;
                while s < self.spacing
                    decreases self.spacing - s,
                {
                    let mut spans: Vec<Span> = Vec::new();
                    spans.push(Span::raw(blank.as_str()));
                    result.push(Segment::line(spans));
                    s = s + 1;
                }
            }
            i = i + 1;
        }
        result
    }
}

} // verus!
