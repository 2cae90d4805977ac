//! A horizontal rule: a line of dashes with an optional centered title.

use vstd::prelude::*;

verus! {

use crate::style::Style;
use crate::text::{Span, spans_plain};
use crate::renderable::{Renderable, Segment};
use crate::console::RenderContext;
use crate::chars::repeat_char;

/// A horizontal rule across the available width.
#[derive(Debug, Clone)]
pub struct Rule {
    /// The title shown in the middle of the rule, empty for a plain line
    pub title: String,
    /// The style of the rule characters
    pub style: Style,
}

impl Rule {
    /// Create a rule with a title; an empty title gives a plain line.
    pub fn new(title: &str) -> (r: Rule)
        ensures
            r.title@ == title@,
            r.style == crate::style::empty_style(),
    {
        Rule { title: title.to_owned(), style: Style::new() }
    }

    /// Set the style of the rule characters.
    pub fn style(self, style: Style) -> (r: Rule)
        ensures
            r == (Rule { style, ..self }),
    {
        Rule { style, ..self }
    }
}

impl Rule {
    /// Render the rule as one full line: dashes across the width, with the
    /// title centered between spaces when it fits.
    pub fn render_line(&self, width: usize) -> (s: Segment)
        ensures
            s.newline,
    {
        if self.title.as_str().is_empty() {
            let line = repeat_char('\u{2500}', width);
            let mut spans: Vec<Span> = Vec::new();
            spans.push(Span::styled(line.as_str(), self.style));
            return Segment::line(spans);
        }
        let tchars = crate::chars::str_chars(self.title.as_str());
        let twidth = crate::chars::chars_width(&tchars);
        if twidth <= usize::MAX - 2 && twidth + 2 <= width {
            let remaining = width - twidth - 2;
            let left = remaining / 2;
            let right = remaining - left;
            let mut spans: Vec<Span> = Vec::new();
            let lpart = repeat_char('\u{2500}', left);
            spans.push(Span::styled(lpart.as_str(), self.style));
            let mut mid = String::new();
            crate::chars::push_char(&mut mid, ' ');
            mid.append(self.title.as_str());
            crate::chars::push_char(&mut mid, ' ');
            spans.push(Span::raw(mid.as_str()));
            let rpart = repeat_char('\u{2500}', right);
            spans.push(Span::styled(rpart.as_str(), self.style));
            Segment::line(spans)
        } else {
            let line = repeat_char('\u{2500}', width);
            let mut spans: Vec<Span> = Vec::new();
            spans.push(Span::styled(line.as_str(), self.style));
            Segment::line(spans)
        }
    }
}

impl Renderable for Rule {
    /// Render as a single full line; the layout is stated on the inherent
    /// `render_line`.
    fn render(&self, context: &RenderContext) -> Vec<Segment> {
        let mut segs: Vec<Segment> = Vec::new();
        segs.push(self.render_line(context.width));
        segs
    }
}

} // verus!
