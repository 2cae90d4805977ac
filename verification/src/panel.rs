//! Panels: content wrapped in a drawn box with an optional title and
//! subtitle.

use vstd::prelude::*;

verus! {

use crate::renderable::{Renderable, Segment};
use crate::console::RenderContext;
use crate::style::Style;
use crate::text::{Span, Text};
use crate::bidi::TextDirection;
use crate::box_drawing::{BoxChars, Line};
use crate::chars::repeat_char;

/// Border style for panels.
#[derive(Debug, Clone, Copy, PartialEq, Eq, Default, Structural)]
pub enum BorderStyle {
    /// Rounded corners (default)
    #[default]
    Rounded,
    /// Square corners
    Square,
    /// Heavy/bold borders
    Heavy,
    /// Double-line borders
    Double,
    /// ASCII-only borders
    Ascii,
    /// ASCII with a double-line header separator
    AsciiDoubleHead,
    /// Minimal borders
    Minimal,
    /// Minimal with a heavy header separator
    MinimalHeavyHead,
    /// Minimal with a double-line header separator
    MinimalDoubleHead,
    /// Horizontal lines only
    Horizontals,
    /// Square with a double-line header separator
    SquareDoubleHead,
    /// Heavy edges with light inner lines
    HeavyEdge,
    /// Heavy header separator over light rows
    HeavyHead,
    /// Double edges with single inner lines
    DoubleEdge,
    /// No visible border, but the space is reserved
    Hidden,
}

impl BorderStyle {
    /// The box character set for this style.
    pub fn to_box(&self) -> (b: BoxChars)
        ensures
            *self is Rounded ==> b.top.left == '\u{256d}' && b.top.right == '\u{256e}'
                && b.bottom.left == '\u{2570}' && b.bottom.right == '\u{256f}',
            *self is Double ==> b.top.left == '\u{2554}',
            *self is Ascii ==> b.top.left == '+' && b.top.mid == '-',
            *self is Square ==> b.top.left == '\u{250c}',
    {
        match *self {
            BorderStyle::Rounded => crate::box_drawing::rounded(),
            BorderStyle::Square => crate::box_drawing::square(),
            BorderStyle::Heavy => crate::box_drawing::heavy(),
            BorderStyle::Double => crate::box_drawing::double(),
            BorderStyle::Ascii => crate::box_drawing::ascii(),
            BorderStyle::AsciiDoubleHead => crate::box_drawing::ascii_double_head(),
            BorderStyle::Minimal => crate::box_drawing::minimal(),
            BorderStyle::MinimalHeavyHead => crate::box_drawing::minimal_heavy_head(),
            BorderStyle::MinimalDoubleHead => crate::box_drawing::minimal_double_head(),
            BorderStyle::Horizontals => crate::box_drawing::horizontals(),
            BorderStyle::SquareDoubleHead => crate::box_drawing::square_double_head(),
            BorderStyle::HeavyEdge => crate::box_drawing::heavy_edge(),
            BorderStyle::HeavyHead => crate::box_drawing::heavy_head(),
            BorderStyle::DoubleEdge => crate::box_drawing::double_edge(),
            BorderStyle::Hidden => crate::box_drawing::hidden(),
        }
    }
}

/// A panel that wraps text content in a box.
#[derive(Debug, Clone)]
pub struct Panel {
    /// The content to display
    pub content: Text,
    /// Optional title at the top
    pub title: Option<String>,
    /// Optional subtitle at the bottom
    pub subtitle: Option<String>,
    /// Border style
    pub border_style: BorderStyle,
    /// Style for the border characters
    pub style: Style,
    /// Style for the title and subtitle
    pub title_style: Style,
    /// Horizontal padding inside the box
    pub padding_x: usize,
    /// Vertical padding inside the box
    pub padding_y: usize,
    /// Whether to expand to the full width
    pub expand: bool,
}

impl Panel {
    /// Create a panel around already built text content.
    pub fn from_text(content: Text) -> (p: Panel)
        ensures
            p.content == content,
            p.title is None,
            p.subtitle is None,
            p.border_style is Rounded,
            p.padding_x == 1,
            p.padding_y == 0,
            p.expand,
    {
        Panel {
            content,
            title: None,
            subtitle: None,
            border_style: BorderStyle::Rounded,
            style: Style::new(),
            title_style: Style::new(),
            padding_x: 1,
            padding_y: 0,
            expand: true,
        }
    }

    /// Create a panel around plain text content.
    pub fn new(content: &str) -> (p: Panel)
        ensures
            crate::text::text_plain(p.content) == content@,
            p.border_style is Rounded,
            p.title is None,
            p.subtitle is None,
            p.padding_x == 1,
            p.padding_y == 0,
            p.expand,
    {
        Panel::from_text(Text::plain(content))
    }

    /// Set the title.
    pub fn title(self, title: &str) -> (p: Panel)
        ensures
            p.title matches Some(t) && t@ == title@,
            p.content == self.content,
            p.subtitle == self.subtitle,
            p.border_style == self.border_style,
    {
        Panel { title: Some(title.to_owned()), ..self }
    }

    /// Set the subtitle.
    pub fn subtitle(self, subtitle: &str) -> (p: Panel)
        ensures
            p.subtitle matches Some(t) && t@ == subtitle@,
            p.content == self.content,
            p.title == self.title,
    {
        Panel { subtitle: Some(subtitle.to_owned()), ..self }
    }

    /// Set the border style.
    pub fn border_style(self, style: BorderStyle) -> (p: Panel)
        ensures
            p == (Panel { border_style: style, ..self }),
    {
        Panel { border_style: style, ..self }
    }

    /// Set the border color and attributes.
    pub fn style(self, style: Style) -> (p: Panel)
        ensures
            p == (Panel { style, ..self }),
    {
        Panel { style, ..self }
    }

    /// Set the title style.
    pub fn title_style(self, style: Style) -> (p: Panel)
        ensures
            p == (Panel { title_style: style, ..self }),
    {
        Panel { title_style: style, ..self }
    }

    /// Set the horizontal padding.
    pub fn padding_x(self, padding: usize) -> (p: Panel)
        ensures
            p == (Panel { padding_x: padding, ..self }),
    {
        Panel { padding_x: padding, ..self }
    }

    /// Set the vertical padding.
    pub fn padding_y(self, padding: usize) -> (p: Panel)
        ensures
            p == (Panel { padding_y: padding, ..self }),
    {
        Panel { padding_y: padding, ..self }
    }

    /// Set both paddings.
    pub fn padding(self, x: usize, y: usize) -> (p: Panel)
        ensures
            p == (Panel { padding_x: x, padding_y: y, ..self }),
    {
        self.padding_x(x).padding_y(y)
    }

    /// Set whether the panel expands to the full width.
    pub fn expand(self, expand: bool) -> (p: Panel)
        ensures
            p == (Panel { expand, ..self }),
    {
        Panel { expand, ..self }
    }

    fn render_bar(
        &self,
        width: usize,
        chars: Line,
        caption: &Option<String>,
        is_rtl: bool,
        lead: bool,
    ) -> Segment {
        let inner_width = if width >= 2 {
            width - 2
        } else {
            0
        };
        let mut spans: Vec<Span> = Vec::new();
        let mut left_str = String::new();
        crate::chars::push_char(&mut left_str, chars.left);
        spans.push(Span::styled(left_str.as_str(), self.style));
        match caption {
            Some(title) => {
                let mut titled = String::new();
                crate::chars::push_char(&mut titled, ' ');
                titled.append(title.as_str());
                crate::chars::push_char(&mut titled, ' ');
                let tchars = crate::chars::str_chars(titled.as_str());
                let title_width = crate::chars::chars_width(&tchars);
                if title_width >= inner_width {
                    let fill = repeat_char(chars.mid, inner_width);
                    spans.push(Span::styled(fill.as_str(), self.style));
                } else {
                    let remaining = inner_width - title_width;
                    let near: usize = if remaining < 2 {
                        remaining
                    } else {
                        2
                    };
                    let far = remaining - near;
                    let (left_len, right_len) = if is_rtl == lead {
                        (far, near)
                    } else {
                        (near, far)
                    };
                    let lfill = repeat_char(chars.mid, left_len);
                    spans.push(Span::styled(lfill.as_str(), self.style));
                    spans.push(Span::styled(titled.as_str(), self.title_style));
                    let rfill = repeat_char(chars.mid, right_len);
                    spans.push(Span::styled(rfill.as_str(), self.style));
                }
            },
            None => {
                let fill = repeat_char(chars.mid, inner_width);
                spans.push(Span::styled(fill.as_str(), self.style));
            },
        }
        let mut right_str = String::new();
        crate::chars::push_char(&mut right_str, chars.right);
        spans.push(Span::styled(right_str.as_str(), self.style));
        Segment::line(spans)
    }

    fn render_content_line(
        &self,
        line: Vec<Span>,
        width: usize,
        chars: Line,
        is_rtl: bool,
    ) -> Segment {
        let frame = if self.padding_x <= (usize::MAX - 2) / 2 && 2 + self.padding_x * 2 <= width {
            2 + self.padding_x * 2
        } else {
            width
        };
        let inner_width = width - frame;
        let content_width = Span::line_width(&line);
        let padding_right = if inner_width >= content_width {
            inner_width - content_width
        } else {
            0
        };
        let (left_pad, right_pad) = if is_rtl {
            (
                if padding_right <= usize::MAX - self.padding_x {
                    padding_right + self.padding_x
                } else {
                    usize::MAX
                },
                self.padding_x,
            )
        } else {
            (
                self.padding_x,
                if padding_right <= usize::MAX - self.padding_x {
                    padding_right + self.padding_x
                } else {
                    usize::MAX
                },
            )
        };
        let mut spans: Vec<Span> = Vec::new();
        let mut left_str = String::new();
        crate::chars::push_char(&mut left_str, chars.left);
        spans.push(Span::styled(left_str.as_str(), self.style));
        let lfill = repeat_char(' ', left_pad);
        spans.push(Span::styled(lfill.as_str(), self.style));
        let mut k: usize = 0;
        while k < line.len()
            decreases line.len() - k,
        {
            spans.push(line[k].clone());
            k = k + 1;
        }
        let rfill = repeat_char(' ', right_pad);
        spans.push(Span::styled(rfill.as_str(), self.style));
        let mut right_str = String::new();
        crate::chars::push_char(&mut right_str, chars.right);
        spans.push(Span::styled(right_str.as_str(), self.style));
        Segment::line(spans)
    }

    fn render_empty_line(&self, width: usize, chars: Line) -> Segment {
        let inner_width = if width >= 2 {
            width - 2
        } else {
            0
        };
        let mut spans: Vec<Span> = Vec::new();
        let mut left_str = String::new();
        crate::chars::push_char(&mut left_str, chars.left);
        spans.push(Span::styled(left_str.as_str(), self.style));
        let fill = repeat_char(' ', inner_width);
        spans.push(Span::styled(fill.as_str(), self.style));
        let mut right_str = String::new();
        crate::chars::push_char(&mut right_str, chars.right);
        spans.push(Span::styled(right_str.as_str(), self.style));
        Segment::line(spans)
    }
}

fn swap_line_sides(line: Line) -> (r: Line)
    ensures
        r.left == line.right,
        r.right == line.left,
        r.mid == line.mid,
        r.cross == line.cross,
{
    Line { left: line.right, right: line.left, ..line }
}

impl Renderable for Panel {
    /// Render the panel: top border with title, padded content lines, and
    /// bottom border with subtitle; in a right-to-left context the border
    /// sides and captions swap.
    fn render(&self, context: &RenderContext) -> Vec<Segment> {
        let plain = self.content.plain_text();
        let is_rtl = crate::bidi::is_paragraph_rtl(
            plain.as_str(),
            match context.direction {
                TextDirection::Rtl => TextDirection::Rtl,
                TextDirection::Ltr => TextDirection::Ltr,
                TextDirection::Auto => TextDirection::Ltr,
            },
        );
        let mut box_chars = self.border_style.to_box();
        if is_rtl {
            box_chars = BoxChars {
                top: swap_line_sides(box_chars.top),
                head: swap_line_sides(box_chars.head),
                mid: swap_line_sides(box_chars.mid),
                bottom: swap_line_sides(box_chars.bottom),
                header: swap_line_sides(box_chars.header),
                cell: swap_line_sides(box_chars.cell),
            };
        }
        let frame = if self.padding_x <= (usize::MAX - 2) / 2 {
            2 + self.padding_x * 2
        } else {
            usize::MAX
        };
        let width = if self.expand {
            context.width
        } else {
            let content_width = self.content.width();
            let min_width = if content_width <= usize::MAX - frame {
                content_width + frame
            } else {
                usize::MAX
            };
            if min_width < context.width {
                min_width
            } else {
                context.width
            }
        };
        let inner_width = if width >= frame {
            width - frame
        } else {
            0
        };
        let content_lines = self.content.wrap(inner_width);
        let mut segments: Vec<Segment> = Vec::new();
        segments.push(self.render_bar(width, box_chars.top, &self.title, is_rtl, true));
        let mut p: usize = 0;
        while p < self.padding_y
            decreases self.padding_y - p,
        {
            segments.push(self.render_empty_line(width, box_chars.cell));
            p = p + 1;
        }
        let mut i: usize = 0;
        while i < content_lines.len()
            decreases content_lines.len() - i,
        {
            let line = content_lines[i].clone();
            segments.push(self.render_content_line(line, width, box_chars.cell, is_rtl));
            i = i + 1;
        }
        let mut p2: usize = 0;
        while p2 < self.padding_y
            decreases self.padding_y - p2,
        {
            segments.push(self.render_empty_line(width, box_chars.cell));
            p2 = p2 + 1;
        }
        segments.push(self.render_bar(width, box_chars.bottom, &self.subtitle, is_rtl, false));
        segments
    }
}

} // verus!
