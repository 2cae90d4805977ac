//! Tests for panels, alignment, padding, rules, groups and themes.

use fast_rich::align::{Align, VerticalAlignment};
use fast_rich::bidi::TextDirection;
use fast_rich::console::RenderContext;
use fast_rich::group::{Fit, RenderGroup};
use fast_rich::padding::{Padding, PaddingSpec};
use fast_rich::panel::{BorderStyle, Panel};
use fast_rich::renderable::Renderable;
use fast_rich::style::Color;
use fast_rich::text::Text;
use fast_rich::theme::Theme;

fn ctx(width: usize) -> RenderContext {
    RenderContext {
        width,
        height: None,
        direction: TextDirection::Auto,
    }
}

#[test]
fn test_panel_simple() {
    let panel = Panel::new("Hello");
    let segments = panel.render(&ctx(20));

    assert!(segments.len() >= 3);

    let top = segments[0].plain_text();
    assert!(top.starts_with('╭'));
    assert!(top.ends_with('╮'));
}

#[test]
fn test_panel_with_title() {
    let panel = Panel::new("Content").title("Title");
    let segments = panel.render(&ctx(30));

    let top = segments[0].plain_text();
    assert!(top.contains("Title"));
}

#[test]
fn test_panel_border_styles() {
    let panel = Panel::new("Test").border_style(BorderStyle::Double);
    let segments = panel.render(&ctx(20));

    let top = segments[0].plain_text();
    assert!(top.starts_with('╔'));
}

#[test]
fn test_align_center() {
    let text = Text::plain("Hello");
    let aligned = Align::center(text);

    let segments = aligned.render(&ctx(20));

    assert!(!segments.is_empty());
}

#[test]
fn test_align_left() {
    let text = Text::plain("Test");
    let aligned = Align::left(text);

    let segments = aligned.render(&ctx(20));

    assert!(!segments.is_empty());
}

#[test]
fn test_align_right() {
    let text = Text::plain("Right");
    let aligned = Align::right(text);

    let segments = aligned.render(&ctx(20));

    assert!(!segments.is_empty());
}

#[test]
fn test_vertical_alignment() {
    let text = Text::plain("Vertical");
    let aligned = Align::center(text)
        .vertical(VerticalAlignment::Middle)
        .height(5);

    let segments = aligned.render(&ctx(20));

    assert!(segments.len() >= 3);
}

#[test]
fn test_align_center_pads_both_sides() {
    let text = Text::plain("ab");
    let aligned = Align::center(text);
    let segments = aligned.render(&ctx(6));
    assert_eq!(segments[0].plain_text(), "  ab  ");
}

#[test]
fn test_padding_all() {
    let text = Text::plain("Content");
    let padded = Padding::all(text, 2);

    let segments = padded.render(&ctx(20));

    assert!(segments.len() >= 3);
}

#[test]
fn test_padding_symmetric() {
    let text = Text::plain("Test");
    let padded = Padding::symmetric(text, 1, 3);

    let segments = padded.render(&ctx(20));

    assert!(!segments.is_empty());
}

#[test]
fn test_padding_spec() {
    let spec = PaddingSpec::new(1, 2, 3, 4);
    assert_eq!(spec.top, 1);
    assert_eq!(spec.right, 2);
    assert_eq!(spec.bottom, 3);
    assert_eq!(spec.left, 4);
}

#[test]
fn test_padding_spec_all() {
    let spec = PaddingSpec::all(5);
    assert_eq!(spec.top, 5);
    assert_eq!(spec.right, 5);
    assert_eq!(spec.bottom, 5);
    assert_eq!(spec.left, 5);
}

#[test]
fn test_padding_spec_symmetric() {
    let spec = PaddingSpec::symmetric(2, 4);
    assert_eq!(spec.top, 2);
    assert_eq!(spec.bottom, 2);
    assert_eq!(spec.left, 4);
    assert_eq!(spec.right, 4);
}

#[test]
fn test_padding_none() {
    let spec = PaddingSpec::none();
    assert_eq!(spec.top, 0);
    assert_eq!(spec.right, 0);
    assert_eq!(spec.bottom, 0);
    assert_eq!(spec.left, 0);
}

#[test]
fn test_render_group_creation() {
    let group = RenderGroup::new();
    assert_eq!(group.renderables.len(), 0);
}

#[test]
fn test_add_renderables() {
    let mut group = RenderGroup::new();
    group.add(Box::new(Text::plain("First")));
    group.add(Box::new(Text::plain("Second")));

    assert_eq!(group.renderables.len(), 2);
}

#[test]
fn test_spacing() {
    let group = RenderGroup::new().spacing(2);
    assert_eq!(group.spacing, 2);
}

#[test]
fn test_fit() {
    let group = RenderGroup::new().fit(Fit::Shrink);
    assert_eq!(group.fit, Fit::Shrink);
}

#[test]
fn test_divider() {
    let group = RenderGroup::new().divider("---");
    assert!(group.divider.is_some());
}

#[test]
fn test_group_renders_members_in_order() {
    let mut group = RenderGroup::new();
    group.add(Box::new(Text::plain("one")));
    group.add(Box::new(Text::plain("two")));
    let segments = group.render(&ctx(10));
    assert_eq!(segments.len(), 2);
    assert_eq!(segments[0].plain_text(), "one");
    assert_eq!(segments[1].plain_text(), "two");
}

#[test]
fn test_theme_get_style() {
    let theme = Theme::default_theme();
    assert_eq!(
        theme.get_style("error").foreground,
        Some(Color::BrightRed)
    );
    assert_eq!(
        theme.get_style("unknown").foreground,
        Some(Color::Default)
    );
}

#[test]
fn test_theme_custom_colors() {
    let mut theme = Theme::new();
    theme.add_color("brand", Color::Ansi256(99));
    assert_eq!(
        theme.get_style("brand").foreground,
        Some(Color::Ansi256(99))
    );
    theme.add_color("brand", Color::Red);
    assert_eq!(theme.get_style("brand").foreground, Some(Color::Red));
}

#[test]
fn test_theme_variants() {
    assert_eq!(Theme::monokai().primary, Color::rgb(102, 217, 239));
    assert_eq!(Theme::night_owl().primary, Color::rgb(130, 170, 255));
    assert_eq!(Theme::new().primary, Color::Blue);
}

#[test]
fn test_padding_frames_each_line_with_spaces() {
    let padding = Padding::new(fast_rich::text::Text::plain("x"), PaddingSpec::new(1, 2, 1, 3));
    let context = RenderContext {
        width: 10,
        height: None,
        direction: TextDirection::Auto,
    };
    let segments = fast_rich::renderable::Renderable::render(&padding, &context);
    assert_eq!(segments.len(), 3);
    let top: String = segments[0].spans.iter().map(|s| s.text.as_str()).collect();
    assert_eq!(top, "          ");
    let mid: String = segments[1].spans.iter().map(|s| s.text.as_str()).collect();
    assert_eq!(mid, "   x  ");
    let bottom: String = segments[2].spans.iter().map(|s| s.text.as_str()).collect();
    assert_eq!(bottom, "          ");
}

#[test]
fn test_align_right_pads_on_the_left() {
    let align = Align::right(fast_rich::text::Text::plain("ab"));
    let context = RenderContext {
        width: 6,
        height: None,
        direction: TextDirection::Auto,
    };
    let segments = fast_rich::renderable::Renderable::render(&align, &context);
    assert_eq!(segments.len(), 1);
    let line: String = segments[0].spans.iter().map(|s| s.text.as_str()).collect();
    assert_eq!(line, "    ab");
}

#[test]
fn test_assemble_spans_reconstructs_text() {
    let chars: Vec<char> = "see 42 and 7".chars().collect();
    let style = fast_rich::style::Style::new().bold();
    let kept = vec![(4usize, 6usize, style), (11usize, 12usize, style)];
    let spans = fast_rich::highlighter::assemble_spans(&chars, &kept);
    let joined: String = spans.iter().map(|s| s.text.as_str()).collect();
    assert_eq!(joined, "see 42 and 7");
    assert_eq!(spans[1].text, "42");
    assert_eq!(spans[1].style, style);
    assert_eq!(spans[3].text, "7");
}
