//! Tests for the text model, wrapping, and the markup parser.

use fast_rich::markup;
use fast_rich::style::{Color, Style};
use fast_rich::text::{Span, Text};

#[test]
fn test_text_creation() {
    let text = Text::plain("Hello, World!");
    assert_eq!(text.plain_text(), "Hello, World!");
}

#[test]
fn test_markup_round_trip() {
    assert_eq!(markup::parse("[bold]X[/]").plain_text(), "X");
    assert_eq!(markup::parse("plain").plain_text(), "plain");
}

#[test]
fn test_markup_escaping() {
    assert_eq!(markup::parse("[[bold]]").plain_text(), "[bold]");
}

#[test]
fn test_markup_data_brackets_literal() {
    assert_eq!(markup::parse("[1, 2, 3]").plain_text(), "[1, 2, 3]");
    assert_eq!(markup::parse("[Unknown]").plain_text(), "[Unknown]");
}

#[test]
fn test_markup_styles_applied() {
    let text = markup::parse("[bold red]hi[/] there");
    assert_eq!(text.plain_text(), "hi there");
    assert_eq!(text.spans[0].style.foreground, Some(Color::Red));
    assert!(text.spans[0].style.bold);
    assert_eq!(text.spans[0].text, "hi");
}

#[test]
fn test_markup_nested_styles() {
    let text = markup::parse("[bold][red]bold red[/][/]");
    assert_eq!(text.plain_text(), "bold red");
    assert!(text.spans[0].style.bold);
    assert_eq!(text.spans[0].style.foreground, Some(Color::Red));
}

#[test]
fn test_wrap_width_bound() {
    let text = Text::plain("the quick brown fox jumps over the lazy dog");
    let lines = text.wrap(10);
    for line in &lines {
        let width: usize = line.iter().map(|s| s.width()).sum();
        assert!(width <= 10, "line too wide: {}", width);
    }
}

#[test]
fn test_wrap_unbreakable_word() {
    let text = Text::plain("hi extraordinarily long");
    let lines = text.wrap(5);
    let joined: Vec<String> = lines
        .iter()
        .map(|l| l.iter().map(|s| s.text.as_str()).collect::<String>())
        .collect();
    assert!(joined.contains(&"extraordinarily".to_string()));
}

#[test]
fn test_wrap_preserves_interior_space() {
    let text = markup::parse("[red]Red[/] [blue]Blue[/]");
    let lines = text.wrap(60);
    assert_eq!(lines.len(), 1);
    let joined: String = lines[0].iter().map(|s| s.text.as_str()).collect();
    assert_eq!(joined, "Red Blue");
}

#[test]
fn test_wrap_keeps_style_across_break() {
    let red = Style::new().foreground(Color::Red);
    let mut text = Text::new();
    text.push_styled("alpha beta", red);
    let lines = text.wrap(5);
    assert_eq!(lines.len(), 2);
    for line in &lines {
        for span in line {
            assert_eq!(span.style.foreground, Some(Color::Red));
        }
    }
}

#[test]
fn test_wrap_splits_on_newline() {
    let text = Text::plain("one\ntwo");
    let lines = text.wrap(80);
    assert_eq!(lines.len(), 2);
    let first: String = lines[0].iter().map(|s| s.text.as_str()).collect();
    let second: String = lines[1].iter().map(|s| s.text.as_str()).collect();
    assert_eq!(first, "one");
    assert_eq!(second, "two");
}

#[test]
fn test_no_wrap_keeps_natural_width() {
    let text = Text::plain("a line that is rather long").no_wrap();
    let lines = text.wrap(5);
    assert_eq!(lines.len(), 1);
    let joined: String = lines[0].iter().map(|s| s.text.as_str()).collect();
    assert_eq!(joined, "a line that is rather long");
}

#[test]
fn test_span_width_wide_chars() {
    let span = Span::raw("ab");
    assert_eq!(span.width(), 2);
    let wide = Span::raw("你好");
    assert_eq!(wide.width(), 4);
}

#[test]
fn test_text_width_max_line() {
    let text = Text::plain("ab\nabcd\nx");
    assert_eq!(text.width(), 4);
}

#[test]
fn test_push_builders() {
    let mut text = Text::new();
    text.push("plain ");
    text.push_styled("styled", Style::new().bold());
    text.push_span(Span::raw("!"));
    assert_eq!(text.plain_text(), "plain styled!");
    assert_eq!(text.spans.len(), 3);
}

#[test]
fn test_markup_leading_spaces_kept() {
    let text = markup::parse("  [bold]indented[/]");
    assert_eq!(text.plain_text(), "  indented");
    let lines = text.wrap(60);
    let joined: String = lines[0].iter().map(|s| s.text.as_str()).collect();
    assert_eq!(joined, "  indented");
}

#[test]
fn test_markup_unclosed_bracket_literal() {
    assert_eq!(markup::parse("a [unclosed").plain_text(), "a [unclosed");
    assert_eq!(markup::parse("]]").plain_text(), "]");
}

#[test]
fn test_markup_close_tag_with_name() {
    assert_eq!(markup::parse("[bold]a[/bold]b").plain_text(), "ab");
    assert_eq!(markup::parse("x[/]y").plain_text(), "xy");
}

#[test]
fn test_escape_non_ascii_exact() {
    assert_eq!(fast_rich::chars::escape_non_ascii("abc"), "abc");
    assert_eq!(fast_rich::chars::escape_non_ascii("caf\u{e9}"), "caf\\u00e9");
    assert_eq!(fast_rich::chars::escape_non_ascii("\u{1F600}"), "\\ud83d\\ude00");
}
