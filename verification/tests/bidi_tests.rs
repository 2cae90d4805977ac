//! Tests for text direction, mirroring, Arabic shaping, and bidirectional
//! reordering.

use fast_rich::bidi::{
    is_rtl, mirror_char, mirror_string, reorder_for_display, reorder_styled_spans, TextDirection,
};
use fast_rich::shaping::reshape;
use fast_rich::style::{Color, Style};
use fast_rich::text::Span;

#[test]
fn test_text_direction_default() {
    assert_eq!(TextDirection::default(), TextDirection::Auto);
}

#[test]
fn test_mirror_brackets() {
    assert_eq!(mirror_char('('), ')');
    assert_eq!(mirror_char(')'), '(');
    assert_eq!(mirror_char('['), ']');
    assert_eq!(mirror_char(']'), '[');
    assert_eq!(mirror_char('{'), '}');
    assert_eq!(mirror_char('}'), '{');
    assert_eq!(mirror_char('<'), '>');
    assert_eq!(mirror_char('>'), '<');
}

#[test]
fn test_mirror_guillemets() {
    assert_eq!(mirror_char('«'), '»');
    assert_eq!(mirror_char('»'), '«');
}

#[test]
fn test_mirror_unchanged() {
    assert_eq!(mirror_char('a'), 'a');
    assert_eq!(mirror_char('م'), 'م');
    assert_eq!(mirror_char('1'), '1');
}

#[test]
fn test_mirror_string() {
    assert_eq!(mirror_string("(hello)"), ")hello(");
    assert_eq!(mirror_string("[a{b}c]"), "]a}b{c[");
}

#[test]
fn test_mirror_string_pairs() {
    assert_eq!(mirror_string("(a)[b]{c}"), ")a(]b[}c{");
    assert_eq!(mirror_string(mirror_string("(a)[b]{c}").as_str()), "(a)[b]{c}");
}

#[test]
fn test_arabic_only() {
    let text = "مرحبا";
    let visual = reorder_for_display(text, TextDirection::Auto);
    assert!(!visual.is_empty());
}

#[test]
fn test_arabic_with_english() {
    let text = "مرحبا Hello";
    let visual = reorder_for_display(text, TextDirection::Auto);

    assert!(visual.contains("Hello"), "Visual should contain 'Hello': {}", visual);

    let shaped_ref = reshape("مرحبا");

    assert!(
        visual.chars().any(|c| shaped_ref.contains(c)),
        "Visual should contain shaped Arabic chars from {}: {}",
        shaped_ref,
        visual
    );

    assert_eq!(
        visual.chars().count(),
        text.chars().count(),
        "Character count should match"
    );
}

#[test]
fn test_arabic_sentence() {
    let text = "أهلا وسهلا";
    let visual = reorder_for_display(text, TextDirection::Rtl);
    assert!(!visual.is_empty());
}

#[test]
fn test_english_only_ltr() {
    let text = "Hello World";
    let visual = reorder_for_display(text, TextDirection::Ltr);
    assert_eq!(visual, "Hello World");
}

#[test]
fn test_forced_rtl_direction() {
    let text = "ABC";
    let visual = reorder_for_display(text, TextDirection::Rtl);
    assert_eq!(visual, "ABC");
}

#[test]
fn bidi_test_empty_string() {
    let visual = reorder_for_display("", TextDirection::Auto);
    assert_eq!(visual, "");
}

#[test]
fn test_is_rtl_arabic() {
    assert!(is_rtl("مرحبا"));
    assert!(is_rtl("أهلا وسهلا"));
}

#[test]
fn test_is_rtl_english() {
    assert!(!is_rtl("Hello"));
    assert!(!is_rtl("Hello World"));
}

#[test]
fn test_is_rtl_mixed_arabic_first() {
    assert!(is_rtl("مرحبا Hello"));
}

#[test]
fn test_is_rtl_mixed_english_first() {
    assert!(!is_rtl("Hello مرحبا"));
}

#[test]
fn test_arabic_numbers() {
    let text = "السعر 100 دولار";
    let visual = reorder_for_display(text, TextDirection::Auto);
    assert!(visual.contains("100"));
}

#[test]
fn test_arabic_with_punctuation() {
    let text = "مرحبا!";
    let visual = reorder_for_display(text, TextDirection::Auto);
    assert!(visual.contains("!"));
}

#[test]
fn test_reorder_styled_spans_basic() {
    let red = Style::new().foreground(Color::Red);
    let spans = vec![Span::styled("Hello", red), Span::raw(" World")];

    let reordered = reorder_styled_spans(&spans, TextDirection::Ltr);
    assert_eq!(reordered.len(), 2);
    assert_eq!(reordered[0].text, "Hello");
    assert_eq!(reordered[1].text, " World");
}

#[test]
fn test_reorder_styled_spans_mixed_rtl() {
    let red = Style::new().foreground(Color::Red);
    let green = Style::new().foreground(Color::Green);
    let spans = vec![Span::styled("Hello ", red), Span::styled("مرحبا", green)];

    let reordered = reorder_styled_spans(&spans, TextDirection::Rtl);

    let has_red_hello = reordered
        .iter()
        .any(|s| s.text.contains("Hello") && s.style.foreground == Some(Color::Red));

    let shaped_ref = reshape("مرحبا");
    let has_green_arabic = reordered.iter().any(|s| {
        s.style.foreground == Some(Color::Green) && s.text.chars().any(|c| shaped_ref.contains(c))
    });

    assert!(has_red_hello, "Should contain Red Hello");
    assert!(has_green_arabic, "Should contain Green Arabic characters");
}

#[test]
fn test_reshape_arabic() {
    let input = "السلام عليكم";
    let reshaped = reshape(input);

    assert_ne!(input, reshaped.as_str());

    assert!(reshaped.chars().any(|c| {
        let u = c as u32;
        (0xFE70..=0xFEFF).contains(&u)
    }));
}

#[test]
fn test_reshape_preserves_english() {
    let input = "Hello World";
    let reshaped = reshape(input);

    assert_eq!(input, reshaped.as_str());
}

#[test]
fn test_reshape_mixed_text() {
    let input = "Hello مرحبا World";
    let reshaped = reshape(input);

    assert!(reshaped.contains("Hello"));
    assert!(reshaped.contains("World"));
}

#[test]
fn test_reorder_hello_world_identity() {
    assert_eq!(
        reorder_for_display("Hello World", TextDirection::Ltr),
        "Hello World"
    );
    assert_eq!(reorder_for_display("", TextDirection::Auto), "");
}
