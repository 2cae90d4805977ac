//! Tests for colors and styles: parsing, builders, combination, and
//! downsampling.

use fast_rich::style::{Color, Style};

#[test]
fn test_color_parse_named() {
    assert_eq!(Color::parse("red"), Some(Color::Red));
    assert_eq!(Color::parse("Blue"), Some(Color::Blue));
    assert_eq!(Color::parse("BRIGHT_RED"), Some(Color::BrightRed));
    assert_eq!(Color::parse("grey"), Some(Color::BrightBlack));
}

#[test]
fn test_color_parse_hex() {
    assert_eq!(
        Color::parse("#ff0000"),
        Some(Color::Rgb { r: 255, g: 0, b: 0 })
    );
    assert_eq!(
        Color::parse("#f00"),
        Some(Color::Rgb { r: 255, g: 0, b: 0 })
    );
    assert_eq!(
        Color::parse("#abc"),
        Some(Color::Rgb {
            r: 170,
            g: 187,
            b: 204
        })
    );
}

#[test]
fn test_color_parse_rgb() {
    assert_eq!(
        Color::parse("rgb(255, 128, 64)"),
        Some(Color::Rgb {
            r: 255,
            g: 128,
            b: 64
        })
    );
}

#[test]
fn test_color_parse_ansi256() {
    assert_eq!(Color::parse("color(196)"), Some(Color::Ansi256(196)));
}

#[test]
fn test_color_parse_simple_rgb() {
    assert_eq!(Color::parse("rgb(1,2,3)"), Some(Color::Rgb { r: 1, g: 2, b: 3 }));
}

#[test]
fn test_color_parse_nonsense() {
    assert_eq!(Color::parse("nonsense"), None);
    assert_eq!(Color::parse(""), None);
    assert_eq!(Color::parse("#zzz"), None);
    assert_eq!(Color::parse("rgb(1,2)"), None);
    assert_eq!(Color::parse("rgb(256,0,0)"), None);
    assert_eq!(Color::parse("color(300)"), None);
}

#[test]
fn test_style_parse() {
    let style = Style::parse("bold red on blue");
    assert!(style.bold);
    assert_eq!(style.foreground, Some(Color::Red));
    assert_eq!(style.background, Some(Color::Blue));
}

#[test]
fn style_test_style_builder() {
    let style = Style::new().foreground(Color::Green).bold().underline();

    assert!(style.bold);
    assert!(style.underline);
    assert_eq!(style.foreground, Some(Color::Green));
    assert!(!style.italic);
}

#[test]
fn lib_test_style_builder() {
    let style = Style::new().foreground(Color::Red).bold().underline();

    assert!(style.bold);
    assert!(style.underline);
}

#[test]
fn test_style_combine() {
    let base = Style::new().foreground(Color::Red).bold();
    let overlay = Style::new().foreground(Color::Blue).italic();
    let combined = base.combine(&overlay);

    assert_eq!(combined.foreground, Some(Color::Blue));
    assert!(combined.bold);
    assert!(combined.italic);
}

#[test]
fn test_style_combine_rightmost_color() {
    let a = Style::new().foreground(Color::Red);
    let b = Style::new().foreground(Color::Green);
    let c = Style::new().foreground(Color::Blue);
    let left = a.combine(&b).combine(&c);
    let right = a.combine(&b.combine(&c));
    assert_eq!(left, right);
    assert_eq!(left.foreground, Some(Color::Blue));
    let no_last = a.combine(&b).combine(&Style::new());
    assert_eq!(no_last.foreground, Some(Color::Green));
}

#[test]
fn test_style_is_empty() {
    assert!(Style::new().is_empty());
    assert!(!Style::new().bold().is_empty());
}

#[test]
fn test_to_standard_exact_red() {
    let c = Color::Rgb { r: 255, g: 0, b: 0 };
    assert_eq!(c.to_standard(), Color::BrightRed);
    let dark = Color::Rgb { r: 128, g: 0, b: 0 };
    assert_eq!(dark.to_standard(), Color::Red);
    assert_eq!(Color::Cyan.to_standard(), Color::Cyan);
    assert_eq!(Color::Ansi256(9).to_standard(), Color::BrightRed);
}

#[test]
fn test_to_ansi256_exact() {
    assert_eq!(Color::Red.to_ansi256(), Color::Ansi256(1));
    assert_eq!(Color::BrightWhite.to_ansi256(), Color::Ansi256(15));
    assert_eq!(Color::Ansi256(123).to_ansi256(), Color::Ansi256(123));
    assert_eq!(Color::Default.to_ansi256(), Color::Default);
    // Pure red appears at index 9 and again at 196; the lowest index wins.
    assert_eq!(
        (Color::Rgb { r: 255, g: 0, b: 0 }).to_ansi256(),
        Color::Ansi256(9)
    );
}

#[test]
fn test_sgr_sequences() {
    assert_eq!(Color::Red.to_sgr_fg(), "\x1b[31m");
    assert_eq!(Color::BrightRed.to_sgr_fg(), "\x1b[91m");
    assert_eq!(Color::Default.to_sgr_fg(), "\x1b[39m");
    assert_eq!(Color::Red.to_sgr_bg(), "\x1b[41m");
    assert_eq!(Color::BrightWhite.to_sgr_bg(), "\x1b[107m");
    assert_eq!(Color::Ansi256(5).to_sgr_fg(), "");
}

#[test]
fn test_color_css() {
    assert_eq!(Color::BrightRed.to_css(), "#ff0000");
    assert_eq!(Color::Default.to_css(), "inherit");
    assert_eq!(Color::Ansi256(7).to_css(), "var(--ansi-7)");
    assert_eq!(
        (Color::Rgb { r: 1, g: 2, b: 171 }).to_css(),
        "#0102ab"
    );
}

#[test]
fn test_style_css() {
    let style = Style::new().foreground(Color::BrightRed).bold().dim();
    assert_eq!(
        style.to_css(),
        "color: #ff0000; font-weight: bold; opacity: 0.5"
    );
    assert_eq!(Style::new().to_css(), "");
}

#[test]
fn test_color_parse_unicode_whitespace() {
    assert_eq!(Color::parse("\u{a0}red"), Some(Color::Red));
    assert_eq!(Color::parse("\u{3000}blue\u{2028}"), Some(Color::Blue));
    assert_eq!(Color::parse("\u{2003}green\u{2003}"), Some(Color::Green));
    assert_eq!(Color::parse("\u{a0}"), None);
}

#[test]
fn test_color_parse_kelvin_sign_lowercases() {
    assert_eq!(Color::parse("blac\u{212a}"), Some(Color::Black));
    assert_eq!(Color::parse("\u{212a}a"), None);
}
