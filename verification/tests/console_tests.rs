//! Tests for the console: ANSI byte emission under each color system,
//! capability detection, and capture.

use fast_rich::console::{detect_color_system, ColorSystem, Console, RenderContext};

fn capture_markup(content: &str, width: usize) -> String {
    let mut console = Console::capture().width(width).force_color(true);
    console.print(content);
    console.get_captured_output()
}

#[test]
fn test_console_creation() {
    let console = Console::new();
    assert!(console.get_width() > 0);
}

#[test]
fn test_console_default_width() {
    let console = Console::new().width(80);
    assert_eq!(console.get_width(), 80);
}

#[test]
fn test_render_context_default() {
    let context = RenderContext::default();
    assert_eq!(context.width, 80);
}

#[test]
fn test_force_color() {
    let console = Console::new().force_color(true);
    assert!(console.force_color);
    assert!(console.color_enabled);
}

#[test]
fn test_detect_color_system_precedence() {
    assert_eq!(
        detect_color_system(true, true, Some("truecolor"), Some("xterm-256color")),
        (false, ColorSystem::NoColor)
    );
    assert_eq!(
        detect_color_system(false, true, Some("truecolor"), None),
        (true, ColorSystem::Standard)
    );
    assert_eq!(
        detect_color_system(false, false, Some("24bit"), None),
        (true, ColorSystem::TrueColor)
    );
    assert_eq!(
        detect_color_system(false, false, None, Some("xterm-256color")),
        (true, ColorSystem::EightBit)
    );
    assert_eq!(
        detect_color_system(false, false, None, Some("vt100")),
        (true, ColorSystem::Standard)
    );
}

#[test]
fn test_color_system_standard_downsampling() {
    let mut console = Console::capture().color_system(ColorSystem::Standard);
    console.print("[#ff0000]Hello[/]");

    let output = console.get_captured_output();

    if !output.contains("\x1b[31m") && !output.contains("\x1b[91m") {
        panic!(
            "Output did not contain standard red/bright-red. Output: {:?}",
            output
        );
    }

    if output.contains("\x1b[38;5;") {
        panic!("Output contained 256-color code! Output: {:?}", output);
    }
}

#[test]
fn test_color_system_eightbit_downsampling() {
    let mut console = Console::capture().color_system(ColorSystem::EightBit);
    console.print("[#ff0000]Hello[/]");

    let output = console.get_captured_output();

    assert!(
        !output.contains("\x1b[38;2;"),
        "Should not contain TrueColor codes"
    );

    if !output.contains("\x1b[38;5;") {
        panic!("Should contain 256-color code, got: {:?}", output);
    }
}

#[test]
fn test_color_system_truecolor() {
    let mut console = Console::capture().color_system(ColorSystem::TrueColor);
    console.print("[#ff0000]Hello[/]");

    let output = console.get_captured_output();

    assert!(
        output.contains("\x1b[38;2;255;0;0m"),
        "Should contain TrueColor code: {:?}",
        output
    );
}

#[test]
fn test_color_system_no_color() {
    let mut console = Console::capture().color_system(ColorSystem::NoColor);
    console.print("[#ff0000]Hello[/]");

    let output = console.get_captured_output();

    assert!(
        !output.contains("\x1b["),
        "Should not contain ANSI codes, got: {:?}",
        output
    );
    assert!(output.contains("Hello"), "Should contain content");
}

#[test]
fn test_bold_emits_single_pair() {
    let output = capture_markup("[bold]test[/]", 60);
    assert_eq!(output.matches("\x1b[1m").count(), 1);
    assert_eq!(output.matches("\x1b[0m").count(), 1);
    assert!(output.contains("test"));
}

#[test]
fn test_no_double_reset() {
    let output = capture_markup("[bold]test[/]", 60);
    let bytes = output.as_bytes();
    let double_reset = b"\x1b[0m\x1b[0m";
    let has_double = bytes.windows(double_reset.len()).any(|w| w == double_reset);
    assert!(
        !has_double,
        "Found double reset sequence. Output: {:?}",
        output
    );
}

#[test]
fn test_single_reset_after_style() {
    let output = capture_markup("[bold]Bold[/] plain", 60);
    let reset_count = output.matches("\x1b[0m").count();
    assert_eq!(reset_count, 1, "Expected 1 reset in: {:?}", output);
}

#[test]
fn test_rgb_color_bytes() {
    let output = capture_markup("[rgb(255,128,0)]orange[/]", 60);
    assert!(
        output.contains("\x1b[38;2;255;128;0m"),
        "RGB should use the true color sequence: {:?}",
        output
    );
}

#[test]
fn test_named_color_red_bytes() {
    let output = capture_markup("[red]test[/]", 60);
    assert!(
        output.contains("\x1b[31m")
            || output.contains("\x1b[38;5;1m")
            || output.contains("\x1b[38;2;"),
        "No red color sequence found: {:?}",
        output
    );
}

#[test]
fn test_adjacent_styled_spans() {
    let output = capture_markup("[red]A[/][blue]B[/][green]C[/]", 60);
    let mut text = String::new();
    let mut in_escape = false;
    for c in output.chars() {
        if c == '\x1b' {
            in_escape = true;
        } else if in_escape {
            if c.is_ascii_alphabetic() {
                in_escape = false;
            }
        } else {
            text.push(c);
        }
    }
    assert_eq!(text.trim(), "ABC", "Got: {:?}", text);
}

#[test]
fn test_utf8_text_preserved() {
    let output = capture_markup("[bold]你好世界[/]", 60);
    assert!(output.contains("你好世界"));
}

#[test]
fn test_newline_after_segment() {
    let mut console = Console::capture().width(60).force_color(true);
    console.println("[bold]Line 1[/]");
    console.println("[italic]Line 2[/]");
    let output = console.get_captured_output();

    let newline_count = output.matches('\n').count();
    assert!(
        newline_count >= 2,
        "println should add newlines. Found {} newlines in: {:?}",
        newline_count,
        output
    );
}

#[test]
fn test_styled_span_no_color_plain_bytes() {
    let mut console = Console::capture().color_system(ColorSystem::NoColor);
    console.print("[bold red on blue]styled words[/]");
    let output = console.get_captured_output();
    assert_eq!(output, "styled words\n");
}

#[test]
fn test_raw_print_keeps_brackets() {
    let mut console = Console::capture().color_system(ColorSystem::NoColor);
    console.print_raw("[red]not a tag[/]");
    let output = console.get_captured_output();
    assert_eq!(output, "[red]not a tag[/]\n");
}
