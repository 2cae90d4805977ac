//! Byte-level helpers for inspecting ANSI output, and their tests.

#![allow(dead_code)]

use fast_rich::console::{ColorSystem, Console};

/// Capture ANSI output from a markup string at the given width.
pub fn capture_markup(content: &str, width: usize) -> String {
    let mut console = Console::capture().width(width).force_color(true);
    console.print(content);
    console.get_captured_output()
}

/// Pretty print a hex dump for debugging.
pub fn hexdump(data: &[u8]) -> String {
    let mut result = String::new();
    for (i, chunk) in data.chunks(16).enumerate() {
        result.push_str(&format!("{:08x}: ", i * 16));

        for (j, byte) in chunk.iter().enumerate() {
            result.push_str(&format!("{:02x}", byte));
            if j % 2 == 1 {
                result.push(' ');
            }
        }

        let remaining = 16 - chunk.len();
        for j in 0..remaining {
            result.push_str("  ");
            if (chunk.len() + j) % 2 == 1 {
                result.push(' ');
            }
        }

        result.push(' ');
        for byte in chunk {
            let c = if *byte >= 0x20 && *byte < 0x7f {
                *byte as char
            } else {
                '.'
            };
            result.push(c);
        }
        result.push('\n');
    }
    result
}

/// Token types in ANSI output.
#[derive(Debug, Clone, PartialEq)]
pub enum AnsiToken {
    /// Plain text
    Text(String),
    /// ANSI escape sequence
    Escape(String),
}

impl AnsiToken {
    /// Check if this is a reset sequence.
    pub fn is_reset(&self) -> bool {
        matches!(self, AnsiToken::Escape(s) if s == "\x1b[0m")
    }

    /// Check if this is any escape sequence.
    pub fn is_escape(&self) -> bool {
        matches!(self, AnsiToken::Escape(_))
    }
}

/// Parse ANSI sequences from a string into escape and text tokens.
pub fn parse_ansi_sequences(s: &str) -> Vec<AnsiToken> {
    let mut tokens = Vec::new();
    let mut chars = s.chars().peekable();
    let mut current_text = String::new();

    while let Some(c) = chars.next() {
        if c == '\x1b' {
            if !current_text.is_empty() {
                tokens.push(AnsiToken::Text(std::mem::take(&mut current_text)));
            }

            let mut seq = String::from("\x1b");
            if let Some(&next) = chars.peek() {
                if next == '[' {
                    seq.push(chars.next().unwrap());
                    while let Some(&c) = chars.peek() {
                        seq.push(chars.next().unwrap());
                        if c.is_ascii_alphabetic() {
                            break;
                        }
                    }
                }
            }
            tokens.push(AnsiToken::Escape(seq));
        } else {
            current_text.push(c);
        }
    }

    if !current_text.is_empty() {
        tokens.push(AnsiToken::Text(current_text));
    }

    tokens
}

/// Compare two ANSI outputs by their text content only.
pub fn ansi_semantically_equal(a: &str, b: &str) -> bool {
    let tokens_a = parse_ansi_sequences(a);
    let tokens_b = parse_ansi_sequences(b);

    let text_a: String = tokens_a
        .iter()
        .filter_map(|t| match t {
            AnsiToken::Text(s) => Some(s.as_str()),
            _ => None,
        })
        .collect();

    let text_b: String = tokens_b
        .iter()
        .filter_map(|t| match t {
            AnsiToken::Text(s) => Some(s.as_str()),
            _ => None,
        })
        .collect();

    text_a == text_b
}

#[test]
fn test_hexdump() {
    let data = b"Hello\x1b[31mWorld";
    let dump = hexdump(data);
    assert!(dump.contains("4865 6c6c"));
    assert!(dump.contains("5b33"));
}

#[test]
fn test_parse_ansi_sequences() {
    let input = "\x1b[1mBold\x1b[0m text";
    let tokens = parse_ansi_sequences(input);

    assert_eq!(tokens.len(), 4);
    assert_eq!(tokens[0], AnsiToken::Escape("\x1b[1m".to_string()));
    assert_eq!(tokens[1], AnsiToken::Text("Bold".to_string()));
    assert_eq!(tokens[2], AnsiToken::Escape("\x1b[0m".to_string()));
    assert_eq!(tokens[3], AnsiToken::Text(" text".to_string()));
}

#[test]
fn test_ansi_semantically_equal() {
    let a = "\x1b[31mRed\x1b[0m";
    let b = "\x1b[38;5;1mRed\x1b[0m";

    assert!(ansi_semantically_equal(a, b));
}

#[test]
fn test_basic_styles_exact_match() {
    let output = capture_markup(
        "[bold]Bold[/] [italic]Italic[/] [underline]Underline[/]",
        60,
    );
    let tokens = parse_ansi_sequences(&output);
    assert!(tokens
        .iter()
        .any(|t| matches!(t, AnsiToken::Escape(s) if s == "\x1b[1m")));
    assert!(tokens
        .iter()
        .any(|t| matches!(t, AnsiToken::Escape(s) if s == "\x1b[3m")));
    assert!(tokens
        .iter()
        .any(|t| matches!(t, AnsiToken::Escape(s) if s == "\x1b[4m")));
    assert_eq!(tokens.iter().filter(|t| t.is_reset()).count(), 3);
}

#[test]
fn test_styled_color_system_tokens() {
    let mut console = Console::capture()
        .width(60)
        .color_system(ColorSystem::EightBit);
    console.print("[red]Test[/]");
    let output = console.get_captured_output();
    assert!(output.contains("\x1b[38;5;1m"));
}
