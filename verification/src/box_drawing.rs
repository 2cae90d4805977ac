//! Box drawing character sets for panels and other bordered content.

use vstd::prelude::*;

verus! {

/// The characters for a single horizontal line of a box.
#[derive(Debug, Clone, Copy, PartialEq, Eq, Structural)]
pub struct Line {
    /// The leftmost character
    pub left: char,
    /// The fill character
    pub mid: char,
    /// The rightmost character
    pub right: char,
    /// The column-divider character
    pub cross: char,
}

impl Line {
    /// Create a line character set.
    pub fn new(left: char, mid: char, right: char, cross: char) -> (r: Line)
        ensures
            r == (Line { left, mid, right, cross }),
    {
        Line { left, mid, right, cross }
    }
}

/// The character set for drawing a box: a top line, header and row
/// separators, a bottom line, and the vertical characters for header and
/// content rows.
#[derive(Debug, Clone, Copy, PartialEq, Eq, Structural)]
pub struct BoxChars {
    /// Top line
    pub top: Line,
    /// Header separator line
    pub head: Line,
    /// Middle line (row separator)
    pub mid: Line,
    /// Bottom line
    pub bottom: Line,
    /// Header row vertical lines
    pub header: Line,
    /// Content row vertical lines
    pub cell: Line,
}

/// Standard ASCII box style.
pub fn ascii() -> (b: BoxChars)
    ensures
        b.top.left == '+',
        b.top.mid == '-',
        b.cell.left == '|',
{
    BoxChars {
        top: Line::new('+', '-', '+', '+'),
        head: Line::new('+', '-', '+', '+'),
        mid: Line::new('+', '-', '+', '+'),
        bottom: Line::new('+', '-', '+', '+'),
        header: Line::new('|', ' ', '|', '|'),
        cell: Line::new('|', ' ', '|', '|'),
    }
}

/// ASCII box style with a double-line header separator.
pub fn ascii_double_head() -> (b: BoxChars)
    ensures
        b.head.mid == '=',
{
    BoxChars { head: Line::new('+', '=', '+', '+'), ..ascii() }
}

/// Simple square box with standard drawing characters.
pub fn square() -> (b: BoxChars)
    ensures
        b.top.left == '\u{250c}',
        b.bottom.left == '\u{2514}',
{
    BoxChars {
        top: Line::new('\u{250c}', '\u{2500}', '\u{2510}', '\u{252c}'),
        head: Line::new('\u{251c}', '\u{2500}', '\u{2524}', '\u{253c}'),
        mid: Line::new('\u{251c}', '\u{2500}', '\u{2524}', '\u{253c}'),
        bottom: Line::new('\u{2514}', '\u{2500}', '\u{2518}', '\u{2534}'),
        header: Line::new('\u{2502}', ' ', '\u{2502}', '\u{2502}'),
        cell: Line::new('\u{2502}', ' ', '\u{2502}', '\u{2502}'),
    }
}

/// Square box with a double-line header separator.
pub fn square_double_head() -> BoxChars {
    BoxChars { head: Line::new('\u{255e}', '\u{2550}', '\u{2561}', '\u{256a}'), ..square() }
}

/// Minimal box with open sides.
pub fn minimal() -> BoxChars {
    BoxChars {
        top: Line::new(' ', '\u{2500}', ' ', '\u{2500}'),
        head: Line::new(' ', '\u{2500}', ' ', '\u{2500}'),
        mid: Line::new(' ', '\u{2500}', ' ', '\u{2500}'),
        bottom: Line::new(' ', '\u{2500}', ' ', '\u{2500}'),
        header: Line::new(' ', ' ', ' ', ' '),
        cell: Line::new(' ', ' ', ' ', ' '),
    }
}

/// Minimal box with a heavy header separator.
pub fn minimal_heavy_head() -> BoxChars {
    BoxChars { head: Line::new(' ', '\u{2501}', ' ', '\u{2501}'), ..minimal() }
}

/// Minimal box with a double-line header separator.
pub fn minimal_double_head() -> BoxChars {
    BoxChars { head: Line::new(' ', '\u{2550}', ' ', '\u{2550}'), ..minimal() }
}

/// Box with only horizontal lines.
pub fn horizontals() -> BoxChars {
    minimal()
}

/// Rounded corners.
pub fn rounded() -> (b: BoxChars)
    ensures
        b.top.left == '\u{256d}',
        b.top.right == '\u{256e}',
        b.bottom.left == '\u{2570}',
        b.bottom.right == '\u{256f}',
        b.top.mid == '\u{2500}',
        b.cell.left == '\u{2502}',
        b.cell.right == '\u{2502}',
{
    BoxChars {
        top: Line::new('\u{256d}', '\u{2500}', '\u{256e}', '\u{252c}'),
        head: Line::new('\u{251c}', '\u{2500}', '\u{2524}', '\u{253c}'),
        mid: Line::new('\u{251c}', '\u{2500}', '\u{2524}', '\u{253c}'),
        bottom: Line::new('\u{2570}', '\u{2500}', '\u{256f}', '\u{2534}'),
        header: Line::new('\u{2502}', ' ', '\u{2502}', '\u{2502}'),
        cell: Line::new('\u{2502}', ' ', '\u{2502}', '\u{2502}'),
    }
}

/// Heavy (bold) lines.
pub fn heavy() -> BoxChars {
    BoxChars {
        top: Line::new('\u{250f}', '\u{2501}', '\u{2513}', '\u{2533}'),
        head: Line::new('\u{2523}', '\u{2501}', '\u{252b}', '\u{254b}'),
        mid: Line::new('\u{2523}', '\u{2501}', '\u{252b}', '\u{254b}'),
        bottom: Line::new('\u{2517}', '\u{2501}', '\u{251b}', '\u{253b}'),
        header: Line::new('\u{2503}', ' ', '\u{2503}', '\u{2503}'),
        cell: Line::new('\u{2503}', ' ', '\u{2503}', '\u{2503}'),
    }
}

/// Heavy edges with light inner lines.
pub fn heavy_edge() -> BoxChars {
    BoxChars {
        head: Line::new('\u{2523}', '\u{2501}', '\u{252b}', '\u{2547}'),
        mid: Line::new('\u{2523}', '\u{2501}', '\u{252b}', '\u{2547}'),
        ..heavy()
    }
}

/// Heavy header separator over light rows.
pub fn heavy_head() -> BoxChars {
    BoxChars {
        top: Line::new('\u{250f}', '\u{2501}', '\u{2513}', '\u{2533}'),
        head: Line::new('\u{2521}', '\u{2501}', '\u{2529}', '\u{2547}'),
        mid: Line::new('\u{2502}', '\u{2500}', '\u{2502}', '\u{253c}'),
        bottom: Line::new('\u{2514}', '\u{2500}', '\u{2518}', '\u{2534}'),
        header: Line::new('\u{2503}', ' ', '\u{2503}', '\u{2503}'),
        cell: Line::new('\u{2502}', ' ', '\u{2502}', '\u{2502}'),
    }
}

/// Double lines.
pub fn double() -> (b: BoxChars)
    ensures
        b.top.left == '\u{2554}',
{
    BoxChars {
        top: Line::new('\u{2554}', '\u{2550}', '\u{2557}', '\u{2566}'),
        head: Line::new('\u{2560}', '\u{2550}', '\u{2563}', '\u{256c}'),
        mid: Line::new('\u{2560}', '\u{2550}', '\u{2563}', '\u{256c}'),
        bottom: Line::new('\u{255a}', '\u{2550}', '\u{255d}', '\u{2569}'),
        header: Line::new('\u{2551}', ' ', '\u{2551}', '\u{2551}'),
        cell: Line::new('\u{2551}', ' ', '\u{2551}', '\u{2551}'),
    }
}

/// Double edges with single inner lines.
pub fn double_edge() -> BoxChars {
    BoxChars {
        top: Line::new('\u{2554}', '\u{2550}', '\u{2557}', '\u{2564}'),
        head: Line::new('\u{2560}', '\u{2550}', '\u{2563}', '\u{256a}'),
        mid: Line::new('\u{255f}', '\u{2500}', '\u{2562}', '\u{253c}'),
        bottom: Line::new('\u{255a}', '\u{2550}', '\u{255d}', '\u{2567}'),
        header: Line::new('\u{2551}', ' ', '\u{2551}', '\u{2551}'),
        cell: Line::new('\u{2551}', ' ', '\u{2551}', '\u{2551}'),
    }
}

/// A fully blank box: the border is invisible but still takes its space.
pub fn hidden() -> BoxChars {
    BoxChars {
        top: Line::new(' ', ' ', ' ', ' '),
        head: Line::new(' ', ' ', ' ', ' '),
        mid: Line::new(' ', ' ', ' ', ' '),
        bottom: Line::new(' ', ' ', ' ', ' '),
        header: Line::new(' ', ' ', ' ', ' '),
        cell: Line::new(' ', ' ', ' ', ' '),
    }
}

} // verus!
