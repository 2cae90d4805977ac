//! Columns of a progress row: each column renders one aspect of a task.

use vstd::prelude::*;

verus! {

use crate::progress::bar::Task;
use crate::progress::spinner::{Spinner, SpinnerStyle};
use crate::style::{Color, Style};
use crate::text::Span;
use crate::chars::{repeat_char, chars_string, push_dec_u64, push_dec_pad2};

/// The capability of rendering one column of a progress row.
pub trait ProgressColumn {
    /// Render the column for the given task.
    fn render(&self, task: &Task) -> Vec<Span>;
}

/// A static text column; the description placeholder renders the task's
/// description.
pub struct TextColumn {
    /// The text, or the description placeholder
    pub text: String,
    /// The style of the text
    pub style: Style,
}

impl TextColumn {
    /// Create a plain text column.
    pub fn new(text: &str) -> (c: TextColumn)
        ensures
            c.text@ == text@,
            c.style == crate::style::empty_style(),
    {
        TextColumn { text: text.to_owned(), style: Style::new() }
    }

    /// Create a styled text column.
    pub fn styled(text: &str, style: Style) -> (c: TextColumn)
        ensures
            c.text@ == text@,
            c.style == style,
    {
        TextColumn { text: text.to_owned(), style }
    }
}

impl ProgressColumn for TextColumn {
    /// Render the text, substituting the task description for the
    /// placeholder.
    fn render(&self, task: &Task) -> Vec<Span> {
        let chars = crate::chars::str_chars(self.text.as_str());
        let mut spans: Vec<Span> = Vec::new();
        if crate::chars::chars_eq_str(&chars, "[progress.description]") {
            spans.push(Span::styled(task.description.as_str(), self.style));
        } else {
            spans.push(Span::styled(self.text.as_str(), self.style));
        }
        spans
    }
}

/// The filled length of a progress bar: the bar width scaled by the task's
/// completion, rounded to the nearest cell and clamped to the width.
pub open spec fn filled_cells(width: nat, completed: nat, total: nat) -> nat {
    if total == 0 {
        0
    } else {
        let rounded = (2 * width * completed + total) / (2 * total);
        if rounded > width {
            width
        } else {
            rounded
        }
    }
}

/// The bar column: a filled and an unfilled run of bar characters.
pub struct BarColumn {
    /// Width of the bar in cells
    pub bar_width: usize,
    /// Style of the filled part while running
    pub complete_style: Style,
    /// Style of the filled part when finished
    pub finished_style: Option<Style>,
    /// Style for indeterminate pulsing, if set
    pub pulse_style: Option<Style>,
}

impl BarColumn {
    /// Create a bar column of the given width.
    pub fn new(bar_width: usize) -> (c: BarColumn)
        ensures
            c.bar_width == bar_width,
            c.finished_style is Some,
            c.pulse_style is None,
    {
        BarColumn {
            bar_width,
            complete_style: Style::new().foreground(Color::Magenta),
            finished_style: Some(Style::new().foreground(Color::Green)),
            pulse_style: None,
        }
    }
}

impl ProgressColumn for BarColumn {
    /// Render the bar: the filled run in the completion style, the rest in
    /// gray.
    fn render(&self, task: &Task) -> Vec<Span> {
        let total: u64 = match task.total {
            Some(t) => t,
            None => 100,
        };
        let width = if self.bar_width <= 0xFFFF {
            self.bar_width
        } else {
            0xFFFF
        };
        let filled: usize = if total == 0 {
            0
        } else {
            let completed = if task.completed <= 0xFFFF_FFFF_FFFF {
                task.completed
            } else {
                0xFFFF_FFFF_FFFF
            };
            proof {
                assert(2u128 * (width as u128) * (completed as u128) <= 2u128 * 0xFFFFu128
                    * 0xFFFF_FFFF_FFFFu128) by (nonlinear_arith)
                    requires
                        width as u128 <= 0xFFFF,
                        completed as u128 <= 0xFFFF_FFFF_FFFF,
                ;
            }
            let num = 2u128 * (width as u128) * (completed as u128) + total as u128;
            let rounded = num / (2 * total as u128);
            if rounded > width as u128 {
                width
            } else {
                rounded as usize
            }
        };
        let empty = width - filled;
        let style = if task.finished {
            match self.finished_style {
                Some(s) => s,
                None => self.complete_style,
            }
        } else {
            self.complete_style
        };
        let mut spans: Vec<Span> = Vec::new();
        if filled > 0 {
            let run = repeat_char('\u{2501}', filled);
            spans.push(Span::styled(run.as_str(), style));
        }
        if empty > 0 {
            let run = repeat_char('\u{2501}', empty);
            spans.push(Span::styled(run.as_str(), Style::new().foreground(Color::Ansi256(237))));
        }
        spans
    }
}

/// The percentage column, such as ` 50%`.
pub struct PercentageColumn {
    /// The style of the percentage text
    pub style: Style,
}

impl PercentageColumn {
    /// Create a percentage column.
    pub fn new() -> (c: PercentageColumn)
        ensures
            c.style == (Style { foreground: Some(Color::Cyan), ..crate::style::empty_style() }),
    {
        PercentageColumn { style: Style::new().foreground(Color::Cyan) }
    }
}

/// The completion percentage of a task, rounded to whole percent and
/// clamped to one hundred.
pub open spec fn percent_of(completed: nat, total: nat) -> nat {
    if total == 0 {
        0
    } else {
        let rounded = (2 * 100 * completed + total) / (2 * total);
        if rounded > 100 {
            100nat
        } else {
            rounded
        }
    }
}

impl ProgressColumn for PercentageColumn {
    /// Render the percentage, right-aligned to three cells, with a percent
    /// sign.
    fn render(&self, task: &Task) -> Vec<Span> {
        let total: u64 = match task.total {
            Some(t) => t,
            None => 0,
        };
        let pct: u64 = if total == 0 {
            0
        } else {
            let completed = if task.completed <= 0xFFFF_FFFF_FFFF {
                task.completed
            } else {
                0xFFFF_FFFF_FFFF
            };
            let num = (200 * completed) as u128 + total as u128;
            let rounded = num / (2 * total as u128);
            if rounded > 100 {
                100
            } else {
                rounded as u64
            }
        };
        let mut v: Vec<char> = Vec::new();
        push_dec_u64(&mut v, pct);
        let mut padded: Vec<char> = Vec::new();
        let mut fill: usize = v.len();
        while fill < 3
            invariant
                padded@.len() + v@.len() >= fill,
            decreases 3 - fill,
        {
            padded.push(' ');
            fill = fill + 1;
        }
        let mut i: usize = 0;
        while i < v.len()
            invariant
                i <= v@.len(),
            decreases v@.len() - i,
        {
            padded.push(v[i]);
            i = i + 1;
        }
        padded.push('%');
        let mut spans: Vec<Span> = Vec::new();
        let text = chars_string(&padded);
        spans.push(Span::styled(text.as_str(), self.style));
        spans
    }
}

/// The spinner column, animated by the task's lifetime.
pub struct SpinnerColumn {
    /// The spinner whose frames are shown
    pub spinner: Spinner,
}

impl SpinnerColumn {
    /// Create a spinner column with the default dots animation.
    pub fn new() -> (c: SpinnerColumn)
        ensures
            c.spinner.style is Dots,
    {
        SpinnerColumn { spinner: Spinner::new("").style(SpinnerStyle::Dots) }
    }
}

impl ProgressColumn for SpinnerColumn {
    /// Render the frame selected by the task's elapsed time.
    fn render(&self, task: &Task) -> Vec<Span> {
        let style = self.spinner.get_style();
        let interval = style.interval_ms();
        let frames = style.frames();
        let elapsed_ms = task.elapsed();
        let idx = ((elapsed_ms / interval) as usize) % frames.len();
        let mut spans: Vec<Span> = Vec::new();
        spans.push(Span::styled(frames[idx], Style::new().foreground(Color::Green)));
        spans
    }
}

/// The transfer speed column, in whole units per second.
pub struct TransferSpeedColumn;

impl ProgressColumn for TransferSpeedColumn {
    /// Render the task's speed: completed units per elapsed second, with a
    /// unit prefix at thousands and millions.
    fn render(&self, task: &Task) -> Vec<Span> {
        let elapsed_ms = task.elapsed();
        let speed: u64 = if elapsed_ms == 0 {
            0
        } else {
            let c = if task.completed <= u64::MAX / 1000 {
                task.completed * 1000
            } else {
                u64::MAX
            };
            c / elapsed_ms
        };
        let mut v: Vec<char> = Vec::new();
        if speed >= 1_000_000 {
            push_dec_u64(&mut v, speed / 1_000_000);
            let text = chars_string(&v);
            let mut out = String::new();
            out.append(text.as_str());
            out.append(" MB/s");
            let mut spans: Vec<Span> = Vec::new();
            spans.push(Span::styled(out.as_str(), Style::new().foreground(Color::Red)));
            spans
        } else if speed >= 1_000 {
            push_dec_u64(&mut v, speed / 1_000);
            let text = chars_string(&v);
            let mut out = String::new();
            out.append(text.as_str());
            out.append(" KB/s");
            let mut spans: Vec<Span> = Vec::new();
            spans.push(Span::styled(out.as_str(), Style::new().foreground(Color::Red)));
            spans
        } else {
            push_dec_u64(&mut v, speed);
            let text = chars_string(&v);
            let mut out = String::new();
            out.append(text.as_str());
            out.append(" B/s");
            let mut spans: Vec<Span> = Vec::new();
            spans.push(Span::styled(out.as_str(), Style::new().foreground(Color::Red)));
            spans
        }
    }
}

/// The clock-style rendering of a duration in seconds: minutes and seconds,
/// with hours in front when the duration reaches an hour.
pub open spec fn duration_text(secs: nat) -> Seq<char> {
    if secs >= 3600 {
        crate::chars::dec_str_pad2(secs / 3600) + seq![':'] + crate::chars::dec_str_pad2(
            (secs % 3600) / 60,
        ) + seq![':'] + crate::chars::dec_str_pad2(secs % 60)
    } else {
        crate::chars::dec_str_pad2(secs / 60) + seq![':'] + crate::chars::dec_str_pad2(secs % 60)
    }
}

/// Format a duration in seconds as a clock string.
pub fn format_duration(secs: u64) -> (r: String)
    ensures
        r@ == duration_text(secs as nat),
{
    let mut v: Vec<char> = Vec::new();
    if secs >= 3600 {
        push_dec_pad2(&mut v, secs / 3600);
        v.push(':');
        push_dec_pad2(&mut v, (secs % 3600) / 60);
        v.push(':');
        push_dec_pad2(&mut v, secs % 60);
    } else {
        push_dec_pad2(&mut v, secs / 60);
        v.push(':');
        push_dec_pad2(&mut v, secs % 60);
    }
    let r = chars_string(&v);
    proof {
        assert(r@ =~= duration_text(secs as nat));
    }
    r
}

/// The time-remaining column, from the task's own estimate.
pub struct TimeRemainingColumn;

impl ProgressColumn for TimeRemainingColumn {
    /// Render the estimated time remaining, or a placeholder when no
    /// estimate exists.
    fn render(&self, task: &Task) -> Vec<Span> {
        let text: String = match task.eta() {
            Some(secs) => format_duration(secs),
            None => "-:--:--".to_owned(),
        };
        let mut spans: Vec<Span> = Vec::new();
        spans.push(Span::styled(text.as_str(), Style::new().foreground(Color::Cyan)));
        spans
    }
}

/// The count column, such as `3/10`.
pub struct MofNColumn {
    /// The separator between the two counts
    pub separator: String,
}

impl MofNColumn {
    /// Create a count column with a slash separator.
    pub fn new() -> (c: MofNColumn)
        ensures
            c.separator@ == "/"@,
    {
        MofNColumn { separator: "/".to_owned() }
    }
}

impl ProgressColumn for MofNColumn {
    /// Render completed and total, joined by the separator.
    fn render(&self, task: &Task) -> Vec<Span> {
        let total: u64 = match task.total {
            Some(t) => t,
            None => 0,
        };
        let mut v: Vec<char> = Vec::new();
        push_dec_u64(&mut v, task.completed);
        let mut out = chars_string(&v);
        out.append(self.separator.as_str());
        let mut v2: Vec<char> = Vec::new();
        push_dec_u64(&mut v2, total);
        let totals = chars_string(&v2);
        out.append(totals.as_str());
        let mut spans: Vec<Span> = Vec::new();
        spans.push(Span::styled(out.as_str(), Style::new().foreground(Color::Green)));
        spans
    }
}

/// The elapsed-time column.
pub struct ElapsedColumn;

impl ProgressColumn for ElapsedColumn {
    /// Render the task's elapsed time as a clock string.
    fn render(&self, task: &Task) -> Vec<Span> {
        let secs = task.elapsed() / 1000;
        let text = format_duration(secs);
        let mut spans: Vec<Span> = Vec::new();
        spans.push(Span::styled(text.as_str(), Style::new().foreground(Color::Cyan)));
        spans
    }
}

/// One column of a progress row, as a closed choice.
pub enum ColumnKind {
    /// A text column
    Text(TextColumn),
    /// A bar column
    Bar(BarColumn),
    /// A percentage column
    Percentage(PercentageColumn),
    /// A spinner column
    Spinner(SpinnerColumn),
    /// A transfer-speed column
    TransferSpeed(TransferSpeedColumn),
    /// A time-remaining column
    TimeRemaining(TimeRemainingColumn),
    /// A count column
    MofN(MofNColumn),
    /// An elapsed-time column
    Elapsed(ElapsedColumn),
}

impl ColumnKind {
    /// Render whichever column this is.
    pub fn render_column(&self, task: &Task) -> Vec<Span> {
        match self {
            ColumnKind::Text(c) => c.render(task),
            ColumnKind::Bar(c) => c.render(task),
            ColumnKind::Percentage(c) => c.render(task),
            ColumnKind::Spinner(c) => c.render(task),
            ColumnKind::TransferSpeed(c) => c.render(task),
            ColumnKind::TimeRemaining(c) => c.render(task),
            ColumnKind::MofN(c) => c.render(task),
            ColumnKind::Elapsed(c) => c.render(task),
        }
    }
}

} // verus!
