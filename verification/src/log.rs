//! Logging: timestamped, levelled log lines rendered through the console.

use vstd::prelude::*;

verus! {

use crate::console::{Console, RenderContext};
use crate::renderable::{Renderable, Segment};
use crate::style::{Color, Style, empty_style};
use crate::text::Span;
use crate::chars::{dec_str_pad2, dec_str_pad3, push_dec_pad2, push_dec_pad3, chars_string};

/// Log level for messages.
#[derive(Debug, Clone, Copy, PartialEq, Eq, Default, Structural)]
pub enum LogLevel {
    /// Debug level
    Debug,
    /// Info level (default)
    #[default]
    Info,
    /// Warning level
    Warning,
    /// Error level
    Error,
}

impl LogLevel {
    /// The style for this log level.
    pub fn style(&self) -> (r: Style)
        ensures
            *self is Debug ==> r == (Style {
                foreground: Some(Color::Magenta),
                ..empty_style()
            }),
            *self is Info ==> r == (Style { foreground: Some(Color::Blue), ..empty_style() }),
            *self is Warning ==> r == (Style { foreground: Some(Color::Yellow), ..empty_style() }),
            *self is Error ==> r == (Style {
                foreground: Some(Color::Red),
                bold: true,
                ..empty_style()
            }),
    {
        match *self {
            LogLevel::Debug => Style::new().foreground(Color::Magenta),
            LogLevel::Info => Style::new().foreground(Color::Blue),
            LogLevel::Warning => Style::new().foreground(Color::Yellow),
            LogLevel::Error => Style::new().foreground(Color::Red).bold(),
        }
    }

    /// The label for this log level.
    pub fn label(&self) -> (r: &'static str)
        ensures
            *self is Debug ==> r@ == "DEBUG"@,
            *self is Info ==> r@ == "INFO"@,
            *self is Warning ==> r@ == "WARN"@,
            *self is Error ==> r@ == "ERROR"@,
    {
        match *self {
            LogLevel::Debug => "DEBUG",
            LogLevel::Info => "INFO",
            LogLevel::Warning => "WARN",
            LogLevel::Error => "ERROR",
        }
    }
}

/// A log message with metadata.
#[derive(Debug)]
pub struct LogMessage {
    /// The message content
    pub message: String,
    /// File where the log was called
    pub file: Option<String>,
    /// Line number
    pub line: Option<u32>,
    /// Milliseconds since the Unix epoch when the message was created
    pub time_millis: u64,
    /// Log level
    pub level: LogLevel,
    /// Whether to show the timestamp
    pub show_time: bool,
}

/// The clock-face rendering of a time in milliseconds since the epoch:
/// hours, minutes, seconds and milliseconds, zero-padded.
pub open spec fn time_text(millis: u64) -> Seq<char> {
    let secs = millis as nat / 1000;
    dec_str_pad2((secs / 3600) % 24) + seq![':'] + dec_str_pad2((secs / 60) % 60) + seq![':']
        + dec_str_pad2(secs % 60) + seq!['.'] + dec_str_pad3(millis as nat % 1000)
}

impl LogMessage {
    /// Create a log message stamped with the current time.
    pub fn new(message: &str) -> (m: LogMessage)
        ensures
            m.message@ == message@,
            m.file is None,
            m.line is None,
            m.level is Info,
            m.show_time,
    {
        LogMessage {
            message: message.to_owned(),
            file: None,
            line: None,
            time_millis: crate::clock::now_epoch_millis(),
            level: LogLevel::Info,
            show_time: true,
        }
    }

    /// Set the source file and line.
    pub fn location(self, file: &'static str, line: u32) -> (m: LogMessage)
        ensures
            m.file matches Some(f) && f@ == file@,
            m.line == Some(line),
            m.message == self.message,
            m.level == self.level,
            m.show_time == self.show_time,
    {
        LogMessage { file: Some(file.to_owned()), line: Some(line), ..self }
    }

    /// Set the log level.
    pub fn level(self, level: LogLevel) -> (m: LogMessage)
        ensures
            m == (LogMessage { level, ..self }),
    {
        LogMessage { level, ..self }
    }

    /// Set whether to show the timestamp.
    pub fn show_time(self, show: bool) -> (m: LogMessage)
        ensures
            m == (LogMessage { show_time: show, ..self }),
    {
        LogMessage { show_time: show, ..self }
    }

    /// Format the timestamp as `HH:MM:SS.mmm`.
    pub fn format_time(&self) -> (r: String)
        ensures
            r@ == time_text(self.time_millis),
    {
        let millis = self.time_millis;
        let secs = millis / 1000;
        let mut v: Vec<char> = Vec::new();
        push_dec_pad2(&mut v, (secs / 3600) % 24);
        v.push(':');
        push_dec_pad2(&mut v, (secs / 60) % 60);
        v.push(':');
        push_dec_pad2(&mut v, secs % 60);
        v.push('.');
        push_dec_pad3(&mut v, millis % 1000);
        let r = chars_string(&v);
        proof {
            assert(r@ =~= time_text(self.time_millis));
        }
        r
    }

    /// Format the location as `file:line`, keeping only the file name after
    /// the last path separator.
    fn format_location(&self) -> (r: Option<String>)
        ensures
            r is Some <==> (self.file is Some && self.line is Some),
    {
        match (&self.file, &self.line) {
            (Some(file), Some(line)) => {
                let chars = crate::chars::str_chars(file.as_str());
                let mut start: usize = 0;
                let mut i: usize = 0;
                while i < chars.len()
                    invariant
                        start <= i <= chars@.len(),
                    decreases chars@.len() - i,
                {
                    if chars[i] == '/' {
                        start = i + 1;
                    }
                    i = i + 1;
                }
                let base = crate::chars::subchars(&chars, start, chars.len());
                let mut out = chars_string(&base);
                crate::chars::push_char(&mut out, ':');
                let mut num: Vec<char> = Vec::new();
                crate::chars::push_dec_u64(&mut num, *line as u64);
                let num_str = chars_string(&num);
                out.append(num_str.as_str());
                Some(out)
            },
            _ => None,
        }
    }
}

impl Renderable for LogMessage {
    /// Render one log line: optional dim timestamp, the level label in its
    /// style, the message, and an optional location.
    fn render(&self, _context: &RenderContext) -> Vec<Segment> {
        let mut spans: Vec<Span> = Vec::new();
        if self.show_time {
            let mut stamp = String::new();
            crate::chars::push_char(&mut stamp, '[');
            let t = self.format_time();
            stamp.append(t.as_str());
            crate::chars::push_char(&mut stamp, ']');
            spans.push(Span::styled(stamp.as_str(), Style::new().dim()));
            spans.push(Span::raw(" "));
        }
        let label = self.level.label();
        let mut padded = String::new();
        padded.append(label);
        let lchars = crate::chars::str_chars(label);
        let mut fill: usize = lchars.len();
        while fill < 5
            decreases 5 - fill,
        {
            crate::chars::push_char(&mut padded, ' ');
            fill = fill + 1;
        }
        spans.push(Span::styled(padded.as_str(), self.level.style()));
        spans.push(Span::raw(" "));
        spans.push(Span::raw(self.message.as_str()));
        match self.format_location() {
            Some(location) => {
                spans.push(Span::raw(" "));
                spans.push(
                    Span::styled(
                        location.as_str(),
                        Style::new().foreground(Color::Cyan).dim(),
                    ),
                );
            },
            None => {},
        }
        let mut segs: Vec<Segment> = Vec::new();
        segs.push(Segment::line(spans));
        segs
    }
}

/// Logging methods for the console.
pub trait ConsoleLog {
    /// Log an info message.
    fn log(&mut self, message: &str);

    /// Log a debug message.
    fn debug(&mut self, message: &str);

    /// Log a warning message.
    fn warn(&mut self, message: &str);

    /// Log an error message.
    fn error(&mut self, message: &str);
}

impl ConsoleLog for Console {
    fn log(&mut self, message: &str) {
        let msg = LogMessage::new(message);
        self.print_renderable(&msg);
    }

    fn debug(&mut self, message: &str) {
        let msg = LogMessage::new(message).level(LogLevel::Debug);
        self.print_renderable(&msg);
    }

    fn warn(&mut self, message: &str) {
        let msg = LogMessage::new(message).level(LogLevel::Warning);
        self.print_renderable(&msg);
    }

    fn error(&mut self, message: &str) {
        let msg = LogMessage::new(message).level(LogLevel::Error);
        self.print_renderable(&msg);
    }
}

} // verus!
