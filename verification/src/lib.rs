//! Rich terminal text rendering: a tag-based markup language is parsed into a
//! styled text model, wrapped and measured with Unicode-aware metrics,
//! reordered for right-to-left scripts, downsampled to the terminal's color
//! capability, and serialized into ANSI escape sequences.

pub mod align;
pub mod bidi;
pub mod box_drawing;
pub mod chars;
pub mod clock;
pub mod group;
pub mod highlighter;
pub mod inspect;
pub mod layout;
pub mod nested_progress;
pub mod pager;
pub mod progress;
pub mod prompt;
pub mod log;
pub mod measure;
pub mod padding;
pub mod panel;
pub mod theme;
pub mod rule;
pub mod shaping;
pub mod console;
pub mod markup;
pub mod renderable;
pub mod style;
pub mod text;

pub use console::Console;
pub use renderable::Renderable;
pub use style::{Color, Style};
pub use text::{Alignment, Text};
