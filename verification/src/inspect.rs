//! Inspection: pretty-printing a value's type, size and debug
//! representation in a panel.

use vstd::prelude::*;

verus! {

use crate::console::RenderContext;
use crate::panel::{BorderStyle, Panel};
use crate::renderable::{Renderable, Segment};
use crate::style::{Color, Style};
use crate::text::Text;

/// Configuration for inspect output.
#[derive(Debug, Clone)]
pub struct InspectConfig {
    /// Show the type name
    pub show_type: bool,
    /// Show the debug value
    pub show_value: bool,
    /// Show the size in memory
    pub show_size: bool,
    /// Title for the panel
    pub title: Option<String>,
    /// Maximum depth for nested structures
    pub max_depth: usize,
    /// Whether to wrap the output in a panel
    pub use_panel: bool,
}

impl Default for InspectConfig {
    /// The default configuration: everything shown, in a panel.
    fn default() -> (c: InspectConfig)
        ensures
            c.show_type,
            c.show_value,
            c.show_size,
            c.title is None,
            c.max_depth == 3,
            c.use_panel,
    {
        InspectConfig {
            show_type: true,
            show_value: true,
            show_size: true,
            title: None,
            max_depth: 3,
            use_panel: true,
        }
    }
}

impl InspectConfig {
    /// Create the default configuration.
    pub fn new() -> (c: InspectConfig)
        ensures
            c.show_type,
            c.show_value,
            c.show_size,
            c.title is None,
            c.max_depth == 3,
            c.use_panel,
    {
        InspectConfig {
            show_type: true,
            show_value: true,
            show_size: true,
            title: None,
            max_depth: 3,
            use_panel: true,
        }
    }

    /// Set whether to show the type name.
    pub fn show_type(self, show: bool) -> (c: InspectConfig)
        ensures
            c == (InspectConfig { show_type: show, ..self }),
    {
        InspectConfig { show_type: show, ..self }
    }

    /// Set whether to show the value.
    pub fn show_value(self, show: bool) -> (c: InspectConfig)
        ensures
            c == (InspectConfig { show_value: show, ..self }),
    {
        InspectConfig { show_value: show, ..self }
    }

    /// Set whether to show the size.
    pub fn show_size(self, show: bool) -> (c: InspectConfig)
        ensures
            c == (InspectConfig { show_size: show, ..self }),
    {
        InspectConfig { show_size: show, ..self }
    }

    /// Set the panel title.
    pub fn title(self, title: &str) -> (c: InspectConfig)
        ensures
            c.title matches Some(t) && t@ == title@,
            c.show_type == self.show_type,
            c.show_value == self.show_value,
            c.show_size == self.show_size,
            c.max_depth == self.max_depth,
            c.use_panel == self.use_panel,
    {
        InspectConfig { title: Some(title.to_owned()), ..self }
    }

    /// Set the maximum depth.
    pub fn max_depth(self, depth: usize) -> (c: InspectConfig)
        ensures
            c == (InspectConfig { max_depth: depth, ..self }),
    {
        InspectConfig { max_depth: depth, ..self }
    }

    /// Set whether to wrap the output in a panel.
    pub fn use_panel(self, use_panel: bool) -> (c: InspectConfig)
        ensures
            c == (InspectConfig { use_panel, ..self }),
    {
        InspectConfig { use_panel, ..self }
    }
}

/// Relies on the `Debug` rendering of `core::marker::PhantomData`, which
/// shows the type parameter's path between `PhantomData<` and `>`; the
/// caller strips that frame.
#[verifier::external_body]
fn name_of_type<T: core::fmt::Debug>(value: &T) -> String {
    let _ = value;
    format!("{:?}", core::marker::PhantomData::<T>)
}

/// Remove the `PhantomData<` frame around a type path, if present, leaving
/// the bare path.
fn strip_phantom_frame(chars: &Vec<char>) -> (r: Vec<char>)
    ensures
        r@ == (if chars@.len() >= 13 && chars@.subrange(0, 12) == phantom_prefix()
            && chars@.last() == '>' {
            chars@.subrange(12, chars@.len() - 1)
        } else {
            chars@
        }),
{
    let n = chars.len();
    if n >= 13 && chars[n - 1] == '>' {
        let prefix = crate::chars::subchars(chars, 0, 12);
        let framed = crate::chars::chars_eq_str(&prefix, "PhantomData<");
        proof {
            reveal_strlit("PhantomData<");
            assert("PhantomData<"@ =~= phantom_prefix());
        }
        if framed {
            return crate::chars::subchars(chars, 12, n - 1);
        }
        proof {
            assert(chars@.subrange(0, 12) != phantom_prefix());
        }
    }
    let mut out: Vec<char> = Vec::new();
    let mut i: usize = 0;
    while i < chars.len()
        invariant
            i <= chars@.len(),
            out@ == chars@.subrange(0, i as int),
        decreases chars@.len() - i,
    {
        let ghost out0 = out@;
        out.push(chars[i]);
        proof {
            assert(out@ =~= chars@.subrange(0, i + 1));
        }
        i = i + 1;
    }
    proof {
        assert(chars@.subrange(0, chars@.len() as int) =~= chars@);
    }
    out
}

/// The characters of the `Debug` frame that `PhantomData` puts around its
/// type parameter.
pub open spec fn phantom_prefix() -> Seq<char> {
    seq!['P', 'h', 'a', 'n', 't', 'o', 'm', 'D', 'a', 't', 'a', '<']
}

/// Relies on the `format!` machinery of `core::fmt::Debug`: the multi-line
/// debug representation of the value.
#[verifier::external_body]
pub(crate) fn debug_repr<T: core::fmt::Debug>(value: &T) -> String {
    format!("{:#?}", value)
}

/// Relies on `core::mem::size_of_val`: the size of the value in bytes.
#[verifier::external_body]
fn size_of_value<T: core::fmt::Debug>(value: &T) -> usize {
    core::mem::size_of_val(value)
}

/// An inspection of one value: its type name, debug representation and
/// size, rendered according to a configuration.
pub struct Inspection {
    /// The type name
    pub kind_name: String,
    /// The debug representation
    pub debug_value: String,
    /// The size in bytes
    pub size: usize,
    /// The configuration
    pub config: InspectConfig,
}

impl Inspection {
    /// Inspect a value with the default configuration.
    pub fn new<T: core::fmt::Debug>(value: &T) -> (r: Inspection)
        ensures
            r.config.show_type,
            r.config.show_value,
            r.config.show_size,
    {
        Inspection {
            kind_name: crate::chars::chars_string(&strip_phantom_frame(&crate::chars::str_chars(name_of_type(value).as_str()))),
            debug_value: debug_repr(value),
            size: size_of_value(value),
            config: InspectConfig::new(),
        }
    }

    /// Inspect a value with a custom configuration.
    pub fn with_config<T: core::fmt::Debug>(value: &T, config: InspectConfig) -> (r: Inspection)
        ensures
            r.config == config,
    {
        Inspection {
            kind_name: crate::chars::chars_string(&strip_phantom_frame(&crate::chars::str_chars(name_of_type(value).as_str()))),
            debug_value: debug_repr(value),
            size: size_of_value(value),
            config,
        }
    }

    /// Build the content text: the type, size and value blocks that the
    /// configuration enables, with the value truncated after twenty lines.
    fn build_content(&self) -> Text {
        let mut text = Text::new();
        if self.config.show_type {
            text.push_styled("Type: ", Style::new().foreground(Color::Cyan));
            let mut line = String::new();
            line.append(self.kind_name.as_str());
            crate::chars::push_char(&mut line, '\n');
            text.push_styled(line.as_str(), Style::new().foreground(Color::Yellow));
        }
        if self.config.show_size {
            text.push_styled("Size: ", Style::new().foreground(Color::Cyan));
            let mut line = String::new();
            let n = crate::chars::usize_string(self.size);
            line.append(n.as_str());
            line.append(" bytes\n");
            text.push_styled(line.as_str(), Style::new().foreground(Color::Green));
        }
        if self.config.show_value {
            text.push_styled("Value:\n", Style::new().foreground(Color::Cyan));
            let chars = crate::chars::str_chars(self.debug_value.as_str());
            let mut line_count: usize = 0;
            let mut i: usize = 0;
            while i < chars.len()
                invariant
                    i <= chars@.len(),
                    line_count <= i,
                decreases chars@.len() - i,
            {
                if chars[i] == '\n' {
                    line_count = line_count + 1;
                }
                i = i + 1;
            }
            let total_lines = if line_count < usize::MAX {
                line_count + 1
            } else {
                usize::MAX
            };
            if total_lines > 20 {
                let mut taken: usize = 0;
                let mut j: usize = 0;
                let mut cut: usize = chars.len();
                while j < chars.len() && taken < 20
                    invariant
                        j <= chars@.len(),
                        cut <= chars@.len(),
                    decreases chars@.len() - j,
                {
                    if chars[j] == '\n' {
                        taken = taken + 1;
                        if taken == 20 {
                            cut = j + 1;
                        }
                    }
                    j = j + 1;
                }
                let head = crate::chars::subchars(&chars, 0, cut);
                let head_str = crate::chars::chars_string(&head);
                text.push(head_str.as_str());
                let mut trailer = String::new();
                trailer.append("... and ");
                let extra = crate::chars::usize_string(total_lines - 20);
                trailer.append(extra.as_str());
                trailer.append(" more lines");
                text.push_styled(
                    trailer.as_str(),
                    Style::new().foreground(Color::BrightBlack).italic(),
                );
            } else {
                text.push(self.debug_value.as_str());
            }
        }
        text
    }
}

impl Renderable for Inspection {
    /// Render the inspection, in a titled panel when configured.
    fn render(&self, context: &RenderContext) -> Vec<Segment> {
        let content = self.build_content();
        if self.config.use_panel {
            let title: String = match &self.config.title {
                Some(t) => t.clone(),
                None => {
                    let chars = crate::chars::str_chars(self.kind_name.as_str());
                    let mut start: usize = 0;
                    let mut i: usize = 0;
                    while i < chars.len()
                        invariant
                            start <= i + 1,
                            start <= chars@.len(),
                            i <= chars@.len(),
                        decreases chars@.len() - i,
                    {
                        if chars[i] == ':' {
                            start = i + 1;
                        }
                        i = i + 1;
                    }
                    let base = crate::chars::subchars(&chars, start, chars.len());
                    crate::chars::chars_string(&base)
                },
            };
            let panel = Panel::from_text(content).title(title.as_str()).border_style(
                BorderStyle::Rounded,
            ).style(Style::new().foreground(Color::BrightBlack));
            panel.render(context)
        } else {
            content.render(context)
        }
    }
}

/// Inspect a value with the default configuration.
pub fn inspect<T: core::fmt::Debug>(value: &T) -> (r: Inspection)
    ensures
        r.config.show_type,
        r.config.show_value,
        r.config.show_size,
{
    Inspection::new(value)
}

/// Inspect a value with a custom configuration.
pub fn inspect_with_config<T: core::fmt::Debug>(value: &T, config: InspectConfig) -> (r:
    Inspection)
    ensures
        r.config == config,
{
    Inspection::with_config(value, config)
}

} // verus!
