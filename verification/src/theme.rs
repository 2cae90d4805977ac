//! Themes: named color palettes for consistent semantic styling.

use vstd::prelude::*;

verus! {

use crate::style::{Color, Style, empty_style};
use crate::chars::{str_chars, chars_eq_str};

/// A theme: colors for the semantic elements, plus custom named colors.
#[derive(Debug, Clone)]
pub struct Theme {
    /// Primary color
    pub primary: Color,
    /// Secondary color
    pub secondary: Color,
    /// Success/positive color
    pub success: Color,
    /// Warning color
    pub warning: Color,
    /// Error/danger color
    pub error: Color,
    /// Info color
    pub info: Color,
    /// Muted/dim color
    pub muted: Color,
    /// Custom named colors, in insertion order with unique names
    pub custom: Vec<(String, Color)>,
}

/// The color a custom table assigns to a name: the first entry with that
/// name, or the default color when there is none.
pub open spec fn custom_lookup(entries: Seq<(String, Color)>, name: Seq<char>) -> Color
    decreases entries.len(),
{
    if entries.len() == 0 {
        Color::Default
    } else if entries[0].0@ == name {
        entries[0].1
    } else {
        custom_lookup(entries.drop_first(), name)
    }
}

impl Theme {
    /// Create a theme with plain defaults.
    pub fn new() -> (t: Theme)
        ensures
            t.primary == Color::Blue,
            t.secondary == Color::Cyan,
            t.success == Color::Green,
            t.warning == Color::Yellow,
            t.error == Color::Red,
            t.info == Color::Cyan,
            t.muted == Color::BrightBlack,
            t.custom@.len() == 0,
    {
        Theme {
            primary: Color::Blue,
            secondary: Color::Cyan,
            success: Color::Green,
            warning: Color::Yellow,
            error: Color::Red,
            info: Color::Cyan,
            muted: Color::BrightBlack,
            custom: Vec::new(),
        }
    }

    /// The default theme, with bright accents.
    pub fn default_theme() -> (t: Theme)
        ensures
            t.primary == Color::BrightBlue,
            t.secondary == Color::Magenta,
            t.success == Color::BrightGreen,
            t.warning == Color::BrightYellow,
            t.error == Color::BrightRed,
            t.info == Color::BrightCyan,
            t.muted == Color::BrightBlack,
            t.custom@.len() == 0,
    {
        Theme {
            primary: Color::BrightBlue,
            secondary: Color::Magenta,
            success: Color::BrightGreen,
            warning: Color::BrightYellow,
            error: Color::BrightRed,
            info: Color::BrightCyan,
            muted: Color::BrightBlack,
            custom: Vec::new(),
        }
    }

    /// A Monokai-inspired theme.
    pub fn monokai() -> (t: Theme)
        ensures
            t.primary == (Color::Rgb { r: 102, g: 217, b: 239 }),
            t.error == (Color::Rgb { r: 249, g: 38, b: 114 }),
            t.custom@.len() == 0,
    {
        Theme {
            primary: Color::rgb(102, 217, 239),
            secondary: Color::rgb(249, 38, 114),
            success: Color::rgb(166, 226, 46),
            warning: Color::rgb(253, 151, 31),
            error: Color::rgb(249, 38, 114),
            info: Color::rgb(174, 129, 255),
            muted: Color::rgb(117, 113, 94),
            custom: Vec::new(),
        }
    }

    /// A Night Owl theme.
    pub fn night_owl() -> (t: Theme)
        ensures
            t.primary == (Color::Rgb { r: 130, g: 170, b: 255 }),
            t.custom@.len() == 0,
    {
        Theme {
            primary: Color::rgb(130, 170, 255),
            secondary: Color::rgb(199, 146, 234),
            success: Color::rgb(173, 219, 103),
            warning: Color::rgb(255, 203, 107),
            error: Color::rgb(239, 83, 80),
            info: Color::rgb(128, 203, 196),
            muted: Color::rgb(99, 119, 119),
            custom: Vec::new(),
        }
    }

    /// The style for a semantic element: the named color as foreground.
    /// Unknown names fall back to the custom table, then to the default
    /// color.
    pub fn get_style(&self, name: &str) -> (r: Style)
        ensures
            r == (Style {
                foreground: Some(
                    if name@ == "primary"@ {
                        self.primary
                    } else if name@ == "secondary"@ {
                        self.secondary
                    } else if name@ == "success"@ {
                        self.success
                    } else if name@ == "warning"@ {
                        self.warning
                    } else if name@ == "error"@ {
                        self.error
                    } else if name@ == "info"@ {
                        self.info
                    } else if name@ == "muted"@ {
                        self.muted
                    } else {
                        custom_lookup(self.custom@, name@)
                    },
                ),
                ..empty_style()
            }),
    {
        let v = str_chars(name);
        let mut color = Color::Default;
        if chars_eq_str(&v, "primary") {
            color = self.primary;
        } else if chars_eq_str(&v, "secondary") {
            color = self.secondary;
        } else if chars_eq_str(&v, "success") {
            color = self.success;
        } else if chars_eq_str(&v, "warning") {
            color = self.warning;
        } else if chars_eq_str(&v, "error") {
            color = self.error;
        } else if chars_eq_str(&v, "info") {
            color = self.info;
        } else if chars_eq_str(&v, "muted") {
            color = self.muted;
        } else {
            let mut i: usize = 0;
            let mut found = Color::Default;
            let mut done = false;
            proof {
                assert(self.custom@.subrange(0, self.custom@.len() as int) =~= self.custom@);
            }
            while i < self.custom.len()
                invariant
                    i <= self.custom@.len(),
                    v@ == name@,
                    !done ==> custom_lookup(self.custom@, name@) == custom_lookup(
                        self.custom@.subrange(i as int, self.custom@.len() as int),
                        name@,
                    ),
                    done ==> found == custom_lookup(self.custom@, name@),
                    !done ==> found == Color::Default,
                decreases self.custom@.len() - i,
            {
                let ghost rest = self.custom@.subrange(i as int, self.custom@.len() as int);
                proof {
                    assert(rest[0] == self.custom@[i as int]);
                    assert(rest.drop_first() =~= self.custom@.subrange(
                        i + 1,
                        self.custom@.len() as int,
                    ));
                }
                if !done {
                    let entry_name = str_chars(self.custom[i].0.as_str());
                    if crate::chars::chars_eq(&entry_name, &v) {
                        found = self.custom[i].1;
                        done = true;
                        proof {
                            assert(custom_lookup(rest, name@) == rest[0].1);
                        }
                    } else {
                        proof {
                            assert(rest[0].0@ != name@);
                            assert(custom_lookup(rest, name@) == custom_lookup(
                                rest.drop_first(),
                                name@,
                            ));
                        }
                    }
                }
                i = i + 1;
            }
            proof {
                if !done {
                    assert(self.custom@.subrange(
                        self.custom@.len() as int,
                        self.custom@.len() as int,
                    ) =~= Seq::<(String, Color)>::empty());
                }
            }
            color = found;
        }
        Style::new().foreground(color)
    }

    /// Add or replace a custom named color: the name then looks up to the
    /// color, every other lookup is unchanged, and the seven semantic
    /// fields are kept.
    pub fn add_color(&mut self, name: &str, color: Color)
        ensures
            custom_lookup(final(self).custom@, name@) == color,
            forall|other: Seq<char>|
                other != name@ ==> #[trigger] custom_lookup(final(self).custom@, other)
                    == custom_lookup(old(self).custom@, other),
            final(self).primary == old(self).primary,
            final(self).secondary == old(self).secondary,
            final(self).success == old(self).success,
            final(self).warning == old(self).warning,
            final(self).error == old(self).error,
            final(self).info == old(self).info,
            final(self).muted == old(self).muted,
    {
        let v = str_chars(name);
        let mut i: usize = 0;
        while i < self.custom.len()
            invariant
                i <= self.custom@.len(),
                v@ == name@,
                self.primary == old(self).primary,
                self.secondary == old(self).secondary,
                self.success == old(self).success,
                self.warning == old(self).warning,
                self.error == old(self).error,
                self.info == old(self).info,
                self.muted == old(self).muted,
                forall|k: int| 0 <= k < i ==> (#[trigger] self.custom@[k]).0@ != name@,
                self.custom@ == old(self).custom@,
            decreases self.custom@.len() - i,
        {
            let entry_name = str_chars(self.custom[i].0.as_str());
            if crate::chars::chars_eq(&entry_name, &v) {
                let owned = name.to_owned();
                self.custom.set(i, (owned, color));
                proof {
                    lemma_custom_lookup_found(self.custom@, i as int, name@);
                    assert forall|other: Seq<char>| other != name@ implies #[trigger] custom_lookup(
                        self.custom@,
                        other,
                    ) == custom_lookup(old(self).custom@, other) by {
                        lemma_custom_lookup_update_other(
                            old(self).custom@,
                            i as int,
                            self.custom@[i as int],
                            other,
                        );
                    }
                }
                return ;
            }
            i = i + 1;
        }
        let owned = name.to_owned();
        let ghost custom0 = self.custom@;
        self.custom.push((owned, color));
        proof {
            lemma_custom_lookup_found(self.custom@, self.custom@.len() - 1, name@);
            assert forall|other: Seq<char>| other != name@ implies #[trigger] custom_lookup(
                self.custom@,
                other,
            ) == custom_lookup(old(self).custom@, other) by {
                lemma_custom_lookup_push_other(custom0, self.custom@.last(), other);
            }
        }
    }
}

proof fn lemma_custom_lookup_push_other(
    entries: Seq<(String, Color)>,
    e: (String, Color),
    other: Seq<char>,
)
    requires
        e.0@ != other,
    ensures
        custom_lookup(entries.push(e), other) == custom_lookup(entries, other),
    decreases entries.len(),
{
    let p = entries.push(e);
    if entries.len() == 0 {
        assert(p[0] == e);
        assert(p.drop_first() =~= Seq::<(String, Color)>::empty());
        assert(custom_lookup(p, other) == custom_lookup(p.drop_first(), other));
    } else {
        assert(p[0] == entries[0]);
        assert(p.drop_first() =~= entries.drop_first().push(e));
        lemma_custom_lookup_push_other(entries.drop_first(), e, other);
        if entries[0].0@ != other {
            assert(custom_lookup(p, other) == custom_lookup(p.drop_first(), other));
            assert(custom_lookup(entries, other) == custom_lookup(entries.drop_first(), other));
        }
    }
}

proof fn lemma_custom_lookup_update_other(
    entries: Seq<(String, Color)>,
    i: int,
    e2: (String, Color),
    other: Seq<char>,
)
    requires
        0 <= i < entries.len(),
        entries[i].0@ == e2.0@,
        other != e2.0@,
    ensures
        custom_lookup(entries.update(i, e2), other) == custom_lookup(entries, other),
    decreases i,
{
    let u = entries.update(i, e2);
    if i == 0 {
        assert(u[0] == e2);
        assert(u.drop_first() =~= entries.drop_first());
        assert(custom_lookup(u, other) == custom_lookup(u.drop_first(), other));
        assert(custom_lookup(entries, other) == custom_lookup(entries.drop_first(), other));
    } else {
        assert(u[0] == entries[0]);
        assert(u.drop_first() =~= entries.drop_first().update(i - 1, e2));
        lemma_custom_lookup_update_other(entries.drop_first(), i - 1, e2, other);
        if entries[0].0@ != other {
            assert(custom_lookup(u, other) == custom_lookup(u.drop_first(), other));
            assert(custom_lookup(entries, other) == custom_lookup(entries.drop_first(), other));
        }
    }
}

proof fn lemma_custom_lookup_found(entries: Seq<(String, Color)>, i: int, name: Seq<char>)
    requires
        0 <= i < entries.len(),
        forall|k: int| 0 <= k < i ==> (#[trigger] entries[k]).0@ != name,
        entries[i].0@ == name,
    ensures
        custom_lookup(entries, name) == entries[i].1,
    decreases i,
{
    if i > 0 {
        assert forall|k: int| 0 <= k < i - 1 implies (#[trigger] entries.drop_first()[k]).0@
            != name by {
            assert(entries.drop_first()[k] == entries[k + 1]);
        }
        lemma_custom_lookup_found(entries.drop_first(), i - 1, name);
    }
}

impl Default for Theme {
    /// The default theme.
    fn default() -> (t: Theme)
        ensures
            t.primary == Color::BrightBlue,
    {
        Theme::default_theme()
    }
}

} // verus!
