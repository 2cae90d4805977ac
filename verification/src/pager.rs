//! A pager: the line store and scrolling rules of a less-like viewer. The
//! key loop and the drawing run outside the library, which owns the state
//! and its bounds.

use vstd::prelude::*;

verus! {

/// A simple pager over the lines of a text.
pub struct Pager {
    /// The lines of the content
    pub lines: Vec<String>,
    /// The first visible line
    pub current_line: usize,
    /// The number of visible content lines
    pub terminal_height: usize,
}

/// A line piece with a trailing carriage return removed.
pub open spec fn strip_cr(p: Seq<char>) -> Seq<char> {
    if p.len() > 0 && p.last() == '\r' {
        p.drop_last()
    } else {
        p
    }
}

/// The fold that splits content into lines: a newline closes the line
/// under construction (dropping one carriage return before it), and a
/// final fragment without a newline is kept as it stands.
pub open spec fn lines_go(s: Seq<char>, cur: Seq<char>) -> Seq<Seq<char>>
    decreases s.len(),
{
    if s.len() == 0 {
        if cur.len() == 0 {
            Seq::empty()
        } else {
            seq![cur]
        }
    } else if s[0] == '\n' {
        seq![strip_cr(cur)] + lines_go(s.drop_first(), Seq::empty())
    } else {
        lines_go(s.drop_first(), cur.push(s[0]))
    }
}

/// The lines of a content string, as a pager stores them.
pub open spec fn lines_of(s: Seq<char>) -> Seq<Seq<char>> {
    lines_go(s, Seq::empty())
}

/// The largest first-visible-line a pager may scroll to: the line count
/// less one screen, or zero for short content.
pub open spec fn max_scroll(lines: nat, height: nat) -> nat {
    if lines > height {
        (lines - height) as nat
    } else {
        0
    }
}

impl Pager {
    /// Create a pager over the given content, split at newlines exactly as
    /// `lines_of` lays it out, with a default terminal height of one line
    /// short of a 24-line screen.
    pub fn new(content: &str) -> (p: Pager)
        ensures
            p.current_line == 0,
            p.terminal_height == 23,
            p.lines.deep_view() == lines_of(content@),
    {
        let v = crate::chars::str_chars(content);
        let mut lines: Vec<String> = Vec::new();
        let mut cur: Vec<char> = Vec::new();
        let mut i: usize = 0;
        proof {
            assert(v@.skip(0) =~= v@);
            assert(lines.deep_view() + lines_of(v@) =~~= lines_of(v@));
        }
        while i < v.len()
            invariant
                i <= v@.len(),
                v@ == content@,
                lines.deep_view() + lines_go(v@.skip(i as int), cur@) == lines_of(v@),
            decreases v@.len() - i,
        {
            let c = v[i];
            let ghost rest = v@.skip(i as int);
            let ghost lines0 = lines.deep_view();
            let ghost cur0 = cur@;
            proof {
                assert(rest[0] == v@[i as int]);
                assert(rest.drop_first() =~= v@.skip(i + 1));
            }
            if c == '\n' {
                let mut piece = cur;
                if piece.len() > 0 && piece[piece.len() - 1] == '\r' {
                    piece.pop();
                }
                proof {
                    assert(piece@ == strip_cr(cur0));
                }
                lines.push(crate::chars::chars_string(&piece));
                cur = Vec::new();
                proof {
                    assert(lines.deep_view() =~~= lines0 + seq![strip_cr(cur0)]);
                    assert((lines0 + seq![strip_cr(cur0)]) + lines_go(
                        v@.skip(i + 1),
                        Seq::empty(),
                    ) =~~= lines0 + (seq![strip_cr(cur0)] + lines_go(v@.skip(i + 1), Seq::empty())));
                    assert(cur@ =~= Seq::<char>::empty());
                }
            } else {
                cur.push(c);
                proof {
                    assert(cur@ =~= cur0.push(c));
                }
            }
            i = i + 1;
        }
        proof {
            assert(v@.skip(v@.len() as int) =~= Seq::<char>::empty());
        }
        if cur.len() > 0 {
            let ghost lines0 = lines.deep_view();
            let ghost cur0 = cur@;
            lines.push(crate::chars::chars_string(&cur));
            proof {
                assert(lines.deep_view() =~~= lines0 + seq![cur0]);
            }
        } else {
            proof {
                assert(lines.deep_view() + Seq::<Seq<char>>::empty() =~~= lines.deep_view());
            }
        }
        Pager { lines, current_line: 0, terminal_height: 23 }
    }

    /// Set the number of visible content lines.
    pub fn with_height(self, height: usize) -> (p: Pager)
        ensures
            p.terminal_height == height,
            p.lines@.len() == self.lines@.len(),
            p.current_line == self.current_line,
    {
        Pager { terminal_height: height, ..self }
    }

    /// Scroll down by the given amount, never past the last screen.
    pub fn scroll_down(&mut self, amount: usize)
        ensures
            final(self).current_line as nat == (if old(self).current_line + amount <= max_scroll(
                old(self).lines@.len(),
                old(self).terminal_height as nat,
            ) {
                (old(self).current_line + amount) as nat
            } else {
                max_scroll(old(self).lines@.len(), old(self).terminal_height as nat)
            }),
            final(self).lines@ == old(self).lines@,
            final(self).terminal_height == old(self).terminal_height,
    {
        let max = if self.lines.len() > self.terminal_height {
            self.lines.len() - self.terminal_height
        } else {
            0
        };
        let next = if self.current_line <= usize::MAX - amount {
            self.current_line + amount
        } else {
            usize::MAX
        };
        self.current_line = if next < max {
            next
        } else {
            max
        };
        proof {
            assert(self.lines@.len() <= usize::MAX);
        }
    }

    /// Scroll up by the given amount, never above the first line.
    pub fn scroll_up(&mut self, amount: usize)
        ensures
            final(self).current_line == (if old(self).current_line >= amount {
                old(self).current_line - amount
            } else {
                0
            }),
            final(self).lines@ == old(self).lines@,
            final(self).terminal_height == old(self).terminal_height,
    {
        self.current_line = if self.current_line >= amount {
            self.current_line - amount
        } else {
            0
        };
    }

    /// Jump to the first line.
    pub fn scroll_home(&mut self)
        ensures
            final(self).current_line == 0,
            final(self).lines@ == old(self).lines@,
            final(self).terminal_height == old(self).terminal_height,
    {
        self.current_line = 0;
    }

    /// Jump to the last screen.
    pub fn scroll_end(&mut self)
        ensures
            final(self).current_line as nat == max_scroll(
                old(self).lines@.len(),
                old(self).terminal_height as nat,
            ),
            final(self).lines@ == old(self).lines@,
            final(self).terminal_height == old(self).terminal_height,
    {
        self.current_line = if self.lines.len() > self.terminal_height {
            self.lines.len() - self.terminal_height
        } else {
            0
        };
    }

    /// The total number of lines.
    pub fn line_count(&self) -> (r: usize)
        ensures
            r == self.lines@.len(),
    {
        self.lines.len()
    }
}

} // verus!
