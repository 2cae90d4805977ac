//! The markup parser: a single left-to-right scan that turns a tag-based
//! markup string into styled text, maintaining a stack of styles and
//! degrading anything unrecognised to literal text.

use vstd::prelude::*;

verus! {

use crate::chars::{str_chars, lower, lower_chars, chars_string, chars_eq_str, tokens_of, subchars};
use crate::style::{Style, color_of, style_of, combined, empty_style};
use crate::text::{Text, cells_chars, text_plain};

/// Whether a single tag token is part of a valid style expression: an
/// attribute keyword, the connector `on`, or a parseable color.
pub open spec fn tag_token_ok(tok: Seq<char>) -> bool {
    let t = lower(tok);
    ||| t == "bold"@
    ||| t == "b"@
    ||| t == "dim"@
    ||| t == "italic"@
    ||| t == "i"@
    ||| t == "underline"@
    ||| t == "u"@
    ||| t == "blink"@
    ||| t == "reverse"@
    ||| t == "hidden"@
    ||| t == "strike"@
    ||| t == "strikethrough"@
    ||| t == "s"@
    ||| t == "on"@
    ||| color_of(t) is Some
}

/// Whether bracket contents form a valid style expression: at least one
/// token, and every token recognised.
pub open spec fn is_valid_tag(content: Seq<char>) -> bool {
    let toks = tokens_of(content);
    toks.len() > 0 && forall|i: int| 0 <= i < toks.len() ==> tag_token_ok(#[trigger] toks[i])
}

/// The index of the first closing bracket, or the length when there is
/// none.
pub open spec fn close_index(s: Seq<char>) -> int
    decreases s.len(),
{
    if s.len() == 0 {
        0
    } else if s[0] == ']' {
        0
    } else {
        1 + close_index(s.drop_first())
    }
}

pub proof fn lemma_close_index(s: Seq<char>, k: int)
    requires
        0 <= k <= s.len(),
        forall|i: int| 0 <= i < k ==> s[i] != ']',
        k == s.len() || s[k] == ']',
    ensures
        close_index(s) == k,
    decreases k,
{
    if k == 0 {
    } else {
        lemma_close_index(s.drop_first(), k - 1);
    }
}

/// The plain text that markup parsing yields: `[[` and `]]` are literal
/// brackets, a bracketed valid style expression or closing tag vanishes,
/// and any other bracket is literal text.
pub open spec fn markup_plain(s: Seq<char>) -> Seq<char>
    decreases s.len(),
{
    if s.len() == 0 {
        Seq::empty()
    } else if s.len() >= 2 && s[0] == '[' && s[1] == '[' {
        seq!['['] + markup_plain(s.skip(2))
    } else if s.len() >= 2 && s[0] == ']' && s[1] == ']' {
        seq![']'] + markup_plain(s.skip(2))
    } else if s[0] == '[' {
        let close = close_index(s);
        if 0 < close < s.len() {
            let content = s.subrange(1, close);
            if content.len() > 0 && content[0] == '/' {
                markup_plain(s.skip(close + 1))
            } else if is_valid_tag(content) {
                markup_plain(s.skip(close + 1))
            } else {
                seq!['['] + markup_plain(s.skip(1))
            }
        } else {
            seq!['['] + markup_plain(s.skip(1))
        }
    } else {
        seq![s[0]] + markup_plain(s.skip(1))
    }
}

/// The styled cells that markup parsing yields: the same scan as
/// `markup_plain`, carrying the style stack — a valid style expression
/// pushes the combination of the current style with the expression, a
/// closing tag pops, and every literal character is paired with the style
/// in force.
pub open spec fn markup_cells_go(s: Seq<char>, stack: Seq<Style>, style: Style) -> Seq<
    (char, Style),
>
    decreases s.len(),
{
    if s.len() == 0 {
        Seq::empty()
    } else if s.len() >= 2 && s[0] == '[' && s[1] == '[' {
        seq![('[', style)] + markup_cells_go(s.skip(2), stack, style)
    } else if s.len() >= 2 && s[0] == ']' && s[1] == ']' {
        seq![(']', style)] + markup_cells_go(s.skip(2), stack, style)
    } else if s[0] == '[' {
        let close = close_index(s);
        if 0 < close < s.len() {
            let content = s.subrange(1, close);
            if content.len() > 0 && content[0] == '/' {
                if stack.len() > 0 {
                    markup_cells_go(s.skip(close + 1), stack.drop_last(), stack.last())
                } else {
                    markup_cells_go(s.skip(close + 1), stack, empty_style())
                }
            } else if is_valid_tag(content) {
                markup_cells_go(
                    s.skip(close + 1),
                    stack.push(style),
                    combined(style, style_of(content)),
                )
            } else {
                seq![('[', style)] + markup_cells_go(s.skip(1), stack, style)
            }
        } else {
            seq![('[', style)] + markup_cells_go(s.skip(1), stack, style)
        }
    } else {
        seq![(s[0], style)] + markup_cells_go(s.skip(1), stack, style)
    }
}

/// The styled cells of a parsed markup string, starting from an empty
/// stack and the empty style.
pub open spec fn markup_cells(s: Seq<char>) -> Seq<(char, Style)> {
    markup_cells_go(s, Seq::empty(), empty_style())
}

fn tag_token_ok_exec(tok: &Vec<char>) -> (r: bool)
    ensures
        r == tag_token_ok(tok@),
{
    let t = lower_chars(tok);
    if chars_eq_str(&t, "bold") || chars_eq_str(&t, "b") || chars_eq_str(&t, "dim") || chars_eq_str(
        &t,
        "italic",
    ) || chars_eq_str(&t, "i") || chars_eq_str(&t, "underline") || chars_eq_str(&t, "u")
        || chars_eq_str(&t, "blink") || chars_eq_str(&t, "reverse") || chars_eq_str(&t, "hidden")
        || chars_eq_str(&t, "strike") || chars_eq_str(&t, "strikethrough") || chars_eq_str(&t, "s")
        || chars_eq_str(&t, "on") {
        return true;
    }
    let ts = chars_string(&t);
    crate::style::Color::parse(ts.as_str()).is_some()
}

fn is_valid_tag_exec(content: &Vec<char>) -> (r: bool)
    ensures
        r == is_valid_tag(content@),
{
    let toks = crate::chars::split_tokens(content);
    if toks.len() == 0 {
        return false;
    }
    let mut i: usize = 0;
    while i < toks.len()
        invariant
            i <= toks@.len(),
            toks.deep_view() == tokens_of(content@),
            forall|k: int| 0 <= k < i ==> tag_token_ok(#[trigger] toks.deep_view()[k]),
        decreases toks@.len() - i,
    {
        let ok = tag_token_ok_exec(&toks[i]);
        proof {
            assert(toks@[i as int]@ =~= toks.deep_view()[i as int]);
        }
        if !ok {
            return false;
        }
        i = i + 1;
    }
    true
}

/// Parse a markup string into styled text.
///
/// The scan keeps a stack of styles: a bracketed valid style expression
/// pushes the combination of the current style with the expression, a
/// closing tag pops, doubled brackets are literal, and anything else is
/// literal text carrying the current style. The parse never fails: the
/// plain text of the result is exactly what `markup_plain` assigns to the
/// input.
pub fn parse(content: &str) -> (t: Text)
    ensures
        text_plain(t) == markup_plain(content@),
        crate::text::spans_cells(t.spans@) == markup_cells(content@),
        forall|k: int| 0 <= k < t.spans@.len() ==> (#[trigger] t.spans@[k]).text@.len() > 0,
        forall|k: int| 0 <= k < t.spans@.len() - 1 ==> (#[trigger] t.spans@[k]).style != t.spans@[
            k + 1
        ].style,
        t.overflow is Wrap,
        t.direction is Auto,
        t.alignment is Left,
{
    let s = str_chars(content);
    let n = s.len();
    let mut cells: Vec<(char, Style)> = Vec::new();
    let mut stack: Vec<Style> = Vec::new();
    let mut style = Style::new();
    let mut i: usize = 0;
    proof {
        assert(s@.skip(0) =~= s@);
        assert(cells_chars(cells@) =~= Seq::<char>::empty());
        assert(cells@ + markup_cells(s@) =~= markup_cells(s@));
    }
    while i < n
        invariant
            i <= n,
            n == s@.len(),
            cells_chars(cells@) + markup_plain(s@.skip(i as int)) == markup_plain(s@),
            cells@ + markup_cells_go(s@.skip(i as int), stack@, style) == markup_cells(s@),
        decreases n - i,
    {
        let c = s[i];
        let ghost rest = s@.skip(i as int);
        let ghost cells0 = cells@;
        let ghost stack0 = stack@;
        let ghost sty0 = style;
        proof {
            assert(rest[0] == s@[i as int]);
        }
        if c == '[' && i + 1 < n && s[i + 1] == '[' {
            cells.push(('[', style));
            proof {
                assert(rest.skip(2) =~= s@.skip(i + 2));
                assert(cells_chars(cells@) =~= cells_chars(cells@.drop_last()) + seq!['[']);
                assert((cells_chars(cells@.drop_last()) + seq!['[']) + markup_plain(s@.skip(i + 2))
                    =~= cells_chars(cells@.drop_last()) + (seq!['['] + markup_plain(
                    s@.skip(i + 2),
                )));
                assert(cells@ =~= cells0 + seq![('[', sty0)]);
                assert((cells0 + seq![('[', sty0)]) + markup_cells_go(
                    s@.skip(i + 2),
                    stack0,
                    sty0,
                ) =~= cells0 + (seq![('[', sty0)] + markup_cells_go(s@.skip(i + 2), stack0, sty0)));
            }
            i = i + 2;
        } else if c == ']' && i + 1 < n && s[i + 1] == ']' {
            cells.push((']', style));
            proof {
                assert(rest.skip(2) =~= s@.skip(i + 2));
                assert(cells_chars(cells@) =~= cells_chars(cells@.drop_last()) + seq![']']);
                assert((cells_chars(cells@.drop_last()) + seq![']']) + markup_plain(s@.skip(i + 2))
                    =~= cells_chars(cells@.drop_last()) + (seq![']'] + markup_plain(
                    s@.skip(i + 2),
                )));
                assert(cells@ =~= cells0 + seq![(']', sty0)]);
                assert((cells0 + seq![(']', sty0)]) + markup_cells_go(
                    s@.skip(i + 2),
                    stack0,
                    sty0,
                ) =~= cells0 + (seq![(']', sty0)] + markup_cells_go(s@.skip(i + 2), stack0, sty0)));
            }
            i = i + 2;
        } else if c == '[' {
            let mut j: usize = i + 1;
            while j < n && s[j] != ']'
                invariant
                    i + 1 <= j <= n,
                    n == s@.len(),
                    forall|m: int| i < m < j ==> s@[m] != ']',
                decreases n - j,
            {
                j = j + 1;
            }
            proof {
                assert(forall|m: int| 0 < m < j - i ==> rest[m] != ']');
                lemma_close_index(rest, if j < n {
                    j - i
                } else {
                    rest.len() as int
                });
            }
            if j < n {
                let inner = subchars(&s, i + 1, j);
                proof {
                    assert(inner@ =~= rest.subrange(1, j - i));
                }
                if inner.len() > 0 && inner[0] == '/' {
                    if stack.len() > 0 {
                        let top = stack.pop();
                        match top {
                            Some(prev) => {
                                style = prev;
                            },
                            None => {},
                        }
                    } else {
                        style = Style::new();
                    }
                    proof {
                        assert(rest.skip(j - i + 1) =~= s@.skip(j + 1));
                        assert(cells_chars(cells@) + markup_plain(s@.skip(j + 1)) == markup_plain(
                            s@,
                        ));
                        if stack0.len() > 0 {
                            assert(stack@ == stack0.drop_last());
                            assert(style == stack0.last());
                        } else {
                            assert(style == empty_style());
                        }
                        assert(markup_cells_go(rest, stack0, sty0) == markup_cells_go(
                            s@.skip(j + 1),
                            stack@,
                            style,
                        ));
                    }
                    i = j + 1;
                } else {
                    let valid = is_valid_tag_exec(&inner);
                    if valid {
                        let is = chars_string(&inner);
                        let parsed = Style::parse(is.as_str());
                        stack.push(style);
                        style = style.combine(&parsed);
                        proof {
                            assert(rest.skip(j - i + 1) =~= s@.skip(j + 1));
                            assert(is@ == rest.subrange(1, j - i));
                            assert(parsed == style_of(rest.subrange(1, j - i)));
                            assert(stack@ == stack0.push(sty0));
                            assert(style == combined(sty0, style_of(rest.subrange(1, j - i))));
                            assert(markup_cells_go(rest, stack0, sty0) == markup_cells_go(
                                s@.skip(j + 1),
                                stack@,
                                style,
                            ));
                        }
                        i = j + 1;
                    } else {
                        cells.push(('[', style));
                        proof {
                            assert(rest.skip(1) =~= s@.skip(i + 1));
                            assert(cells_chars(cells@) =~= cells_chars(cells@.drop_last())
                                + seq!['[']);
                            assert((cells_chars(cells@.drop_last()) + seq!['[']) + markup_plain(
                                s@.skip(i + 1),
                            ) =~= cells_chars(cells@.drop_last()) + (seq!['['] + markup_plain(
                                s@.skip(i + 1),
                            )));
                            assert(cells@ =~= cells0 + seq![('[', sty0)]);
                            assert((cells0 + seq![('[', sty0)]) + markup_cells_go(
                                s@.skip(i + 1),
                                stack0,
                                sty0,
                            ) =~= cells0 + (seq![('[', sty0)] + markup_cells_go(
                                s@.skip(i + 1),
                                stack0,
                                sty0,
                            )));
                        }
                        i = i + 1;
                    }
                }
            } else {
                cells.push(('[', style));
                proof {
                    assert(rest.skip(1) =~= s@.skip(i + 1));
                    assert(cells_chars(cells@) =~= cells_chars(cells@.drop_last()) + seq!['[']);
                    assert((cells_chars(cells@.drop_last()) + seq!['[']) + markup_plain(
                        s@.skip(i + 1),
                    ) =~= cells_chars(cells@.drop_last()) + (seq!['['] + markup_plain(
                        s@.skip(i + 1),
                    )));
                    assert(cells@ =~= cells0 + seq![('[', sty0)]);
                    assert((cells0 + seq![('[', sty0)]) + markup_cells_go(
                        s@.skip(i + 1),
                        stack0,
                        sty0,
                    ) =~= cells0 + (seq![('[', sty0)] + markup_cells_go(
                        s@.skip(i + 1),
                        stack0,
                        sty0,
                    )));
                }
                i = i + 1;
            }
        } else {
            cells.push((c, style));
            proof {
                assert(rest.skip(1) =~= s@.skip(i + 1));
                assert(cells_chars(cells@) =~= cells_chars(cells@.drop_last()) + seq![c]);
                assert((cells_chars(cells@.drop_last()) + seq![c]) + markup_plain(s@.skip(i + 1))
                    =~= cells_chars(cells@.drop_last()) + (seq![c] + markup_plain(s@.skip(i + 1))));
                assert(cells@ =~= cells0 + seq![(c, sty0)]);
                assert((cells0 + seq![(c, sty0)]) + markup_cells_go(s@.skip(i + 1), stack0, sty0)
                    =~= cells0 + (seq![(c, sty0)] + markup_cells_go(s@.skip(i + 1), stack0, sty0)));
            }
            i = i + 1;
        }
    }
    proof {
        assert(s@.skip(n as int) =~= Seq::<char>::empty());
        assert(cells_chars(cells@) + Seq::<char>::empty() =~= cells_chars(cells@));
        assert(cells@ + Seq::<(char, Style)>::empty() =~= cells@);
    }
    let spans = crate::text::cells_to_spans(&cells);
    let t = Text::from_spans(spans);
    proof {
        crate::text::lemma_spans_cells_chars(t.spans@);
    }
    t
}

} // verus!
