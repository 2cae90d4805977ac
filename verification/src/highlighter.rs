//! Highlighters: pattern-based styling of plain text into spans.

use vstd::prelude::*;

verus! {

use crate::text::{Text, Span, spans_plain};
use crate::style::Style;

/// The capability of splitting plain text into styled spans.
pub trait Highlighter {
    /// Highlight text and return styled spans.
    fn highlight(&self, text: &str) -> Vec<Span>;
}

/// `x` is one of the ranges of `ms`.
pub open spec fn is_match_of(x: (usize, usize, Style), ms: Seq<(usize, usize, Style)>) -> bool {
    exists|m: int| 0 <= m < ms.len() && x == #[trigger] ms[m]
}

/// Choose the ranges a highlighter styles: sort the pattern matches by
/// start position and keep the earliest of any overlapping group, so the
/// kept ranges are disjoint and ordered. Each kept range is one of the
/// given matches.
pub fn select_matches(matches: Vec<(usize, usize, Style)>) -> (r: Vec<(usize, usize, Style)>)
    requires
        forall|m: int| 0 <= m < matches@.len() ==> (#[trigger] matches@[m]).0 <= matches@[m].1,
    ensures
        forall|k: int| 0 <= k < r@.len() ==> (#[trigger] r@[k]).0 <= r@[k].1,
        forall|k: int| 0 <= k < r@.len() - 1 ==> (#[trigger] r@[k]).1 <= r@[k + 1].0,
        forall|k: int| 0 <= k < r@.len() ==> is_match_of(#[trigger] r@[k], matches@),
{
    let ghost ms0 = matches@;
    let mut rest = matches;
    let mut sorted: Vec<(usize, usize, Style)> = Vec::new();
    while rest.len() > 0
        invariant
            forall|k: int| 0 <= k < rest@.len() ==> is_match_of(#[trigger] rest@[k], ms0),
            forall|k: int| 0 <= k < sorted@.len() ==> is_match_of(#[trigger] sorted@[k], ms0),
            forall|a: int, b: int|
                0 <= a < b < sorted@.len() ==> (#[trigger] sorted@[a]).0 <= (
                #[trigger] sorted@[b]).0,
            forall|a: int, b: int|
                0 <= a < sorted@.len() && 0 <= b < rest@.len() ==> (#[trigger] sorted@[a]).0 <= (
                #[trigger] rest@[b]).0,
            forall|m: int| 0 <= m < ms0.len() ==> (#[trigger] ms0[m]).0 <= ms0[m].1,
        decreases rest@.len(),
    {
        let mut min_idx: usize = 0;
        let mut j: usize = 1;
        while j < rest.len()
            invariant
                min_idx < j <= rest@.len() || (min_idx == 0 && j <= rest@.len()),
                min_idx < rest@.len(),
                forall|k: int| 0 <= k < j ==> (#[trigger] rest@[k]).0 >= rest@[min_idx as int].0,
            decreases rest@.len() - j,
        {
            if rest[j].0 < rest[min_idx].0 {
                min_idx = j;
            }
            j = j + 1;
        }
        let ghost rest0 = rest@;
        let x = rest.remove(min_idx);
        proof {
            assert(x == rest0[min_idx as int]);
            assert forall|k: int| 0 <= k < rest@.len() implies is_match_of(
                #[trigger] rest@[k],
                ms0,
            ) && rest@[k].0 >= x.0 by {
                if k < min_idx {
                    assert(rest@[k] == rest0[k]);
                } else {
                    assert(rest@[k] == rest0[k + 1]);
                }
            }
        }
        sorted.push(x);
    }
    let mut out: Vec<(usize, usize, Style)> = Vec::new();
    let mut last_end: usize = 0;
    let mut i: usize = 0;
    while i < sorted.len()
        invariant
            i <= sorted@.len(),
            forall|k: int| 0 <= k < sorted@.len() ==> is_match_of(#[trigger] sorted@[k], ms0),
            forall|a: int, b: int|
                0 <= a < b < sorted@.len() ==> (#[trigger] sorted@[a]).0 <= (
                #[trigger] sorted@[b]).0,
            forall|m: int| 0 <= m < ms0.len() ==> (#[trigger] ms0[m]).0 <= ms0[m].1,
            forall|k: int| 0 <= k < out@.len() ==> is_match_of(#[trigger] out@[k], ms0),
            forall|k: int| 0 <= k < out@.len() ==> (#[trigger] out@[k]).0 <= out@[k].1,
            forall|k: int| 0 <= k < out@.len() - 1 ==> (#[trigger] out@[k]).1 <= out@[k + 1].0,
            out@.len() > 0 ==> out@.last().1 == last_end,
            out@.len() == 0 ==> last_end == 0,
        decreases sorted@.len() - i,
    {
        let x = sorted[i];
        if x.0 >= last_end {
            proof {
                assert(is_match_of(sorted@[i as int], ms0));
                let m = choose|m: int| 0 <= m < ms0.len() && sorted@[i as int] == #[trigger] ms0[m];
                assert(x.0 <= x.1);
            }
            out.push(x);
            last_end = x.1;
        }
        i = i + 1;
    }
    out
}

/// Assemble the characters of a text into spans from the kept matches:
/// an unstyled span for each gap, a styled span for each kept range. The
/// concatenated result is exactly the input text, and every styled span
/// carries the text and style of one kept range.
pub fn assemble_spans(chars: &Vec<char>, kept: &Vec<(usize, usize, Style)>) -> (r: Vec<Span>)
    requires
        forall|k: int|
            0 <= k < kept@.len() ==> (#[trigger] kept@[k]).0 <= kept@[k].1 <= chars@.len(),
        forall|k: int| 0 <= k < kept@.len() - 1 ==> (#[trigger] kept@[k]).1 <= kept@[k + 1].0,
    ensures
        r@.len() >= 1,
        spans_plain(r@) == chars@,
        forall|k: int|
            0 <= k < r@.len() ==> ((#[trigger] r@[k]).style == crate::style::empty_style() || (
            exists|m: int|
                0 <= m < kept@.len() && r@[k].style == (#[trigger] kept@[m]).2 && r@[k].text@
                    == chars@.subrange(kept@[m].0 as int, kept@[m].1 as int))),
{
    let mut spans: Vec<Span> = Vec::new();
    let mut last_end: usize = 0;
    let mut i: usize = 0;
    proof {
        assert(spans_plain(spans@) =~= chars@.subrange(0, 0));
    }
    while i < kept.len()
        invariant
            i <= kept@.len(),
            forall|k: int|
                0 <= k < kept@.len() ==> (#[trigger] kept@[k]).0 <= kept@[k].1 <= chars@.len(),
            forall|k: int| 0 <= k < kept@.len() - 1 ==> (#[trigger] kept@[k]).1 <= kept@[k + 1].0,
            last_end <= chars@.len(),
            i > 0 ==> last_end == kept@[i - 1].1,
            i == 0 ==> last_end == 0,
            spans_plain(spans@) == chars@.subrange(0, last_end as int),
            forall|k: int|
                0 <= k < spans@.len() ==> ((#[trigger] spans@[k]).style
                    == crate::style::empty_style() || (exists|m: int|
                    0 <= m < kept@.len() && spans@[k].style == (#[trigger] kept@[m]).2
                        && spans@[k].text@ == chars@.subrange(kept@[m].0 as int, kept@[m].1 as int))),
        decreases kept@.len() - i,
    {
        let (start, end, style) = kept[i];
        proof {
            assert(kept@[i as int].0 <= kept@[i as int].1 <= chars@.len());
            if i > 0 {
                assert(kept@[i - 1].1 <= kept@[i as int].0);
            }
        }
        let ghost le0 = last_end as int;
        if start > last_end {
            let gap = crate::chars::subchars(chars, last_end, start);
            let gap_text = crate::chars::chars_string(&gap);
            let ghost sp0 = spans@;
            spans.push(Span::raw(gap_text.as_str()));
            proof {
                crate::text::lemma_spans_plain_push(sp0, spans@.last());
                assert(chars@.subrange(0, start as int) =~= chars@.subrange(0, le0)
                    + chars@.subrange(le0, start as int));
                assert(spans_plain(spans@) =~= chars@.subrange(0, start as int));
            }
        }
        let body = crate::chars::subchars(chars, start, end);
        let body_text = crate::chars::chars_string(&body);
        let ghost sp1 = spans@;
        spans.push(Span::styled(body_text.as_str(), style));
        last_end = end;
        i = i + 1;
        proof {
            crate::text::lemma_spans_plain_push(sp1, spans@.last());
            assert(chars@.subrange(0, end as int) =~= chars@.subrange(0, start as int)
                + chars@.subrange(start as int, end as int));
            assert(spans_plain(spans@) =~= chars@.subrange(0, end as int));
            assert(spans@.last().style == kept@[i - 1].2 && spans@.last().text@
                == chars@.subrange(kept@[i - 1].0 as int, kept@[i - 1].1 as int));
        }
    }
    if last_end < chars.len() {
        let tail = crate::chars::subchars(chars, last_end, chars.len());
        let tail_text = crate::chars::chars_string(&tail);
        let ghost sp2 = spans@;
        let ghost le1 = last_end as int;
        spans.push(Span::raw(tail_text.as_str()));
        proof {
            crate::text::lemma_spans_plain_push(sp2, spans@.last());
            assert(chars@.subrange(0, chars@.len() as int) =~= chars@.subrange(0, le1)
                + chars@.subrange(le1, chars@.len() as int));
            assert(spans_plain(spans@) =~= chars@);
        }
    } else {
        proof {
            assert(chars@.subrange(0, chars@.len() as int) =~= chars@);
        }
    }
    if spans.len() == 0 {
        let ghost sp3 = spans@;
        spans.push(Span::raw(""));
        proof {
            crate::text::lemma_spans_plain_push(sp3, spans@.last());
            reveal_strlit("");
            assert(spans_plain(spans@) =~= chars@);
        }
    }
    spans
}

/// Apply a highlighter to text, collecting the spans into a text value.
pub fn highlight_text<H: Highlighter>(text: &str, highlighter: &H) -> (t: Text)
    ensures
        t.overflow is Wrap,
{
    let spans = highlighter.highlight(text);
    Text::from_spans(spans)
}

} // verus!
