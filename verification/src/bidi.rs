//! Bidirectional text support: direction selection, mirroring of paired
//! glyphs for right-to-left contexts, and reordering of styled spans into
//! visual order through the Unicode Bidirectional Algorithm.

use vstd::prelude::*;

verus! {

use crate::text::{Span, spans_plain, cells_chars, cells_to_spans};
use crate::style::Style;

/// Text direction options for right-to-left support.
#[derive(Debug, Clone, Copy, PartialEq, Eq, Default, Structural)]
pub enum TextDirection {
    /// Automatically detect direction from the first strong character
    #[default]
    Auto,
    /// Force left-to-right direction
    Ltr,
    /// Force right-to-left direction
    Rtl,
}

/// A styled range in logical text order, in character indices.
#[derive(Debug, Clone)]
pub struct StyledRange {
    /// Start character index in the combined logical text
    pub start: usize,
    /// End character index in the combined logical text
    pub end: usize,
    /// The style associated with this range
    pub style: Style,
}

/// The mirrored partner of a paired bracket or quote glyph; every other
/// character is its own mirror.
pub open spec fn mirror_of(c: char) -> char {
    if c == '(' {
        ')'
    } else if c == ')' {
        '('
    } else if c == '[' {
        ']'
    } else if c == ']' {
        '['
    } else if c == '{' {
        '}'
    } else if c == '}' {
        '{'
    } else if c == '<' {
        '>'
    } else if c == '>' {
        '<'
    } else if c == '\u{ab}' {
        '\u{bb}'
    } else if c == '\u{bb}' {
        '\u{ab}'
    } else if c == '\u{2039}' {
        '\u{203a}'
    } else if c == '\u{203a}' {
        '\u{2039}'
    } else if c == '\u{27e8}' {
        '\u{27e9}'
    } else if c == '\u{27e9}' {
        '\u{27e8}'
    } else if c == '\u{27ea}' {
        '\u{27eb}'
    } else if c == '\u{27eb}' {
        '\u{27ea}'
    } else {
        c
    }
}

/// Mirror one paired character for a right-to-left context.
pub fn mirror_char(c: char) -> (r: char)
    ensures
        r == mirror_of(c),
{
    match c {
        '(' => ')',
        ')' => '(',
        '[' => ']',
        ']' => '[',
        '{' => '}',
        '}' => '{',
        '<' => '>',
        '>' => '<',
        '\u{ab}' => '\u{bb}',
        '\u{bb}' => '\u{ab}',
        '\u{2039}' => '\u{203a}',
        '\u{203a}' => '\u{2039}',
        '\u{27e8}' => '\u{27e9}',
        '\u{27e9}' => '\u{27e8}',
        '\u{27ea}' => '\u{27eb}',
        '\u{27eb}' => '\u{27ea}',
        _ => c,
    }
}

/// Mirror every paired character of a string, character by character.
pub fn mirror_string(text: &str) -> (r: String)
    ensures
        r@ == text@.map_values(|c: char| mirror_of(c)),
{
    let v = crate::chars::str_chars(text);
    let mut out: Vec<char> = Vec::new();
    let mut i: usize = 0;
    while i < v.len()
        invariant
            i <= v@.len(),
            v@ == text@,
            out@ == v@.subrange(0, i as int).map_values(|c: char| mirror_of(c)),
        decreases v@.len() - i,
    {
        out.push(mirror_char(v[i]));
        i = i + 1;
        proof {
            assert(v@.subrange(0, i as int).map_values(|c: char| mirror_of(c)) =~= v@.subrange(
                0,
                i - 1,
            ).map_values(|c: char| mirror_of(c)).push(mirror_of(v@[i - 1])));
        }
    }
    proof {
        assert(v@.subrange(0, v@.len() as int) =~= v@);
    }
    crate::chars::chars_string(&out)
}

/// Mirroring is an involution: mirroring a string twice gives the original
/// string back.
pub proof fn lemma_mirror_involutive(s: Seq<char>)
    ensures
        s.map_values(|c: char| mirror_of(c)).map_values(|c: char| mirror_of(c)) == s,
{
    assert(s.map_values(|c: char| mirror_of(c)).map_values(|c: char| mirror_of(c)) =~= s);
}

/// The paragraph level forced by a text direction: right-to-left, left-to-
/// right, or none for automatic detection.
pub open spec fn level_of(direction: TextDirection) -> Option<bool> {
    match direction {
        TextDirection::Auto => None,
        TextDirection::Ltr => Some(false),
        TextDirection::Rtl => Some(true),
    }
}

/// The visual-order text that the Unicode Bidirectional Algorithm yields
/// for a logical character sequence under a forced or detected paragraph
/// level; it depends on the characters and the level alone.
pub uninterp spec fn visual_of(s: Seq<char>, rtl_level: Option<bool>) -> Seq<char>;

/// Relies on `unicode_bidi::BidiInfo::new` and `BidiInfo::reorder_line`:
/// each paragraph is reordered into visual order by permuting level runs,
/// so the characters of the result are exactly the characters of the
/// input; and all-ASCII text under a left-to-right or detected paragraph
/// level resolves to all-even levels, for which every line is returned
/// unchanged.
#[verifier::external_body]
fn bidi_reorder(text: &str, rtl_level: Option<bool>) -> (r: String)
    ensures
        r@ == visual_of(text@, rtl_level),
        r@.to_multiset() == text@.to_multiset(),
        text@.len() == 0 ==> r@.len() == 0,
        crate::chars::all_ascii(text@) && rtl_level != Some(true) ==> r@ == text@,
{
    let para_level = match rtl_level {
        Some(true) => Some(unicode_bidi::Level::rtl()),
        Some(false) => Some(unicode_bidi::Level::ltr()),
        None => None,
    };
    let info = unicode_bidi::BidiInfo::new(text, para_level);
    let mut out = String::with_capacity(text.len());
    for para in &info.paragraphs {
        out.push_str(&info.reorder_line(para, para.range.clone()));
    }
    out
}

/// Whether the base direction of a text, detected from its first strong
/// directional character, is right-to-left; it depends on the characters
/// alone.
pub uninterp spec fn base_dir_rtl(s: Seq<char>) -> bool;

/// Relies on `unicode_bidi::get_base_direction`: the detected base
/// direction is a function of the characters alone, and no ASCII character
/// is a strong right-to-left character, so all-ASCII text is never
/// detected as right-to-left.
#[verifier::external_body]
fn base_direction_rtl(text: &str) -> (r: bool)
    ensures
        r == base_dir_rtl(text@),
        crate::chars::all_ascii(text@) ==> !r,
{
    matches!(unicode_bidi::get_base_direction(text), unicode_bidi::Direction::Rtl)
}

/// Whether the text is primarily right-to-left, from its first strong
/// directional character.
pub fn is_rtl(text: &str) -> (r: bool)
    ensures
        r == base_dir_rtl(text@),
        crate::chars::all_ascii(text@) ==> !r,
{
    base_direction_rtl(text)
}

/// Whether a paragraph renders right-to-left: a forced direction decides,
/// and automatic direction falls back to detection.
pub fn is_paragraph_rtl(text: &str, direction: TextDirection) -> (r: bool)
    ensures
        r == (match direction {
            TextDirection::Rtl => true,
            TextDirection::Ltr => false,
            TextDirection::Auto => base_dir_rtl(text@),
        }),
        crate::chars::all_ascii(text@) && !(direction is Rtl) ==> !r,
{
    match direction {
        TextDirection::Rtl => true,
        TextDirection::Ltr => false,
        TextDirection::Auto => is_rtl(text),
    }
}

/// Reorder text for visual display: the text is shaped for Arabic cursive
/// forms, then run through the Unicode Bidirectional Algorithm. An empty
/// text stays empty, and the result holds exactly the shaped characters.
pub fn reorder_for_display(text: &str, direction: TextDirection) -> (r: String)
    ensures
        text@.len() == 0 ==> r@.len() == 0,
        text@.len() > 0 ==> r@ == visual_of(
            crate::shaping::shaped_of(text@),
            level_of(direction),
        ),
        text@.len() > 0 ==> r@.to_multiset() == crate::shaping::shaped_of(text@).to_multiset(),
        crate::chars::all_ascii(text@) && !(direction is Rtl) ==> r@ == text@,
{
    if text.is_empty() {
        return String::new();
    }
    let rtl_level = match direction {
        TextDirection::Ltr => Some(false),
        TextDirection::Rtl => Some(true),
        TextDirection::Auto => None,
    };
    let shaped = crate::shaping::reshape(text);
    bidi_reorder(shaped.as_str(), rtl_level)
}

/// The shaped characters of one span, each carrying the span's style.
pub open spec fn shaped_cells_of(s: Span) -> Seq<(char, Style)> {
    crate::shaping::shaped_of(s.text@).map_values(|c: char| (c, s.style))
}

/// The pool of styled shaped characters that style reassociation draws
/// from: the shaped characters of each span, in span order, each paired
/// with its span's style.
pub open spec fn shaped_pool(spans: Seq<Span>) -> Seq<(char, Style)>
    decreases spans.len(),
{
    if spans.len() == 0 {
        Seq::empty()
    } else {
        shaped_cells_of(spans[0]) + shaped_pool(spans.drop_first())
    }
}

/// `cell` is one entry of the pool.
pub open spec fn pool_has(cell: (char, Style), pool: Seq<(char, Style)>) -> bool {
    exists|m: int| 0 <= m < pool.len() && cell == #[trigger] pool[m]
}

proof fn lemma_shaped_pool_snoc(spans: Seq<Span>, i: int)
    requires
        0 <= i < spans.len(),
    ensures
        shaped_pool(spans.subrange(0, i + 1)) == shaped_pool(spans.subrange(0, i))
            + shaped_cells_of(spans[i]),
    decreases i,
{
    let a = spans.subrange(0, i + 1);
    let b = spans.subrange(0, i);
    if i == 0 {
        assert(a.len() == 1);
        assert(a[0] == spans[0]);
        assert(a.drop_first() =~= Seq::<Span>::empty());
        assert(shaped_pool(a) == shaped_cells_of(spans[0]) + shaped_pool(a.drop_first()));
        assert(b =~= Seq::<Span>::empty());
        assert(shaped_pool(a) =~= shaped_pool(b) + shaped_cells_of(spans[0]));
    } else {
        lemma_shaped_pool_snoc(spans.drop_first(), i - 1);
        assert(a[0] == spans[0]);
        assert(b[0] == spans[0]);
        assert(shaped_pool(a) == shaped_cells_of(spans[0]) + shaped_pool(a.drop_first()));
        assert(shaped_pool(b) == shaped_cells_of(spans[0]) + shaped_pool(b.drop_first()));
        assert(a.drop_first() =~= spans.drop_first().subrange(0, i));
        assert(b.drop_first() =~= spans.drop_first().subrange(0, i - 1));
        assert(spans.drop_first()[i - 1] == spans[i]);
        assert(shaped_pool(a) =~= shaped_pool(b) + shaped_cells_of(spans[i]));
    }
}

/// Reorder styled spans into visual order while keeping each character's
/// style: the span texts are concatenated and the whole logical string is
/// shaped, then reordered by the Unicode Bidirectional Algorithm; styles
/// are reassociated by greedy character matching against the per-span
/// shaped texts, and the result is coalesced back into spans. The result
/// holds exactly the shaped characters of the concatenated text, in visual
/// order, in non-empty spans with no two consecutive spans sharing a style.
pub fn reorder_styled_spans(spans: &Vec<Span>, direction: TextDirection) -> (r: Vec<Span>)
    ensures
        spans@.len() == 0 ==> r@.len() == 0,
        spans@.len() > 0 ==> spans_plain(r@) == visual_of(
            crate::shaping::shaped_of(spans_plain(spans@)),
            level_of(direction),
        ),
        spans@.len() > 0 ==> spans_plain(r@).to_multiset() == crate::shaping::shaped_of(
            spans_plain(spans@),
        ).to_multiset(),
        forall|k: int| 0 <= k < r@.len() ==> (#[trigger] r@[k]).text@.len() > 0,
        forall|k: int| 0 <= k < r@.len() - 1 ==> (#[trigger] r@[k]).style != r@[k + 1].style,
        forall|k: int|
            0 <= k < crate::text::spans_cells(r@).len() ==> pool_has(
                #[trigger] crate::text::spans_cells(r@)[k],
                shaped_pool(spans@),
            ) || crate::text::spans_cells(r@)[k].1 == crate::style::empty_style(),
{
    broadcast use vstd::seq_lib::group_to_multiset_ensures;

    if spans.len() == 0 {
        let r: Vec<Span> = Vec::new();
        proof {
            assert(spans_plain(r@) =~= Seq::<char>::empty());
        }
        return r;
    }
    let plain = crate::text::spans_to_string(spans);
    let shaped = crate::shaping::reshape(plain.as_str());
    let rtl_level = match direction {
        TextDirection::Ltr => Some(false),
        TextDirection::Rtl => Some(true),
        TextDirection::Auto => None,
    };
    let visual_string = bidi_reorder(shaped.as_str(), rtl_level);
    let visual = crate::chars::str_chars(visual_string.as_str());

    // Per-span shaped characters, used only as the pool of styled
    // candidates when reassociating styles after reordering.
    let mut logical: Vec<(char, Style)> = Vec::new();
    let mut i: usize = 0;
    proof {
        assert(spans@.subrange(0, 0) =~= Seq::<Span>::empty());
    }
    while i < spans.len()
        invariant
            i <= spans@.len(),
            logical@ == shaped_pool(spans@.subrange(0, i as int)),
        decreases spans@.len() - i,
    {
        let span_shaped = crate::shaping::reshape(spans[i].text.as_str());
        let cs = crate::chars::str_chars(span_shaped.as_str());
        let style = spans[i].style;
        let ghost logical0 = logical@;
        let mut j: usize = 0;
        while j < cs.len()
            invariant
                j <= cs@.len(),
                cs@ == crate::shaping::shaped_of(spans@[i as int].text@),
                style == spans@[i as int].style,
                i < spans@.len(),
                logical@ == logical0 + cs@.subrange(0, j as int).map_values(
                    |c: char| (c, style),
                ),
            decreases cs@.len() - j,
        {
            logical.push((cs[j], style));
            j = j + 1;
            proof {
                assert(cs@.subrange(0, j as int).map_values(|c: char| (c, style)) =~= cs@.subrange(
                    0,
                    j - 1,
                ).map_values(|c: char| (c, style)).push((cs@[j - 1], style)));
                assert(logical@ =~= logical0 + cs@.subrange(0, j as int).map_values(
                    |c: char| (c, style),
                ));
            }
        }
        i = i + 1;
        proof {
            lemma_shaped_pool_snoc(spans@, i - 1);
            assert(cs@.subrange(0, cs@.len() as int) =~= cs@);
            assert(shaped_cells_of(spans@[i - 1]) == cs@.map_values(
                |c: char| (c, spans@[i - 1].style),
            ));
            assert(logical@ =~= shaped_pool(spans@.subrange(0, i as int)));
        }
    }
    proof {
        assert(spans@.subrange(0, spans@.len() as int) =~= spans@);
    }

    let mut used: Vec<bool> = Vec::new();
    let mut k: usize = 0;
    while k < logical.len()
        invariant
            k <= logical@.len(),
            used@.len() == k,
        decreases logical@.len() - k,
    {
        used.push(false);
        k = k + 1;
    }
    let mut out_cells: Vec<(char, Style)> = Vec::new();
    let mut v: usize = 0;
    while v < visual.len()
        invariant
            v <= visual@.len(),
            used@.len() == logical@.len(),
            logical@ == shaped_pool(spans@),
            cells_chars(out_cells@) == visual@.subrange(0, v as int),
            forall|k: int|
                0 <= k < out_cells@.len() ==> pool_has(#[trigger] out_cells@[k], shaped_pool(spans@))
                    || out_cells@[k].1 == crate::style::empty_style(),
        decreases visual@.len() - v,
    {
        let vc = visual[v];
        let mut style = Style::new();
        let mut found = false;
        let mut m: usize = 0;
        while m < logical.len()
            invariant
                m <= logical@.len(),
                used@.len() == logical@.len(),
                logical@ == shaped_pool(spans@),
                !found ==> style == crate::style::empty_style(),
                found ==> pool_has((vc, style), shaped_pool(spans@)),
            decreases logical@.len() - m,
        {
            if !used[m] && logical[m].0 == vc {
                style = logical[m].1;
                used.set(m, true);
                found = true;
                proof {
                    assert((vc, style) == logical@[m as int]);
                }
                break ;
            }
            m = m + 1;
        }
        out_cells.push((vc, style));
        v = v + 1;
        proof {
            assert(visual@.subrange(0, v as int) =~= visual@.subrange(0, v - 1).push(
                visual@[v - 1],
            ));
            assert(cells_chars(out_cells@) =~= cells_chars(out_cells@.drop_last()).push(
                visual@[v - 1],
            ));
        }
    }
    proof {
        assert(visual@.subrange(0, visual@.len() as int) =~= visual@);
    }
    let r = cells_to_spans(&out_cells);
    proof {
        crate::text::lemma_spans_cells_chars(r@);
        assert(spans_plain(r@) == visual@);
    }
    r
}


} // verus!
