//! Arabic text shaping: logical Arabic characters are replaced by their
//! contextual presentation forms so that letters connect properly in
//! terminals without native shaping.

use vstd::prelude::*;

verus! {

/// The presentation-form text that contextual Arabic shaping yields for a
/// logical character sequence without a zero width joiner; it depends on
/// the characters alone.
pub uninterp spec fn reshaped_of(s: Seq<char>) -> Seq<char>;

/// Whether the sequence holds a zero width joiner (U+200D).
pub open spec fn has_zwj(s: Seq<char>) -> bool {
    exists|i: int| 0 <= i < s.len() && s[i] == '\u{200d}'
}

/// The shaping the library applies: text holding a zero width joiner is
/// passed through unchanged, everything else is contextually shaped.
pub open spec fn shaped_of(s: Seq<char>) -> Seq<char> {
    if has_zwj(s) {
        s
    } else {
        reshaped_of(s)
    }
}

/// Relies on `ar_reshaper::ArabicReshaper::reshape` under the default
/// configuration: the shaped text is a function of the input characters
/// alone; shaping an empty string yields an empty string; and all-ASCII
/// text passes through unchanged, since every ASCII character is outside
/// the Arabic letter table and the ligature patterns. Input holding a zero
/// width joiner is excluded: the crate's ligature pass computes positions
/// in text that keeps the joiner while its output vector drops it, and
/// indexes out of bounds on such input.
#[verifier::external_body]
fn reshape_call(text: &str) -> (r: String)
    requires
        !has_zwj(text@),
    ensures
        r@ == reshaped_of(text@),
        text@.len() == 0 ==> r@.len() == 0,
        crate::chars::all_ascii(text@) ==> r@ == text@,
{
    ar_reshaper::ArabicReshaper::default().reshape(text)
}

/// Reshape Arabic text for proper cursive display: characters with Arabic
/// joining behaviour become their isolated, initial, medial or final
/// presentation forms; everything else passes through unchanged. Text
/// holding a zero width joiner falls back to the identity, so the call
/// never fails.
pub fn reshape(text: &str) -> (r: String)
    ensures
        r@ == shaped_of(text@),
        text@.len() == 0 ==> r@.len() == 0,
        crate::chars::all_ascii(text@) ==> r@ == text@,
{
    let chars = crate::chars::str_chars(text);
    let mut i: usize = 0;
    while i < chars.len()
        invariant
            i <= chars@.len(),
            chars@ == text@,
            forall|k: int| 0 <= k < i ==> chars@[k] != '\u{200d}',
        decreases chars@.len() - i,
    {
        if chars[i] == '\u{200d}' {
            return text.to_owned();
        }
        i = i + 1;
    }
    proof {
        assert(!has_zwj(text@));
    }
    reshape_call(text)
}

} // verus!
