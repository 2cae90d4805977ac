//! Character-level utilities shared by the whole crate: conversions between
//! `String` and `Vec<char>`, decimal and hexadecimal formatting, and the
//! display-width metric used by wrapping and measurement.

use vstd::prelude::*;

verus! {

use vstd::string::StringExecFns;

broadcast use vstd::string::group_string_axioms;

/// Collect the characters of a string slice into a vector.
pub fn str_chars(s: &str) -> (v: Vec<char>)
    ensures
        v@ == s@,
{
    let mut v: Vec<char> = Vec::new();
    for c in it: s.chars()
        invariant
            v@ == it.seq().subrange(0, it.index() as int),
            it.seq() == s@,
    {
        v.push(c);
    }
    proof {
        assert(v@ =~= s@);
    }
    v
}

/// Relies on `String::push`: appends one character at the end.
#[verifier::external_body]
pub fn push_char(s: &mut String, c: char)
    ensures
        final(s)@ == old(s)@.push(c),
{
    s.push(c)
}

/// Build a `String` from a sequence of characters.
pub fn chars_string(v: &Vec<char>) -> (s: String)
    ensures
        s@ == v@,
{
    let mut s = String::new();
    let mut i: usize = 0;
    while i < v.len()
        invariant
            i <= v.len(),
            s@ == v@.subrange(0, i as int),
        decreases v.len() - i,
    {
        push_char(&mut s, v[i]);
        i = i + 1;
        proof {
            assert(v@.subrange(0, i as int) =~= v@.subrange(0, i - 1).push(v@[i - 1]));
        }
    }
    proof {
        assert(v@.subrange(0, v@.len() as int) =~= v@);
    }
    s
}

/// Copy the character range `[a, b)` out of a vector.
pub fn subchars(v: &Vec<char>, a: usize, b: usize) -> (r: Vec<char>)
    requires
        a <= b <= v@.len(),
    ensures
        r@ == v@.subrange(a as int, b as int),
{
    let mut r: Vec<char> = Vec::new();
    let mut i: usize = a;
    while i < b
        invariant
            a <= i <= b <= v@.len(),
            r@ == v@.subrange(a as int, i as int),
        decreases b - i,
    {
        r.push(v[i]);
        i = i + 1;
        proof {
            assert(v@.subrange(a as int, i as int) =~= v@.subrange(a as int, i - 1).push(
                v@[i - 1],
            ));
        }
    }
    r
}

/// Compare a character vector against a string slice.
pub fn chars_eq_str(v: &Vec<char>, s: &str) -> (r: bool)
    ensures
        r == (v@ == s@),
{
    let w = str_chars(s);
    chars_eq(v, &w)
}

/// Compare two character vectors for equality of their contents.
pub fn chars_eq(a: &Vec<char>, b: &Vec<char>) -> (r: bool)
    ensures
        r == (a@ == b@),
{
    if a.len() != b.len() {
        proof {
            assert(a@.len() != b@.len());
        }
        return false;
    }
    let mut i: usize = 0;
    while i < a.len()
        invariant
            i <= a.len(),
            a@.len() == b@.len(),
            forall|j: int| 0 <= j < i ==> a@[j] == b@[j],
        decreases a.len() - i,
    {
        if a[i] != b[i] {
            return false;
        }
        i = i + 1;
    }
    proof {
        assert(a@ =~= b@);
    }
    true
}

/// The decimal digit character for a value below ten.
pub open spec fn dec_digit(d: nat) -> char {
    if d == 0 {
        '0'
    } else if d == 1 {
        '1'
    } else if d == 2 {
        '2'
    } else if d == 3 {
        '3'
    } else if d == 4 {
        '4'
    } else if d == 5 {
        '5'
    } else if d == 6 {
        '6'
    } else if d == 7 {
        '7'
    } else if d == 8 {
        '8'
    } else {
        '9'
    }
}

/// The decimal representation of a natural number, without leading zeros.
pub open spec fn dec_str(n: nat) -> Seq<char>
    decreases n,
{
    if n < 10 {
        seq![dec_digit(n)]
    } else {
        dec_str(n / 10).push(dec_digit(n % 10))
    }
}

fn dec_digit_char(d: u8) -> (c: char)
    requires
        d < 10,
    ensures
        c == dec_digit(d as nat),
{
    match d {
        0 => '0',
        1 => '1',
        2 => '2',
        3 => '3',
        4 => '4',
        5 => '5',
        6 => '6',
        7 => '7',
        8 => '8',
        _ => '9',
    }
}

/// Append the decimal representation of `n` to a character vector.
pub fn push_dec_u64(out: &mut Vec<char>, n: u64)
    ensures
        final(out)@ == old(out)@ + dec_str(n as nat),
    decreases n,
{
    if n < 10 {
        out.push(dec_digit_char(n as u8));
    } else {
        push_dec_u64(out, n / 10);
        out.push(dec_digit_char((n % 10) as u8));
    }
}

/// The decimal representation of a usize value, as a string.
pub fn usize_string(n: usize) -> (s: String)
    ensures
        s@ == dec_str(n as nat),
{
    let mut v: Vec<char> = Vec::new();
    push_dec_u64(&mut v, n as u64);
    chars_string(&v)
}

/// The decimal representation, left-padded with zeros to at least two digits.
pub open spec fn dec_str_pad2(n: nat) -> Seq<char> {
    if n < 10 {
        seq!['0'].push(dec_digit(n))
    } else {
        dec_str(n)
    }
}

/// The decimal representation, left-padded with zeros to at least three digits.
pub open spec fn dec_str_pad3(n: nat) -> Seq<char> {
    if n < 10 {
        seq!['0', '0'].push(dec_digit(n))
    } else if n < 100 {
        seq!['0'] + dec_str(n)
    } else {
        dec_str(n)
    }
}

/// Append `n` in decimal, zero-padded to at least two digits.
pub fn push_dec_pad2(out: &mut Vec<char>, n: u64)
    ensures
        final(out)@ == old(out)@ + dec_str_pad2(n as nat),
{
    if n < 10 {
        out.push('0');
        out.push(dec_digit_char(n as u8));
        proof {
            assert(old(out)@.push('0').push(dec_digit(n as nat)) =~= old(out)@ + dec_str_pad2(
                n as nat,
            ));
        }
    } else {
        push_dec_u64(out, n);
    }
}

/// Append `n` in decimal, zero-padded to at least three digits.
pub fn push_dec_pad3(out: &mut Vec<char>, n: u64)
    ensures
        final(out)@ == old(out)@ + dec_str_pad3(n as nat),
{
    if n < 10 {
        out.push('0');
        out.push('0');
        out.push(dec_digit_char(n as u8));
        proof {
            assert(old(out)@.push('0').push('0').push(dec_digit(n as nat)) =~= old(out)@
                + dec_str_pad3(n as nat));
        }
    } else if n < 100 {
        out.push('0');
        push_dec_u64(out, n);
        proof {
            assert(old(out)@.push('0') + dec_str(n as nat) =~= old(out)@ + dec_str_pad3(n as nat));
        }
    } else {
        push_dec_u64(out, n);
    }
}

/// The lowercase hexadecimal digit character for a value below sixteen.
pub open spec fn hex_digit(d: nat) -> char {
    if d < 10 {
        dec_digit(d)
    } else if d == 10 {
        'a'
    } else if d == 11 {
        'b'
    } else if d == 12 {
        'c'
    } else if d == 13 {
        'd'
    } else if d == 14 {
        'e'
    } else {
        'f'
    }
}

/// Two lowercase hexadecimal digits for a byte.
pub open spec fn hex_str2(n: nat) -> Seq<char> {
    seq![hex_digit(n / 16), hex_digit(n % 16)]
}

fn hex_digit_char(d: u8) -> (c: char)
    requires
        d < 16,
    ensures
        c == hex_digit(d as nat),
{
    if d < 10 {
        dec_digit_char(d)
    } else {
        match d {
            10 => 'a',
            11 => 'b',
            12 => 'c',
            13 => 'd',
            14 => 'e',
            _ => 'f',
        }
    }
}

/// Append a byte as two lowercase hexadecimal digits.
pub fn push_hex2(out: &mut Vec<char>, n: u8)
    ensures
        final(out)@ == old(out)@ + hex_str2(n as nat),
{
    out.push(hex_digit_char(n / 16));
    out.push(hex_digit_char(n % 16));
    proof {
        assert(old(out)@.push(hex_digit((n / 16) as nat)).push(hex_digit((n % 16) as nat))
            =~= old(out)@ + hex_str2(n as nat));
    }
}

/// The number of terminal columns a character occupies, or `None` for a
/// control character, as Unicode Standard Annex #11 assigns it.
pub uninterp spec fn char_terminal_width(c: char) -> Option<usize>;

/// Relies on `unicode_width::UnicodeWidthChar::width`: the display width of
/// one character, `None` for control characters, never above three columns
/// (the width table's maximum entry).
#[verifier::external_body]
fn char_width_opt(c: char) -> (r: Option<usize>)
    ensures
        r == char_terminal_width(c),
        r matches Some(w) ==> w <= 3,
{
    unicode_width::UnicodeWidthChar::width(c)
}

/// The column contribution of one character: its terminal width, with
/// control characters counting as zero.
pub open spec fn cwidth(c: char) -> nat {
    match char_terminal_width(c) {
        Some(w) => w as nat,
        None => 0,
    }
}

/// The display width of a character sequence: the sum of the column
/// contributions of its characters.
pub open spec fn display_width(s: Seq<char>) -> nat
    decreases s.len(),
{
    if s.len() == 0 {
        0
    } else {
        display_width(s.drop_last()) + cwidth(s.last())
    }
}

/// A width saturated at the machine word, so that it is always
/// representable.
pub open spec fn wclamp(n: nat) -> nat {
    if n > usize::MAX {
        usize::MAX as nat
    } else {
        n
    }
}

/// The display width of a character sequence, saturated at the machine word.
pub open spec fn dwidth(s: Seq<char>) -> nat {
    wclamp(display_width(s))
}

/// Display width distributes over concatenation.
pub proof fn lemma_display_width_concat(a: Seq<char>, b: Seq<char>)
    ensures
        display_width(a + b) == display_width(a) + display_width(b),
    decreases b.len(),
{
    if b.len() == 0 {
        assert(a + b =~= a);
    } else {
        lemma_display_width_concat(a, b.drop_last());
        assert((a + b).drop_last() =~= a + b.drop_last());
        assert((a + b).last() == b.last());
    }
}

/// The exec column contribution of one character.
pub fn char_cell_width(c: char) -> (w: usize)
    ensures
        w == cwidth(c),
        w <= 3,
{
    match char_width_opt(c) {
        Some(w) => w,
        None => 0,
    }
}

/// The display width of a character vector, saturated at the machine word.
pub fn chars_width(v: &Vec<char>) -> (w: usize)
    ensures
        w == dwidth(v@),
{
    let mut total: usize = 0;
    let mut i: usize = 0;
    while i < v.len()
        invariant
            i <= v@.len(),
            total == dwidth(v@.subrange(0, i as int)),
        decreases v@.len() - i,
    {
        let cw = char_cell_width(v[i]);
        proof {
            assert(v@.subrange(0, i + 1).drop_last() =~= v@.subrange(0, i as int));
            assert(v@.subrange(0, i + 1).last() == v@[i as int]);
        }
        if cw > usize::MAX - total {
            total = usize::MAX;
        } else {
            total = total + cw;
        }
        i = i + 1;
    }
    proof {
        assert(v@.subrange(0, v@.len() as int) =~= v@);
    }
    total
}

/// Every character of the sequence is ASCII.
pub open spec fn all_ascii(s: Seq<char>) -> bool {
    forall|i: int| 0 <= i < s.len() ==> ((#[trigger] s[i]) as u32) < 128
}

/// Whitespace, the separator recognised by the markup and color grammars
/// and the class wrapping breaks at: the characters of the Unicode
/// `White_Space` set.
pub open spec fn is_white_space(c: char) -> bool {
    ||| c == ' '
    ||| c == '\t'
    ||| c == '\n'
    ||| c == '\r'
    ||| c == '\u{b}'
    ||| c == '\u{c}'
    ||| c == '\u{85}'
    ||| c == '\u{a0}'
    ||| c == '\u{1680}'
    ||| 0x2000 <= (c as u32) && (c as u32) <= 0x200a
    ||| c == '\u{2028}'
    ||| c == '\u{2029}'
    ||| c == '\u{202f}'
    ||| c == '\u{205f}'
    ||| c == '\u{3000}'
}

/// Lowercasing of one character into the ASCII range: `A`..`Z` are
/// lowered, and so is the Kelvin sign, the one character outside ASCII
/// whose Unicode lowercase is an ASCII letter; everything else is kept.
pub open spec fn lower_char(c: char) -> char {
    if 65 <= (c as u32) && (c as u32) <= 90 {
        (((c as u32) + 32) as u8) as char
    } else if c == '\u{212a}' {
        'k'
    } else {
        c
    }
}

/// Lowercasing of a character sequence into the ASCII range.
pub open spec fn lower(s: Seq<char>) -> Seq<char> {
    s.map_values(|c: char| lower_char(c))
}

/// The sequence with leading whitespace removed.
pub open spec fn trim_front(s: Seq<char>) -> Seq<char>
    decreases s.len(),
{
    if s.len() > 0 && is_white_space(s[0]) {
        trim_front(s.drop_first())
    } else {
        s
    }
}

/// The sequence with trailing whitespace removed.
pub open spec fn trim_back(s: Seq<char>) -> Seq<char>
    decreases s.len(),
{
    if s.len() > 0 && is_white_space(s[s.len() - 1]) {
        trim_back(s.drop_last())
    } else {
        s
    }
}

/// The sequence with whitespace removed from both ends.
pub open spec fn trimmed(s: Seq<char>) -> Seq<char> {
    trim_back(trim_front(s))
}

pub proof fn lemma_trim_front_index(s: Seq<char>, a: int)
    requires
        0 <= a <= s.len(),
        forall|i: int| 0 <= i < a ==> is_white_space(s[i]),
        a == s.len() || !is_white_space(s[a]),
    ensures
        trim_front(s) == s.subrange(a, s.len() as int),
    decreases a,
{
    if a == 0 {
        if s.len() == 0 || !is_white_space(s[0]) {
            assert(trim_front(s) =~= s.subrange(0, s.len() as int));
        }
    } else {
        lemma_trim_front_index(s.drop_first(), a - 1);
        assert(s.drop_first().subrange(a - 1, s.drop_first().len() as int) =~= s.subrange(
            a,
            s.len() as int,
        ));
    }
}

pub proof fn lemma_trim_back_index(s: Seq<char>, b: int)
    requires
        0 <= b <= s.len(),
        forall|i: int| b <= i < s.len() ==> is_white_space(s[i]),
        b == 0 || !is_white_space(s[b - 1]),
    ensures
        trim_back(s) == s.subrange(0, b),
    decreases s.len(),
{
    if b == s.len() {
        if s.len() == 0 || !is_white_space(s[s.len() - 1]) {
            assert(trim_back(s) =~= s.subrange(0, b));
        } else {
            lemma_trim_back_index(s.drop_last(), b - 1);
            assert(false);
        }
    } else {
        lemma_trim_back_index(s.drop_last(), b);
        assert(s.drop_last().subrange(0, b) =~= s.subrange(0, b));
    }
}

/// Whether a character is whitespace.
pub fn space_char(c: char) -> (r: bool)
    ensures
        r == is_white_space(c),
{
    let u = c as u32;
    u == 0x20 || u == 0x9 || u == 0xa || u == 0xd || u == 0xb || u == 0xc || u == 0x85 || u
        == 0xa0 || u == 0x1680 || (0x2000 <= u && u <= 0x200a) || u == 0x2028 || u == 0x2029 || u
        == 0x202f || u == 0x205f || u == 0x3000
}

fn is_space_exec(c: char) -> (r: bool)
    ensures
        r == is_white_space(c),
{
    space_char(c)
}

fn lower_char_exec(c: char) -> (r: char)
    ensures
        r == lower_char(c),
{
    let u = c as u32;
    if 65 <= u && u <= 90 {
        ((u + 32) as u8) as char
    } else if u == 0x212a {
        'k'
    } else {
        c
    }
}

/// Lowercase the ASCII letters of a character vector.
pub fn lower_chars(v: &Vec<char>) -> (r: Vec<char>)
    ensures
        r@ == lower(v@),
{
    let mut r: Vec<char> = Vec::new();
    let mut i: usize = 0;
    while i < v.len()
        invariant
            i <= v@.len(),
            r@ == v@.subrange(0, i as int).map_values(|c: char| lower_char(c)),
        decreases v@.len() - i,
    {
        r.push(lower_char_exec(v[i]));
        i = i + 1;
        proof {
            assert(v@.subrange(0, i as int).map_values(|c: char| lower_char(c)) =~= v@.subrange(
                0,
                i - 1,
            ).map_values(|c: char| lower_char(c)).push(lower_char(v@[i - 1])));
        }
    }
    proof {
        assert(v@.subrange(0, v@.len() as int) =~= v@);
    }
    r
}

/// Trim whitespace from both ends of a character vector.
pub fn trim_chars(v: &Vec<char>) -> (r: Vec<char>)
    ensures
        r@ == trimmed(v@),
{
    let n = v.len();
    let mut a: usize = 0;
    while a < n && is_space_exec(v[a])
        invariant
            a <= n,
            n == v@.len(),
            forall|i: int| 0 <= i < a ==> is_white_space(v@[i]),
        decreases n - a,
    {
        a = a + 1;
    }
    let mut b: usize = n;
    if a == n {
        b = a;
    } else {
        while b > a && is_space_exec(v[b - 1])
            invariant
                a <= b <= n,
                n == v@.len(),
                forall|i: int| b <= i < n ==> is_white_space(v@[i]),
            decreases b,
        {
            b = b - 1;
        }
    }
    proof {
        lemma_trim_front_index(v@, a as int);
        if a == n {
            assert(trim_front(v@) =~= Seq::<char>::empty());
            assert(trim_back(trim_front(v@)) =~= v@.subrange(a as int, b as int));
        } else {
            let t = v@.subrange(a as int, v@.len() as int);
            assert(b > a);
            assert(!is_white_space(t[b - a - 1]));
            lemma_trim_back_index(t, b - a);
            assert(t.subrange(0, b - a) =~= v@.subrange(a as int, b as int));
        }
    }
    subchars(v, a, b)
}

/// Trim whitespace from both ends and lowercase the ASCII letters.
pub fn lower_trim(v: &Vec<char>) -> (r: Vec<char>)
    ensures
        r@ == lower(trimmed(v@)),
{
    let n = v.len();
    let mut a: usize = 0;
    while a < n && is_space_exec(v[a])
        invariant
            a <= n,
            n == v@.len(),
            forall|i: int| 0 <= i < a ==> is_white_space(v@[i]),
        decreases n - a,
    {
        a = a + 1;
    }
    let mut b: usize = n;
    if a == n {
        b = a;
    } else {
        while b > a && is_space_exec(v[b - 1])
            invariant
                a <= b <= n,
                n == v@.len(),
                forall|i: int| b <= i < n ==> is_white_space(v@[i]),
            decreases b,
        {
            b = b - 1;
        }
    }
    proof {
        lemma_trim_front_index(v@, a as int);
        if a == n {
            assert(trim_front(v@) =~= Seq::<char>::empty());
            assert(trim_back(trim_front(v@)) =~= v@.subrange(a as int, b as int));
        } else {
            let t = v@.subrange(a as int, v@.len() as int);
            assert(b > a);
            assert(!is_white_space(t[b - a - 1]));
            lemma_trim_back_index(t, b - a);
            assert(t.subrange(0, b - a) =~= v@.subrange(a as int, b as int));
        }
    }
    let mut r: Vec<char> = Vec::new();
    let mut i: usize = a;
    while i < b
        invariant
            a <= i <= b <= v@.len(),
            r@ == v@.subrange(a as int, i as int).map_values(|c: char| lower_char(c)),
        decreases b - i,
    {
        r.push(lower_char_exec(v[i]));
        i = i + 1;
        proof {
            assert(v@.subrange(a as int, i as int).map_values(|c: char| lower_char(c)) =~= v@
                .subrange(a as int, i - 1).map_values(|c: char| lower_char(c)).push(
                lower_char(v@[i - 1]),
            ));
        }
    }
    r
}

/// The index of the first character satisfying no-token-continuation, used to
/// delimit whitespace-separated tokens.
pub open spec fn first_space_index(s: Seq<char>) -> int
    decreases s.len(),
{
    if s.len() == 0 {
        0
    } else if is_white_space(s[0]) {
        0
    } else {
        1 + first_space_index(s.drop_first())
    }
}

pub proof fn lemma_first_space_index(s: Seq<char>, k: int)
    requires
        0 <= k <= s.len(),
        forall|i: int| 0 <= i < k ==> !is_white_space(s[i]),
        k == s.len() || is_white_space(s[k]),
    ensures
        first_space_index(s) == k,
    decreases k,
{
    if k == 0 {
    } else {
        lemma_first_space_index(s.drop_first(), k - 1);
    }
}

/// The whitespace-separated tokens of a character sequence, in order.
pub open spec fn tokens_of(s: Seq<char>) -> Seq<Seq<char>>
    decreases s.len(),
{
    if s.len() == 0 {
        Seq::empty()
    } else if is_white_space(s[0]) {
        tokens_of(s.drop_first())
    } else {
        let k = first_space_index(s);
        if 1 <= k <= s.len() {
            seq![s.subrange(0, k)] + tokens_of(s.subrange(k, s.len() as int))
        } else {
            seq![s]
        }
    }
}

proof fn lemma_first_space_bounds(s: Seq<char>)
    ensures
        0 <= first_space_index(s) <= s.len(),
        s.len() > 0 && !is_white_space(s[0]) ==> first_space_index(s) >= 1,
    decreases s.len(),
{
    if s.len() > 0 && !is_white_space(s[0]) {
        lemma_first_space_bounds(s.drop_first());
    }
}

fn tokens_from(v: &Vec<char>, from: usize) -> (r: Vec<Vec<char>>)
    requires
        from <= v@.len(),
    ensures
        r.deep_view() == tokens_of(v@.subrange(from as int, v@.len() as int)),
    decreases v@.len() - from,
{
    let n = v.len();
    if from == n {
        let r: Vec<Vec<char>> = Vec::new();
        proof {
            assert(v@.subrange(from as int, n as int) =~= Seq::<char>::empty());
            assert(r.deep_view() =~~= Seq::<Seq<char>>::empty());
        }
        r
    } else if is_space_exec(v[from]) {
        let r = tokens_from(v, from + 1);
        proof {
            assert(v@.subrange(from as int, n as int).drop_first() =~= v@.subrange(
                from + 1,
                n as int,
            ));
        }
        r
    } else {
        let mut j: usize = from;
        while j < n && !is_space_exec(v[j])
            invariant
                from <= j <= n,
                n == v@.len(),
                forall|i: int| from <= i < j ==> !is_white_space(v@[i]),
            decreases n - j,
        {
            j = j + 1;
        }
        let ghost s = v@.subrange(from as int, n as int);
        proof {
            lemma_first_space_index(s, j - from);
        }
        let tok = subchars(v, from, j);
        let mut r = tokens_from(v, j);
        r.insert(0, tok);
        proof {
            assert(s.subrange(0, j - from) =~= v@.subrange(from as int, j as int));
            assert(s.subrange(j - from, s.len() as int) =~= v@.subrange(j as int, n as int));
            assert(r.deep_view() =~~= seq![s.subrange(0, j - from)] + tokens_of(
                s.subrange(j - from, s.len() as int),
            ));
        }
        r
    }
}

/// Split a character sequence into its whitespace-separated tokens.
pub fn split_tokens(v: &Vec<char>) -> (r: Vec<Vec<char>>)
    ensures
        r.deep_view() == tokens_of(v@),
{
    let r = tokens_from(v, 0);
    proof {
        assert(v@.subrange(0, v@.len() as int) =~= v@);
    }
    r
}

/// The index of the first comma, or the length when there is none.
pub open spec fn first_comma_index(s: Seq<char>) -> int
    decreases s.len(),
{
    if s.len() == 0 {
        0
    } else if s[0] == ',' {
        0
    } else {
        1 + first_comma_index(s.drop_first())
    }
}

pub proof fn lemma_first_comma_index(s: Seq<char>, k: int)
    requires
        0 <= k <= s.len(),
        forall|i: int| 0 <= i < k ==> s[i] != ',',
        k == s.len() || s[k] == ',',
    ensures
        first_comma_index(s) == k,
    decreases k,
{
    if k == 0 {
    } else {
        lemma_first_comma_index(s.drop_first(), k - 1);
    }
}

/// The comma-separated pieces of a character sequence; empty pieces are kept,
/// and there is always at least one piece.
pub open spec fn split_commas(s: Seq<char>) -> Seq<Seq<char>>
    decreases s.len(),
{
    let k = first_comma_index(s);
    if 0 <= k < s.len() {
        seq![s.subrange(0, k)] + split_commas(s.subrange(k + 1, s.len() as int))
    } else {
        seq![s]
    }
}

proof fn lemma_first_comma_bounds(s: Seq<char>)
    ensures
        0 <= first_comma_index(s) <= s.len(),
    decreases s.len(),
{
    if s.len() > 0 && s[0] != ',' {
        lemma_first_comma_bounds(s.drop_first());
    }
}

fn split_commas_from(v: &Vec<char>, from: usize) -> (r: Vec<Vec<char>>)
    requires
        from <= v@.len(),
    ensures
        r.deep_view() == split_commas(v@.subrange(from as int, v@.len() as int)),
    decreases v@.len() - from,
{
    let n = v.len();
    let mut j: usize = from;
    while j < n && v[j] != ','
        invariant
            from <= j <= n,
            n == v@.len(),
            forall|i: int| from <= i < j ==> v@[i] != ',',
        decreases n - j,
    {
        j = j + 1;
    }
    let ghost s = v@.subrange(from as int, n as int);
    proof {
        lemma_first_comma_index(s, j - from);
    }
    let piece = subchars(v, from, j);
    if j == n {
        let mut r: Vec<Vec<char>> = Vec::new();
        r.push(piece);
        proof {
            assert(s.subrange(0, j - from) =~= s);
            assert(r.deep_view() =~~= seq![s]);
        }
        r
    } else {
        let mut r = split_commas_from(v, j + 1);
        r.insert(0, piece);
        proof {
            assert(s.subrange(0, j - from) =~= v@.subrange(from as int, j as int));
            assert(s.subrange(j - from + 1, s.len() as int) =~= v@.subrange(j + 1, n as int));
            assert(r.deep_view() =~~= seq![s.subrange(0, j - from)] + split_commas(
                s.subrange(j - from + 1, s.len() as int),
            ));
        }
        r
    }
}

/// Split a character sequence at commas, keeping empty pieces.
pub fn split_at_commas(v: &Vec<char>) -> (r: Vec<Vec<char>>)
    ensures
        r.deep_view() == split_commas(v@),
{
    let r = split_commas_from(v, 0);
    proof {
        assert(v@.subrange(0, v@.len() as int) =~= v@);
    }
    r
}

/// Whether `p` occurs as a contiguous substring of `s`.
pub open spec fn contains_seq(s: Seq<char>, p: Seq<char>) -> bool {
    exists|i: int| 0 <= i <= s.len() - p.len() && #[trigger] s.subrange(i, i + p.len()) == p
}

/// Substring search: whether the pattern occurs in the text.
pub fn contains_sub(v: &Vec<char>, pat: &str) -> (r: bool)
    ensures
        r == contains_seq(v@, pat@),
{
    let p = str_chars(pat);
    if p.len() > v.len() {
        proof {
            assert(!contains_seq(v@, pat@));
        }
        return false;
    }
    if p.len() == 0 {
        proof {
            assert(v@.subrange(0, 0 + pat@.len() as int) =~= pat@);
        }
        return true;
    }
    let n = v.len();
    let m = p.len();
    let bound = n - m;
    let mut i: usize = 0;
    while i <= bound
        invariant
            p@ == pat@,
            m == p@.len(),
            n == v@.len(),
            m >= 1,
            m <= n,
            bound == n - m,
            i <= bound + 1,
            forall|k: int| 0 <= k < i ==> #[trigger] v@.subrange(k, k + p@.len() as int) != pat@,
        decreases n - i,
    {
        let window = subchars(v, i, i + m);
        if chars_eq(&window, &p) {
            proof {
                assert(v@.subrange(i as int, i + p@.len()) == pat@);
            }
            return true;
        }
        i = i + 1;
    }
    proof {
        assert(!contains_seq(v@, pat@));
    }
    false
}

/// Four lowercase hexadecimal digits for a value below `0x10000`.
pub open spec fn hex_str4(n: nat) -> Seq<char> {
    seq![
        hex_digit(n / 4096 % 16),
        hex_digit(n / 256 % 16),
        hex_digit(n / 16 % 16),
        hex_digit(n % 16),
    ]
}

/// The JSON escape of one character: ASCII stays, characters up to
/// `U+FFFF` become one `\uXXXX` escape, and anything beyond becomes a
/// UTF-16 surrogate pair of two escapes.
pub open spec fn escaped_char(c: char) -> Seq<char> {
    let u = (c as u32) as nat;
    if u < 128 {
        seq![c]
    } else if u <= 0xFFFF {
        seq!['\\', 'u'] + hex_str4(u)
    } else {
        let v = (u - 0x10000) as nat;
        seq!['\\', 'u'] + hex_str4(0xD800 + v / 0x400) + seq!['\\', 'u'] + hex_str4(
            0xDC00 + v % 0x400,
        )
    }
}

/// The text with every non-ASCII character replaced by its escapes.
pub open spec fn escaped_non_ascii(s: Seq<char>) -> Seq<char>
    decreases s.len(),
{
    if s.len() == 0 {
        Seq::empty()
    } else {
        escaped_char(s[0]) + escaped_non_ascii(s.drop_first())
    }
}

fn push_hex4(out: &mut Vec<char>, n: u32)
    requires
        n < 0x10000,
    ensures
        final(out)@ == old(out)@ + hex_str4(n as nat),
{
    out.push(hex_digit_char((n / 4096 % 16) as u8));
    out.push(hex_digit_char((n / 256 % 16) as u8));
    out.push(hex_digit_char((n / 16 % 16) as u8));
    out.push(hex_digit_char((n % 16) as u8));
    proof {
        assert(final(out)@ =~= old(out)@ + hex_str4(n as nat));
    }
}

/// Escape every non-ASCII character of a string to `\uXXXX` form, with
/// surrogate pairs for characters beyond the basic plane.
pub fn escape_non_ascii(s: &str) -> (r: String)
    ensures
        r@ == escaped_non_ascii(s@),
{
    let v = str_chars(s);
    let mut out: Vec<char> = Vec::new();
    let mut i: usize = 0;
    proof {
        assert(v@.skip(0) =~= v@);
        assert(out@ + escaped_non_ascii(v@) =~= escaped_non_ascii(v@));
    }
    while i < v.len()
        invariant
            i <= v@.len(),
            v@ == s@,
            out@ + escaped_non_ascii(v@.skip(i as int)) == escaped_non_ascii(v@),
        decreases v@.len() - i,
    {
        let c = v[i];
        let ghost rest = v@.skip(i as int);
        let ghost out0 = out@;
        proof {
            assert(rest[0] == v@[i as int]);
            assert(rest.drop_first() =~= v@.skip(i + 1));
        }
        let u = c as u32;
        proof {
            vstd::utf8::char_is_scalar(c);
        }
        if u < 128 {
            out.push(c);
            proof {
                assert(out@ =~= out0 + escaped_char(c));
            }
        } else if u <= 0xFFFF {
            out.push('\\');
            out.push('u');
            push_hex4(&mut out, u);
            proof {
                assert(out@ =~= out0 + escaped_char(c));
            }
        } else {
            let w = u - 0x10000;
            out.push('\\');
            out.push('u');
            push_hex4(&mut out, 0xD800 + w / 0x400);
            out.push('\\');
            out.push('u');
            push_hex4(&mut out, 0xDC00 + w % 0x400);
            proof {
                assert(out@ =~= out0 + escaped_char(c));
            }
        }
        proof {
            assert((out0 + escaped_char(c)) + escaped_non_ascii(v@.skip(i + 1)) =~= out0 + (
            escaped_char(c) + escaped_non_ascii(v@.skip(i + 1))));
        }
        i = i + 1;
    }
    proof {
        assert(v@.skip(v@.len() as int) =~= Seq::<char>::empty());
        assert(out@ + Seq::<char>::empty() =~= out@);
    }
    chars_string(&out)
}

/// A run of `n` copies of one character.
pub open spec fn char_repeat(c: char, n: nat) -> Seq<char>
    decreases n,
{
    if n == 0 {
        Seq::empty()
    } else {
        char_repeat(c, (n - 1) as nat).push(c)
    }
}

/// Build a string of `n` copies of one character.
pub fn repeat_char(c: char, n: usize) -> (s: String)
    ensures
        s@ == char_repeat(c, n as nat),
        s@.len() == n,
{
    let mut v: Vec<char> = Vec::new();
    let mut i: usize = 0;
    while i < n
        invariant
            i <= n,
            v@ == char_repeat(c, i as nat),
            v@.len() == i,
        decreases n - i,
    {
        v.push(c);
        i = i + 1;
    }
    chars_string(&v)
}

} // verus!
