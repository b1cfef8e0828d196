//! Character-level helpers shared by the textual parsers of the crate.
use vstd::prelude::*;

verus! {

/// Whether `c` carries the Unicode `White_Space` property.
pub open spec fn is_space(c: char) -> bool {
    let code = c as u32;
    ||| 0x09 <= code <= 0x0D
    ||| code == 0x20
    ||| code == 0x85
    ||| code == 0xA0
    ||| code == 0x1680
    ||| 0x2000 <= code <= 0x200A
    ||| code == 0x2028
    ||| code == 0x2029
    ||| code == 0x202F
    ||| code == 0x205F
    ||| code == 0x3000
}

/// Executable test for [`is_space`].
pub fn char_is_space(c: char) -> (space: bool)
    ensures
        space == is_space(c),
{
    let code: u32 = c as u32;
    (0x09 <= code && code <= 0x0D) || code == 0x20 || code == 0x85 || code == 0xA0 || code == 0x1680
        || (0x2000 <= code && code <= 0x200A) || code == 0x2028 || code == 0x2029 || code == 0x202F
        || code == 0x205F || code == 0x3000
}

/// First index at or after `from` that holds no white space, or the length of `s`.
pub open spec fn skip_spaces(s: Seq<char>, from: int) -> int
    decreases s.len() - from,
{
    if 0 <= from < s.len() && is_space(s[from]) {
        skip_spaces(s, from + 1)
    } else {
        from
    }
}

/// End of the part of `s[from..to]` that is left once trailing white space is dropped.
pub open spec fn drop_trailing_spaces(s: Seq<char>, from: int, to: int) -> int
    decreases to - from,
{
    if 0 <= from < to <= s.len() && is_space(s[to - 1]) {
        drop_trailing_spaces(s, from, to - 1)
    } else {
        to
    }
}

/// Start of the trimmed part of `s`.
pub open spec fn trim_start_index(s: Seq<char>) -> int {
    skip_spaces(s, 0)
}

/// End of the trimmed part of `s`.
pub open spec fn trim_end_index(s: Seq<char>) -> int {
    drop_trailing_spaces(s, skip_spaces(s, 0), s.len() as int)
}

/// `s` without leading and trailing white space.
pub open spec fn trim(s: Seq<char>) -> Seq<char> {
    s.subrange(trim_start_index(s), trim_end_index(s))
}

/// A text is trimmed when it neither starts nor ends with white space.
pub open spec fn is_trimmed(s: Seq<char>) -> bool {
    s.len() > 0 ==> !is_space(s[0]) && !is_space(s[s.len() - 1])
}

pub proof fn lemma_skip_spaces_bounds(s: Seq<char>, from: int)
    requires
        0 <= from <= s.len(),
    ensures
        from <= skip_spaces(s, from) <= s.len(),
        skip_spaces(s, from) < s.len() ==> !is_space(s[skip_spaces(s, from)]),
        forall|i: int| from <= i < skip_spaces(s, from) ==> is_space(s[i]),
    decreases s.len() - from,
{
    if from < s.len() && is_space(s[from]) {
        lemma_skip_spaces_bounds(s, from + 1);
    }
}

pub proof fn lemma_drop_trailing_spaces_bounds(s: Seq<char>, from: int, to: int)
    requires
        0 <= from <= to <= s.len(),
    ensures
        from <= drop_trailing_spaces(s, from, to) <= to,
        from < drop_trailing_spaces(s, from, to) ==> !is_space(
            s[drop_trailing_spaces(s, from, to) - 1],
        ),
        forall|i: int| drop_trailing_spaces(s, from, to) <= i < to ==> is_space(s[i]),
    decreases to - from,
{
    if from < to && is_space(s[to - 1]) {
        lemma_drop_trailing_spaces_bounds(s, from, to - 1);
    }
}

/// The bounds of the trimmed part lie inside the text, and what they cut out is trimmed.
pub proof fn lemma_trim_bounds(s: Seq<char>)
    ensures
        0 <= trim_start_index(s) <= trim_end_index(s) <= s.len(),
        trim(s).len() <= s.len(),
        is_trimmed(trim(s)),
{
    lemma_skip_spaces_bounds(s, 0);
    lemma_drop_trailing_spaces_bounds(s, skip_spaces(s, 0), s.len() as int);
}

/// Trimming a trimmed text changes nothing.
pub proof fn lemma_trim_of_trimmed(s: Seq<char>)
    requires
        is_trimmed(s),
    ensures
        trim(s) == s,
{
    if s.len() == 0 {
        assert(skip_spaces(s, 0) == 0);
        assert(drop_trailing_spaces(s, 0, 0) == 0);
        assert(trim(s) =~= s);
    } else {
        assert(skip_spaces(s, 0) == 0);
        assert(drop_trailing_spaces(s, 0, s.len() as int) == s.len());
        assert(trim(s) =~= s);
    }
}

} // verus!

verus! {

/// `s` without leading and trailing white space.
pub fn trim_str(s: &str) -> (trimmed: &str)
    ensures
        trimmed@ == trim(s@),
{
    let n = s.unicode_len();
    let mut start: usize = 0;
    while start < n && char_is_space(s.get_char(start))
        invariant
            n == s@.len(),
            start <= n,
            skip_spaces(s@, 0) == skip_spaces(s@, start as int),
        decreases n - start,
    {
        start += 1;
    }
    let mut end: usize = n;
    while start < end && char_is_space(s.get_char(end - 1))
        invariant
            n == s@.len(),
            start <= end <= n,
            drop_trailing_spaces(s@, start as int, n as int) == drop_trailing_spaces(
                s@,
                start as int,
                end as int,
            ),
        decreases end - start,
    {
        end -= 1;
    }
    s.substring_char(start, end)
}

} // verus!

verus! {

proof fn lemma_skip_spaces_shift(s: Seq<char>, c: char, from: int)
    requires
        0 <= from <= s.len(),
    ensures
        skip_spaces(seq![c] + s, from + 1) == skip_spaces(s, from) + 1,
    decreases s.len() - from,
{
    let t = seq![c] + s;
    if from < s.len() {
        assert(t[from + 1] == s[from]);
        if is_space(s[from]) {
            lemma_skip_spaces_shift(s, c, from + 1);
        }
    }
}

proof fn lemma_drop_trailing_spaces_shift(s: Seq<char>, c: char, from: int, to: int)
    requires
        0 <= from <= to <= s.len(),
    ensures
        drop_trailing_spaces(seq![c] + s, from + 1, to + 1) == drop_trailing_spaces(s, from, to)
            + 1,
    decreases to - from,
{
    let t = seq![c] + s;
    if from < to {
        assert(t[to] == s[to - 1]);
        if is_space(s[to - 1]) {
            lemma_drop_trailing_spaces_shift(s, c, from, to - 1);
        }
    }
}

/// A blank in front of a text does not change what trimming leaves of it.
pub proof fn lemma_trim_ignores_leading_blank(s: Seq<char>)
    ensures
        trim(seq![' '] + s) == trim(s),
{
    let t = seq![' '] + s;
    assert(t[0] == ' ');
    assert(is_space(' '));
    lemma_skip_spaces_shift(s, ' ', 0);
    assert(skip_spaces(t, 0) == skip_spaces(t, 1));
    lemma_skip_spaces_bounds(s, 0);
    let a = skip_spaces(s, 0);
    lemma_drop_trailing_spaces_shift(s, ' ', a, s.len() as int);
    lemma_drop_trailing_spaces_bounds(s, a, s.len() as int);
    assert(trim(t) =~= trim(s));
}

} // verus!

verus! {

/// `String::from_utf8`: the text that the bytes encode, where they are valid
/// UTF-8; nothing where they are not.
#[verifier::external_body]
pub(crate) fn string_from_utf8(bytes: Vec<u8>) -> (text: Option<String>)
    ensures
        match text {
            Some(decoded) => vstd::utf8::valid_utf8(bytes@) && decoded@ == vstd::utf8::decode_utf8(
                bytes@,
            ),
            None => !vstd::utf8::valid_utf8(bytes@),
        },
{
    String::from_utf8(bytes).ok()
}

} // verus!
