//! Hexadecimal text, as the node's RPC interface writes bytes.
use vstd::prelude::*;
use vstd::string::*;

verus! {

/// Value of a hexadecimal digit of either case, or -1 for any other character.
pub open spec fn hex_digit_value(c: char) -> int {
    let code = c as u32 as int;
    if 0x30 <= code <= 0x39 {
        code - 0x30
    } else if 0x61 <= code <= 0x66 {
        code - 0x61 + 10
    } else if 0x41 <= code <= 0x46 {
        code - 0x41 + 10
    } else {
        -1
    }
}

/// A text of an even number of hexadecimal digits.
pub open spec fn is_hex_text(s: Seq<char>) -> bool {
    &&& s.len() % 2 == 0
    &&& forall|i: int| 0 <= i < s.len() ==> hex_digit_value(#[trigger] s[i]) >= 0
}

/// The bytes that a hexadecimal text writes, two digits to the byte, high digit first.
pub open spec fn hex_bytes(s: Seq<char>) -> Seq<u8> {
    Seq::new(
        s.len() / 2,
        |i: int| (16 * hex_digit_value(s[2 * i]) + hex_digit_value(s[2 * i + 1])) as u8,
    )
}

/// The digit for a value below 16, in the given case.
pub open spec fn hex_digit(value: int, upper: bool) -> char {
    if 0 <= value < 10 {
        (0x30 + value) as u8 as char
    } else if upper {
        (0x41 + value - 10) as u8 as char
    } else {
        (0x61 + value - 10) as u8 as char
    }
}

/// The hexadecimal text of `bytes`, two digits to the byte, high digit first.
pub open spec fn hex_text(bytes: Seq<u8>, upper: bool) -> Seq<char> {
    Seq::new(
        2 * bytes.len(),
        |i: int|
            if i % 2 == 0 {
                hex_digit(bytes[i / 2] as int / 16, upper)
            } else {
                hex_digit(bytes[i / 2] as int % 16, upper)
            },
    )
}

/// `hex::decode`: the bytes of a text of an even number of hexadecimal digits of
/// either case, and nothing for any other text.
#[verifier::external_body]
pub(crate) fn hex_decode(text: &str) -> (bytes: Option<Vec<u8>>)
    ensures
        match bytes {
            Some(decoded) => is_hex_text(text@) && decoded@ == hex_bytes(text@),
            None => !is_hex_text(text@),
        },
{
    hex::decode(text).ok()
}

/// `hex::encode`: two lower-case digits for each byte.
#[verifier::external_body]
pub(crate) fn hex_encode(bytes: &[u8]) -> (text: String)
    ensures
        text@ == hex_text(bytes@, false),
{
    hex::encode(bytes)
}

/// `hex::encode_upper`: two upper-case digits for each byte.
#[verifier::external_body]
pub(crate) fn hex_encode_upper(bytes: &[u8]) -> (text: String)
    ensures
        text@ == hex_text(bytes@, true),
{
    hex::encode_upper(bytes)
}

/// `s` without any leading repetition of `0x`.
pub open spec fn without_hex_prefix(s: Seq<char>) -> Seq<char>
    decreases s.len(),
{
    if s.len() >= 2 && s[0] == '0' && s[1] == 'x' {
        without_hex_prefix(s.subrange(2, s.len() as int))
    } else {
        s
    }
}

/// Drops every leading `0x` of `text`.
pub fn strip_hex_prefix(text: &str) -> (rest: &str)
    ensures
        rest@ == without_hex_prefix(text@),
{
    let n = text.unicode_len();
    let mut start: usize = 0;
    assert(text@.subrange(0, n as int) =~= text@);
    while n - start >= 2 && text.get_char(start) == '0' && text.get_char(start + 1) == 'x'
        invariant
            n == text@.len(),
            start <= n,
            without_hex_prefix(text@) == without_hex_prefix(text@.subrange(start as int, n as int)),
        decreases n - start,
    {
        proof {
            let here = text@.subrange(start as int, n as int);
            assert(here[0] == text@[start as int]);
            assert(here[1] == text@[start + 1]);
            assert(here.subrange(2, here.len() as int) =~= text@.subrange(
                start + 2,
                n as int,
            ));
        }
        start += 2;
    }
    proof {
        let here = text@.subrange(start as int, n as int);
        if here.len() >= 2 {
            assert(here[0] == text@[start as int]);
            assert(here[1] == text@[start + 1]);
        }
    }
    text.substring_char(start, n)
}

/// The bytes written by a hexadecimal text with or without a `0x` prefix.
pub fn decode_hex(text: &str) -> (bytes: Option<Vec<u8>>)
    ensures
        match bytes {
            Some(decoded) => is_hex_text(without_hex_prefix(text@)) && decoded@ == hex_bytes(
                without_hex_prefix(text@),
            ),
            None => !is_hex_text(without_hex_prefix(text@)),
        },
{
    hex_decode(strip_hex_prefix(text))
}

/// `0x` and the lower-case hexadecimal text of `bytes`.
pub fn encode_hex(bytes: &[u8]) -> (text: String)
    ensures
        text@ == seq!['0', 'x'] + hex_text(bytes@, false),
{
    proof {
        reveal_strlit("0x");
        assert("0x"@ =~= seq!['0', 'x']);
    }
    let mut text = String::from_str("0x");
    let digits = hex_encode(bytes);
    text.append(digits.as_str());
    text
}

/// `0x` and the upper-case hexadecimal text of `bytes`.
pub fn encode_hex_upper(bytes: &[u8]) -> (text: String)
    ensures
        text@ == seq!['0', 'x'] + hex_text(bytes@, true),
{
    proof {
        reveal_strlit("0x");
        assert("0x"@ =~= seq!['0', 'x']);
    }
    let mut text = String::from_str("0x");
    let digits = hex_encode_upper(bytes);
    text.append(digits.as_str());
    text
}

/// A digit stands for the value it was written for.
pub proof fn lemma_hex_digit_value(value: int, upper: bool)
    requires
        0 <= value < 16,
    ensures
        hex_digit_value(hex_digit(value, upper)) == value,
{
    if value < 10 {
        assert(((0x30 + value) as u8 as char) as u32 == 0x30 + value);
    } else if upper {
        assert(((0x41 + value - 10) as u8 as char) as u32 == 0x41 + value - 10);
    } else {
        assert(((0x61 + value - 10) as u8 as char) as u32 == 0x61 + value - 10);
    }
}

/// Reading the hexadecimal text of some bytes gives those bytes.
pub proof fn lemma_hex_round_trip(bytes: Seq<u8>, upper: bool)
    ensures
        is_hex_text(hex_text(bytes, upper)),
        hex_bytes(hex_text(bytes, upper)) == bytes,
{
    let text = hex_text(bytes, upper);
    assert forall|i: int| 0 <= i < text.len() implies hex_digit_value(#[trigger] text[i]) >= 0 by {
        if i % 2 == 0 {
            lemma_hex_digit_value(bytes[i / 2] as int / 16, upper);
        } else {
            lemma_hex_digit_value(bytes[i / 2] as int % 16, upper);
        }
    }
    assert forall|i: int| 0 <= i < bytes.len() implies hex_bytes(text)[i] == bytes[i] by {
        lemma_hex_digit_value(bytes[i] as int / 16, upper);
        lemma_hex_digit_value(bytes[i] as int % 16, upper);
        assert(text[2 * i] == hex_digit(bytes[i] as int / 16, upper));
        assert(text[2 * i + 1] == hex_digit(bytes[i] as int % 16, upper));
    }
    assert(hex_bytes(text) =~= bytes);
}

} // verus!
