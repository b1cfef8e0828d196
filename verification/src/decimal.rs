//! Decimal text of unsigned integers, and its reading.
use vstd::prelude::*;
use vstd::string::*;

verus! {

/// The digit character of a value below ten.
pub open spec fn digit_char(value: int) -> char {
    (0x30 + value) as u8 as char
}

/// The decimal text of `n`, without leading zeros.
pub open spec fn decimal_text(n: nat) -> Seq<char>
    decreases n,
{
    if n < 10 {
        seq![digit_char(n as int)]
    } else {
        decimal_text(n / 10).push(digit_char((n % 10) as int))
    }
}

/// The one-character text of a digit.
fn digit_str(value: u8) -> (text: &'static str)
    requires
        value < 10,
    ensures
        text@ == seq![digit_char(value as int)],
{
    proof {
        reveal_strlit("0");
        reveal_strlit("1");
        reveal_strlit("2");
        reveal_strlit("3");
        reveal_strlit("4");
        reveal_strlit("5");
        reveal_strlit("6");
        reveal_strlit("7");
        reveal_strlit("8");
        reveal_strlit("9");
    }
    let text = if value == 0 {
        "0"
    } else if value == 1 {
        "1"
    } else if value == 2 {
        "2"
    } else if value == 3 {
        "3"
    } else if value == 4 {
        "4"
    } else if value == 5 {
        "5"
    } else if value == 6 {
        "6"
    } else if value == 7 {
        "7"
    } else if value == 8 {
        "8"
    } else {
        "9"
    };
    assert(text@ =~= seq![digit_char(value as int)]);
    text
}

/// Appends the decimal text of `n` to `out`.
pub fn append_decimal(out: &mut String, n: u128)
    ensures
        final(out)@ == old(out)@ + decimal_text(n as nat),
    decreases n,
{
    if n >= 10 {
        append_decimal(out, n / 10);
    }
    out.append(digit_str((n % 10) as u8));
    assert(out@ =~= old(out)@ + decimal_text(n as nat));
}

/// The decimal text of `n`.
pub fn decimal_string(n: u128) -> (text: String)
    ensures
        text@ == decimal_text(n as nat),
{
    let mut text = String::new();
    append_decimal(&mut text, n);
    assert(text@ =~= decimal_text(n as nat));
    text
}

/// Value of a decimal digit, or -1 for any other character.
pub open spec fn digit_value(c: char) -> int {
    let code = c as u32 as int;
    if 0x30 <= code <= 0x39 {
        code - 0x30
    } else {
        -1
    }
}

/// Whether `s` is made of decimal digits only.
pub open spec fn all_digits(s: Seq<char>) -> bool {
    forall|i: int| 0 <= i < s.len() ==> digit_value(#[trigger] s[i]) >= 0
}

/// The number that a text of decimal digits writes.
pub open spec fn digits_value(s: Seq<char>) -> nat
    decreases s.len(),
{
    if s.len() == 0 {
        0
    } else {
        (10 * digits_value(s.drop_last()) + digit_value(s.last())) as nat
    }
}

/// `s` without its leading `+`, if it has one.
pub open spec fn after_sign(s: Seq<char>) -> Seq<char> {
    if s.len() > 0 && s[0] == '+' {
        s.subrange(1, s.len() as int)
    } else {
        s
    }
}

/// What a text denotes as an unsigned 32-bit number: decimal digits, at least one,
/// after an optional `+`, with a value that fits. Anything else denotes nothing.
pub open spec fn parse_u32_text(s: Seq<char>) -> Option<u32> {
    let digits = after_sign(s);
    if digits.len() > 0 && all_digits(digits) && digits_value(digits) <= u32::MAX {
        Some(digits_value(digits) as u32)
    } else {
        None
    }
}

proof fn lemma_digits_value_prefix(s: Seq<char>, k: int)
    requires
        0 <= k < s.len(),
    ensures
        s.subrange(0, k + 1).drop_last() == s.subrange(0, k),
        s.subrange(0, k + 1).last() == s[k],
{
    assert(s.subrange(0, k + 1).drop_last() =~= s.subrange(0, k));
}

proof fn lemma_digits_value_monotonic(s: Seq<char>, k: int)
    requires
        0 <= k <= s.len(),
        all_digits(s),
    ensures
        digits_value(s.subrange(0, k)) <= digits_value(s),
    decreases s.len() - k,
{
    if k == s.len() {
        assert(s.subrange(0, k) =~= s);
    } else {
        lemma_digits_value_prefix(s, k);
        assert(digit_value(s[k]) >= 0);
        assert(digits_value(s.subrange(0, k + 1)) >= digits_value(s.subrange(0, k)));
        lemma_digits_value_monotonic(s, k + 1);
    }
}

/// Reads an unsigned 32-bit number from its decimal text.
pub fn parse_u32(text: &str) -> (value: Option<u32>)
    ensures
        value == parse_u32_text(text@),
{
    let n = text.unicode_len();
    let start: usize = if n > 0 && text.get_char(0) == '+' {
        1
    } else {
        0
    };
    if start >= n {
        return None;
    }
    let ghost digits = text@.subrange(start as int, n as int);
    assert(digits =~= after_sign(text@));
    let mut value: u64 = 0;
    let mut i: usize = start;
    assert(digits.subrange(0, 0) =~= Seq::<char>::empty());
    while i < n
        invariant
            n == text@.len(),
            start <= i <= n,
            digits == text@.subrange(start as int, n as int),
            digits == after_sign(text@),
            all_digits(digits.subrange(0, i - start)),
            value == digits_value(digits.subrange(0, i - start)),
            value <= u32::MAX,
        decreases n - i,
    {
        let c = text.get_char(i);
        let code: u32 = c as u32;
        if code < 0x30 || code > 0x39 {
            assert(digits[i - start] == c);
            assert(digit_value(digits[i - start]) < 0);
            return None;
        }
        let next: u64 = value * 10 + (code - 0x30) as u64;
        proof {
            lemma_digits_value_prefix(digits, i - start);
            assert(digits[i - start] == c);
            let longer = digits.subrange(0, i - start + 1);
            assert forall|j: int| 0 <= j < longer.len() implies digit_value(
                #[trigger] longer[j],
            ) >= 0 by {
                if j < i - start {
                    assert(longer[j] == digits.subrange(0, i - start)[j]);
                }
            }
            assert(next == digits_value(longer));
        }
        if next > 0xFFFF_FFFF {
            proof {
                if all_digits(digits) {
                    lemma_digits_value_monotonic(digits, i - start + 1);
                }
            }
            return None;
        }
        value = next;
        i += 1;
    }
    assert(digits.subrange(0, n - start) =~= digits);
    Some(value as u32)
}

} // verus!
