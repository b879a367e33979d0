//! Whole numbers written in decimal digits: reading them and writing them.

use vstd::prelude::*;
use vstd::string::*;
use vstd::utf8::is_ascii_chars;

verus! {

/// Whether `c` is one of the digits `0` to `9`.
pub open spec fn is_digit(c: char) -> bool {
    '0' <= c <= '9'
}

/// The number that the digit `c` stands for.
pub open spec fn digit_value(c: char) -> nat {
    (c as u32 - '0' as u32) as nat
}

/// The digit that stands for `d`, a number below ten.
pub open spec fn digit_of(d: nat) -> char {
    ('0' as u32 + d) as char
}

/// Whether `s` is made of digits only.
pub open spec fn all_digits(s: Seq<char>) -> bool {
    forall|i: int| 0 <= i < s.len() ==> is_digit(#[trigger] s[i])
}

/// The number that the digits `s` write, most significant digit first.
pub open spec fn number(s: Seq<char>) -> nat
    decreases s.len(),
{
    if s.len() == 0 {
        0
    } else {
        10 * number(s.drop_last()) + digit_value(s.last())
    }
}

/// The integer that `s` writes: an optional `+` or `-`, then one digit or
/// more, and nothing else. Any other text writes none.
pub open spec fn integer(s: Seq<char>) -> Option<int> {
    let signed = s.len() > 0 && (s[0] == '-' || s[0] == '+');
    let digits = if signed {
        s.skip(1)
    } else {
        s
    };
    if digits.len() == 0 || !all_digits(digits) {
        None
    } else if signed && s[0] == '-' {
        Some(-(number(digits) as int))
    } else {
        Some(number(digits) as int)
    }
}

/// The `i64` that `s` writes, if it writes an integer and that integer fits.
pub open spec fn integer_i64(s: Seq<char>) -> Option<i64> {
    match integer(s) {
        Some(value) => if i64::MIN <= value <= i64::MAX {
            Some(value as i64)
        } else {
            None
        },
        None => None,
    }
}

/// The digits that write `n`, without leading zeros.
pub open spec fn decimal(n: nat) -> Seq<char>
    decreases n,
{
    if n < 10 {
        seq![digit_of(n)]
    } else {
        decimal(n / 10).push(digit_of(n % 10))
    }
}

/// The digits that write `n` in two places at least, with a leading zero
/// where one digit would do.
pub open spec fn decimal_two_places(n: nat) -> Seq<char> {
    if n < 10 {
        seq!['0'] + decimal(n)
    } else {
        decimal(n)
    }
}

/// Reading one more digit multiplies what was read by ten and adds the digit.
pub proof fn lemma_number_step(s: Seq<char>, i: int)
    requires
        0 <= i < s.len(),
    ensures
        number(s.take(i + 1)) == 10 * number(s.take(i)) + digit_value(s[i]),
{
    assert(s.take(i + 1).drop_last() == s.take(i));
}

/// The number written by the first digits of `s` is at most the number
/// written by all of them.
pub proof fn lemma_number_grows(s: Seq<char>, i: int)
    requires
        0 <= i <= s.len(),
    ensures
        number(s.take(i)) <= number(s),
    decreases s.len() - i,
{
    if i < s.len() {
        lemma_number_step(s, i);
        lemma_number_grows(s, i + 1);
    } else {
        assert(s.take(i) == s);
    }
}

/// Writing a number and reading the digits back gives the number again.
pub proof fn lemma_decimal_reads_back(n: nat)
    ensures
        decimal(n).len() > 0,
        all_digits(decimal(n)),
        number(decimal(n)) == n,
        integer(decimal(n)) == Some(n as int),
    decreases n,
{
    let text = decimal(n);
    assert(is_digit(digit_of(n % 10)) && digit_value(digit_of(n % 10)) == n % 10);
    if n < 10 {
        assert(text.drop_last() == Seq::<char>::empty());
        assert(number(text.drop_last()) == 0);
    } else {
        lemma_decimal_reads_back(n / 10);
        assert(text.drop_last() == decimal(n / 10));
        assert(text.last() == digit_of(n % 10));
        assert forall|i: int| 0 <= i < text.len() implies is_digit(#[trigger] text[i]) by {
            if i < text.len() - 1 {
                assert(text[i] == decimal(n / 10)[i]);
            }
        }
    }
    assert(number(text) == 10 * number(text.drop_last()) + digit_value(text.last()));
    assert(is_digit(text[0]));
}

/// Reads a decimal integer: an optional sign, then digits only. Returns
/// nothing for any other text and for a number that does not fit.
pub fn parse_i64(text: &str) -> (value: Option<i64>)
    ensures
        value == integer_i64(text@),
{
    broadcast use is_ascii_spec_bytes;

    if !text.is_ascii() {
        proof {
            lemma_not_ascii_not_integer(text@);
        }
        return None;
    }
    let bytes = text.as_bytes();
    let len = bytes.len();
    if len == 0 {
        return None;
    }
    let negative = bytes[0] == 45u8;
    let signed = negative || bytes[0] == 43u8;
    let first: usize = if signed {
        1
    } else {
        0
    };
    if first == len {
        return None;
    }
    let ghost digits = text@.skip(first as int);
    assert(text@.skip(0) == text@);
    let limit: u128 = 9_223_372_036_854_775_808;
    let mut magnitude: u128 = 0;
    let mut i: usize = first;
    while i < len
        invariant
            first <= i <= len,
            len == text@.len(),
            bytes@.len() == len,
            is_ascii_chars(text@),
            forall|k: int| 0 <= k < len ==> text@[k] as u8 == #[trigger] bytes@[k],
            signed == (text@[0] == '-' || text@[0] == '+'),
            negative == (text@[0] == '-'),
            first == if signed { 1usize } else { 0usize },
            digits == text@.skip(first as int),
            all_digits(digits.take(i - first)),
            magnitude == number(digits.take(i - first)),
            magnitude <= limit,
            limit == 9_223_372_036_854_775_808,
        decreases len - i,
    {
        let byte = bytes[i];
        let ghost c = text@[i as int];
        assert(digits[i - first] == c);
        if byte < 48u8 || byte > 57u8 {
            assert(!is_digit(c));
            assert(text@.skip(0) == text@);
            return None;
        }
        assert(is_digit(c));
        assert(digit_value(c) == byte - 48);
        proof {
            lemma_number_step(digits, i - first);
            assert(all_digits(digits.take(i - first + 1))) by {
                assert forall|k: int| 0 <= k < i - first + 1 implies is_digit(
                    #[trigger] digits.take(i - first + 1)[k],
                ) by {
                    if k < i - first {
                        assert(digits.take(i - first)[k] == digits[k]);
                    }
                }
            }
        }
        magnitude = magnitude * 10 + (byte - 48u8) as u128;
        if magnitude > limit {
            proof {
                lemma_number_grows(digits, i - first + 1);
                assert(text@.skip(0) == text@);
            }
            return None;
        }
        i += 1;
    }
    assert(digits.take(len - first) == digits);
    assert(text@.skip(0) == text@);
    if negative {
        Some((-(magnitude as i128)) as i64)
    } else if magnitude < limit {
        Some(magnitude as i64)
    } else {
        None
    }
}

/// Text that holds a character outside ASCII writes no integer.
proof fn lemma_not_ascii_not_integer(s: Seq<char>)
    requires
        !is_ascii_chars(s),
    ensures
        integer(s) is None,
{
    let i = choose|i: int| 0 <= i < s.len() && !('\0' <= #[trigger] s[i] <= '\u{7f}');
    assert(!is_digit(s[i]));
    if i > 0 {
        assert(s.skip(1)[i - 1] == s[i]);
    }
}

/// The text of one digit.
fn digit_text(d: u8) -> (text: &'static str)
    requires
        d < 10,
    ensures
        text@ == seq![digit_of(d as nat)],
{
    proof {
        reveal_strlit("0");
        reveal_strlit("1");
        reveal_strlit("2");
        reveal_strlit("3");
        reveal_strlit("4");
        reveal_strlit("5");
        reveal_strlit("6");
        reveal_strlit("7");
        reveal_strlit("8");
        reveal_strlit("9");
    }
    let text = match d {
        0 => "0",
        1 => "1",
        2 => "2",
        3 => "3",
        4 => "4",
        5 => "5",
        6 => "6",
        7 => "7",
        8 => "8",
        _ => "9",
    };
    assert(text@ =~= seq![digit_of(d as nat)]);
    text
}

/// Writes `n` in decimal digits, without leading zeros.
pub fn format_decimal(n: u128) -> (text: String)
    ensures
        text@ == decimal(n as nat),
    decreases n,
{
    if n < 10 {
        String::from_str(digit_text(n as u8))
    } else {
        let mut text = format_decimal(n / 10);
        text.append(digit_text((n % 10) as u8));
        assert(text@ =~= decimal(n as nat));
        text
    }
}

/// Writes `n` in two decimal places at least: `7` as `07`, `123` as `123`.
pub fn format_two_places(n: u128) -> (text: String)
    ensures
        text@ == decimal_two_places(n as nat),
{
    if n < 10 {
        proof {
            reveal_strlit("0");
        }
        let mut text = String::from_str("0");
        text.append(digit_text(n as u8));
        assert(text@ =~= decimal_two_places(n as nat));
        text
    } else {
        format_decimal(n)
    }
}

} // verus!
