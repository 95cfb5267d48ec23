//! Unsigned decimal numerals: reading a snowflake from text and writing one.

use vstd::prelude::*;

verus! {

/// Whether `c` is one of the ten ASCII decimal digits.
pub open spec fn is_digit(c: char) -> bool {
    '0' <= c && c <= '9'
}

/// The number a digit character stands for.
pub open spec fn digit_value(c: char) -> int {
    c as int - '0' as int
}

/// Whether every character of `s` is a decimal digit.
pub open spec fn all_digits(s: Seq<char>) -> bool {
    forall|i: int| 0 <= i < s.len() ==> is_digit(#[trigger] s[i])
}

/// The number that a string of digits denotes, most significant digit first.
pub open spec fn digits_value(s: Seq<char>) -> int
    decreases s.len(),
{
    if s.len() == 0 {
        0
    } else {
        10 * digits_value(s.drop_last()) + digit_value(s.last())
    }
}

/// The digits of a numeral: the text itself, less one leading plus sign.
pub open spec fn numeral_digits(s: Seq<char>) -> Seq<char> {
    if s.len() > 0 && s[0] == '+' {
        s.drop_first()
    } else {
        s
    }
}

/// What a text denotes as a 64-bit unsigned decimal numeral.
///
/// A numeral is an optional `+` followed by one or more decimal digits and
/// nothing else; leading zeros are allowed. A text that is not a numeral, or
/// whose value does not fit in 64 bits, denotes nothing.
pub open spec fn parse_u64(s: Seq<char>) -> Option<u64> {
    let d = numeral_digits(s);
    if d.len() > 0 && all_digits(d) && digits_value(d) <= u64::MAX {
        Some(digits_value(d) as u64)
    } else {
        None
    }
}

/// A prefix of a digit string denotes no more than the whole string.
proof fn lemma_prefix_value(s: Seq<char>, k: int)
    requires
        all_digits(s),
        0 <= k <= s.len(),
    ensures
        0 <= digits_value(s.take(k)) <= digits_value(s),
    decreases s.len(),
{
    if k == s.len() {
        assert(s.take(k) =~= s);
        if s.len() > 0 {
            lemma_prefix_value(s.drop_last(), k - 1);
        }
    } else {
        assert(s.drop_last().take(k) =~= s.take(k));
        lemma_prefix_value(s.drop_last(), k);
    }
}

/// Reads a snowflake written as an unsigned decimal numeral.
pub fn parse_snowflake(text: &str) -> (id: Option<u64>)
    ensures
        id == parse_u64(text@),
{
    let mut value: u64 = 0;
    let mut at_start = true;
    let mut seen_digit = false;
    let ghost mut start: int = 0;
    for c in it: text.chars()
        invariant
            it.seq() == text@,
            at_start == (it.index() == 0),
            start == 0 || start == 1,
            start <= it.index() || at_start,
            at_start ==> start == 0 && !seen_digit && value == 0,
            start == 1 ==> text@.len() > 0 && text@[0] == '+',
            start == 0 && !at_start ==> text@[0] != '+',
            seen_digit == (it.index() > start),
            !at_start ==> all_digits(text@.subrange(start, it.index() as int)),
            !at_start ==> value == digits_value(text@.subrange(start, it.index() as int)),
    {
        let ghost k = it.index() as int;
        if at_start && c == '+' {
            proof {
                start = 1;
            }
        } else if c >= '0' && c <= '9' {
            let digit: u64 = (c as u64) - ('0' as u64);
            proof {
                let grown = text@.subrange(start, k + 1);
                assert(grown.drop_last() =~= text@.subrange(start, k));
                assert(digits_value(grown) == 10 * value + digit);
            }
            if value > (u64::MAX - digit) / 10 {
                proof {
                    let d = numeral_digits(text@);
                    assert(d =~= text@.subrange(start, text@.len() as int));
                    if all_digits(d) {
                        assert(d.take(k + 1 - start) =~= text@.subrange(start, k + 1));
                        lemma_prefix_value(d, k + 1 - start);
                    }
                }
                return None;
            }
            value = value * 10 + digit;
            seen_digit = true;
        } else {
            proof {
                let d = numeral_digits(text@);
                assert(d =~= text@.subrange(start, text@.len() as int));
                assert(!is_digit(d[k - start]));
            }
            return None;
        }
        at_start = false;
    }
    proof {
        let d = numeral_digits(text@);
        assert(d =~= text@.subrange(start, text@.len() as int));
    }
    if seen_digit {
        Some(value)
    } else {
        None
    }
}

/// The character that writes the digit `d`.
pub open spec fn digit_char(d: int) -> char {
    ('0' as int + d) as char
}

/// The decimal numeral of `n`: no sign, no leading zeros, `"0"` for zero.
pub open spec fn decimal_digits(n: nat) -> Seq<char>
    decreases n,
{
    if n < 10 {
        seq![digit_char(n as int)]
    } else {
        decimal_digits(n / 10).push(digit_char((n % 10) as int))
    }
}

/// The one-character text of a single digit.
fn digit_text(d: u64) -> (text: &'static str)
    requires
        d < 10,
    ensures
        text@ == seq![digit_char(d as int)],
{
    proof {
        reveal_strlit("0");
        reveal_strlit("1");
        reveal_strlit("2");
        reveal_strlit("3");
        reveal_strlit("4");
        reveal_strlit("5");
        reveal_strlit("6");
        reveal_strlit("7");
        reveal_strlit("8");
        reveal_strlit("9");
    }
    match d {
        0 => "0",
        1 => "1",
        2 => "2",
        3 => "3",
        4 => "4",
        5 => "5",
        6 => "6",
        7 => "7",
        8 => "8",
        _ => "9",
    }
}

/// Appends the decimal numeral of `n` to `out`.
pub fn append_decimal(out: &mut String, n: u64)
    ensures
        final(out)@ == old(out)@ + decimal_digits(n as nat),
    decreases n,
{
    if n >= 10 {
        append_decimal(out, n / 10);
    }
    out.append(digit_text(n % 10));
    proof {
        if n >= 10 {
            assert(old(out)@ + decimal_digits(n as nat / 10).push(digit_char((n % 10) as int))
                =~= (old(out)@ + decimal_digits(n as nat / 10)) + seq![digit_char((n % 10) as int)]);
        }
    }
}

/// Writes a snowflake as a decimal numeral.
pub fn snowflake_text(id: u64) -> (text: String)
    ensures
        text@ == decimal_digits(id as nat),
{
    let mut text = String::new();
    append_decimal(&mut text, id);
    text
}

/// The numeral of a number consists of digits and denotes that number.
proof fn lemma_decimal_digits_value(n: nat)
    ensures
        decimal_digits(n).len() > 0,
        all_digits(decimal_digits(n)),
        digits_value(decimal_digits(n)) == n,
    decreases n,
{
    if n < 10 {
        assert(digits_value(decimal_digits(n).drop_last()) == 0);
    } else {
        lemma_decimal_digits_value(n / 10);
        assert(decimal_digits(n).drop_last() =~= decimal_digits(n / 10));
    }
}

/// Reading back what [`snowflake_text`] wrote gives the same snowflake.
pub proof fn lemma_parse_decimal_digits(id: u64)
    ensures
        parse_u64(decimal_digits(id as nat)) == Some(id),
{
    lemma_decimal_digits_value(id as nat);
}

} // verus!
