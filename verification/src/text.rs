//! Strings as the texts they hold, and numbers in decimal notation: reading a
//! count of seconds, and writing an id.

use vstd::prelude::*;
use vstd::string::*;

verus! {

/// The texts of a list of strings.
pub open spec fn texts(strings: Seq<String>) -> Seq<Seq<char>> {
    strings.map_values(|string: String| string@)
}

/// The text of a string that may be missing.
pub open spec fn text_of(string: Option<String>) -> Option<Seq<char>> {
    match string {
        Some(string) => Some(string@),
        None => None,
    }
}

/// Whether `c` is one of the digits `0` to `9`.
pub open spec fn is_digit(c: char) -> bool {
    '0' <= c && c <= '9'
}

/// The number that the digit `c` stands for.
pub open spec fn digit_value(c: char) -> nat {
    (c as u32 - '0' as u32) as nat
}

/// Whether every character of `s` is a digit.
pub open spec fn all_digits(s: Seq<char>) -> bool {
    forall|i: int| 0 <= i < s.len() ==> is_digit(#[trigger] s[i])
}

/// The number that a sequence of digits denotes in base ten; leading zeros
/// count for nothing.
pub open spec fn decimal_value(digits: Seq<char>) -> nat
    decreases digits.len(),
{
    if digits.len() == 0 {
        0
    } else {
        decimal_value(digits.drop_last()) * 10 + digit_value(digits.last())
    }
}

/// The text without the plus sign that may stand in front of the digits.
pub open spec fn unsigned_part(text: Seq<char>) -> Seq<char> {
    if text.len() > 0 && text[0] == '+' {
        text.skip(1)
    } else {
        text
    }
}

/// The count of whole seconds that `text` denotes: one or more digits, with
/// an optional plus sign before them, whose value fits in 64 bits. Any other
/// text denotes nothing.
pub open spec fn whole_seconds(text: Seq<char>) -> Option<u64> {
    let digits = unsigned_part(text);
    if digits.len() > 0 && all_digits(digits) && decimal_value(digits) <= u64::MAX {
        Some(decimal_value(digits) as u64)
    } else {
        None
    }
}

/// A number does not shrink when more characters follow its digits.
proof fn lemma_decimal_value_grows(digits: Seq<char>, k: int)
    requires
        0 <= k <= digits.len(),
    ensures
        decimal_value(digits.take(k)) <= decimal_value(digits),
    decreases digits.len(),
{
    if k == digits.len() {
        assert(digits.take(k) =~= digits);
    } else {
        lemma_decimal_value_grows(digits.drop_last(), k);
        assert(digits.drop_last().take(k) =~= digits.take(k));
    }
}

/// Reads a count of whole seconds.
pub fn parse_seconds(text: &str) -> (seconds: Option<u64>)
    ensures
        seconds == whole_seconds(text@),
{
    let ghost digits = unsigned_part(text@);
    let ghost sign: int = text@.len() - digits.len();
    let mut first: bool = true;
    let mut valid: bool = true;
    let mut seen: bool = false;
    let mut value: u64 = 0;
    for c in it: text.chars()
        invariant
            it.seq() == text@,
            digits == unsigned_part(text@),
            sign == text@.len() - digits.len(),
            first <==> it.index() == 0,
            first ==> valid && !seen && value == 0,
            !first && valid ==> {
                &&& all_digits(digits.take(it.index() - sign))
                &&& value == decimal_value(digits.take(it.index() - sign))
                &&& seen <==> it.index() - sign > 0
            },
            !first && !valid ==> whole_seconds(text@) is None,
    {
        let ghost at: int = it.index() - sign;
        if first && c == '+' {
            first = false;
            assert(digits.take(0) =~= Seq::<char>::empty());
        } else {
            first = false;
            if valid {
                proof {
                    let shorter = digits.take(at);
                    let longer = digits.take(at + 1);
                    assert(digits[at] == c);
                    assert(longer.drop_last() =~= shorter);
                    assert(longer.last() == c);
                    assert(decimal_value(longer) == decimal_value(shorter) * 10 + digit_value(c));
                    assert forall|i: int| 0 <= i < at implies is_digit(#[trigger] longer[i]) by {
                        assert(longer[i] == shorter[i]);
                    }
                }
                if c >= '0' && c <= '9' {
                    let digit: u64 = (c as u32 - '0' as u32) as u64;
                    let shifted = value.checked_mul(10);
                    let next = match shifted {
                        Some(tens) => tens.checked_add(digit),
                        None => None,
                    };
                    match next {
                        Some(sum) => {
                            value = sum;
                            seen = true;
                        },
                        None => {
                            valid = false;
                            proof {
                                lemma_decimal_value_grows(digits, at + 1);
                                assert(decimal_value(digits) > u64::MAX);
                            }
                        },
                    }
                } else {
                    valid = false;
                    assert(!all_digits(digits));
                }
            }
        }
    }
    proof {
        if !first && valid {
            assert(digits.take(text@.len() - sign) =~= digits);
        }
    }
    if valid && seen {
        Some(value)
    } else {
        None
    }
}

/// The character that writes the digit `d`.
pub open spec fn digit_char(d: nat) -> char {
    if d == 0 {
        '0'
    } else if d == 1 {
        '1'
    } else if d == 2 {
        '2'
    } else if d == 3 {
        '3'
    } else if d == 4 {
        '4'
    } else if d == 5 {
        '5'
    } else if d == 6 {
        '6'
    } else if d == 7 {
        '7'
    } else if d == 8 {
        '8'
    } else {
        '9'
    }
}

/// The number `n` written in base ten, without sign or leading zeros.
pub open spec fn decimal_text(n: nat) -> Seq<char>
    decreases n,
{
    if n < 10 {
        seq![digit_char(n)]
    } else {
        decimal_text(n / 10).push(digit_char(n % 10))
    }
}

fn digit_text(d: u32) -> (text: &'static str)
    requires
        d < 10,
    ensures
        text@ == seq![digit_char(d as nat)],
{
    proof {
        reveal_strlit("0");
        reveal_strlit("1");
        reveal_strlit("2");
        reveal_strlit("3");
        reveal_strlit("4");
        reveal_strlit("5");
        reveal_strlit("6");
        reveal_strlit("7");
        reveal_strlit("8");
        reveal_strlit("9");
    }
    let text = if d == 0 {
        "0"
    } else if d == 1 {
        "1"
    } else if d == 2 {
        "2"
    } else if d == 3 {
        "3"
    } else if d == 4 {
        "4"
    } else if d == 5 {
        "5"
    } else if d == 6 {
        "6"
    } else if d == 7 {
        "7"
    } else if d == 8 {
        "8"
    } else {
        "9"
    };
    assert(text@ =~= seq![digit_char(d as nat)]);
    text
}

/// Writes `n` in base ten.
pub fn decimal_string(n: u32) -> (text: String)
    ensures
        text@ == decimal_text(n as nat),
    decreases n,
{
    if n < 10 {
        String::from_str(digit_text(n))
    } else {
        let mut text = decimal_string(n / 10);
        text.append(digit_text(n % 10));
        assert(text@ =~= decimal_text(n as nat));
        text
    }
}

/// Reading what was written gives the number back: the decimal text of `n`
/// consists of digits only, and its value is `n`.
pub proof fn lemma_decimal_text_value(n: nat)
    ensures
        decimal_text(n).len() > 0,
        all_digits(decimal_text(n)),
        decimal_value(decimal_text(n)) == n,
    decreases n,
{
    if n < 10 {
        let text = decimal_text(n);
        assert(text.drop_last() =~= Seq::<char>::empty());
        assert(decimal_value(text.drop_last()) == 0);
    } else {
        lemma_decimal_text_value(n / 10);
        let text = decimal_text(n);
        assert(text.drop_last() =~= decimal_text(n / 10));
        assert(text.last() == digit_char(n % 10));
    }
}

/// A count of seconds written in base ten is read as that count.
pub proof fn lemma_seconds_round_trip(n: u64)
    ensures
        whole_seconds(decimal_text(n as nat)) == Some(n),
{
    lemma_decimal_text_value(n as nat);
    let text = decimal_text(n as nat);
    assert(is_digit(text[0]));
}

} // verus!
