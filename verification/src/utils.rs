//! Character classes, string comparison and decimal notation.

use vstd::prelude::*;

verus! {

/// Letters are the ASCII letters and the underscore.
pub open spec fn spec_is_letter(c: char) -> bool {
    ('a' <= c && c <= 'z') || ('A' <= c && c <= 'Z') || c == '_'
}

/// Digits are the ASCII decimal digits.
pub open spec fn spec_is_digit(c: char) -> bool {
    '0' <= c && c <= '9'
}

/// Blank characters skipped between tokens: space, newline and tab.
pub open spec fn spec_is_blank(c: char) -> bool {
    c == ' ' || c == '\n' || c == '\t'
}

pub fn is_letter(c: char) -> (r: bool)
    ensures
        r == spec_is_letter(c),
{
    (c >= 'a' && c <= 'z') || (c >= 'A' && c <= 'Z') || c == '_'
}

pub fn is_digit(c: char) -> (r: bool)
    ensures
        r == spec_is_digit(c),
{
    c >= '0' && c <= '9'
}

pub fn is_blank(c: char) -> (r: bool)
    ensures
        r == spec_is_blank(c),
{
    c == ' ' || c == '\n' || c == '\t'
}

/// Compares two string slices character by character.
pub fn str_eq(a: &str, b: &str) -> (r: bool)
    ensures
        r == (a@ == b@),
{
    let n: usize = a.unicode_len();
    if n != b.unicode_len() {
        return false;
    }
    let mut i: usize = 0;
    while i < n
        invariant
            n == a@.len(),
            n == b@.len(),
            i <= n,
            forall|j: int| 0 <= j < i ==> a@[j] == b@[j],
        decreases n - i,
    {
        if a.get_char(i) != b.get_char(i) {
            return false;
        }
        i += 1;
    }
    assert(a@ =~= b@);
    true
}

/// The number that a decimal digit stands for.
pub open spec fn spec_digit_value(c: char) -> nat {
    (c as nat - '0' as nat) as nat
}

/// The number that a run of decimal digits spells, read from the left.
pub open spec fn spec_decimal_value(digits: Seq<char>) -> nat
    decreases digits.len(),
{
    if digits.len() == 0 {
        0
    } else {
        10 * spec_decimal_value(digits.drop_last()) + spec_digit_value(digits.last())
    }
}

/// Whether every character is a decimal digit.
pub open spec fn spec_all_digits(s: Seq<char>) -> bool {
    forall|i: int| 0 <= i < s.len() ==> spec_is_digit(#[trigger] s[i])
}

/// The integer that `s` spells: `s` is a non-empty run of decimal digits
/// whose value fits in 64 bits with a sign; otherwise nothing.
#[verifier::opaque]
pub open spec fn spec_parse_integer(s: Seq<char>) -> Option<i64> {
    if s.len() > 0 && spec_all_digits(s) && spec_decimal_value(s) <= i64::MAX {
        Some(spec_decimal_value(s) as i64)
    } else {
        None
    }
}

/// More digits never spell a smaller number.
pub proof fn lemma_decimal_value_grows(digits: Seq<char>, i: int)
    requires
        0 <= i <= digits.len(),
    ensures
        spec_decimal_value(digits.take(i)) <= spec_decimal_value(digits),
    decreases digits.len() - i,
{
    if i < digits.len() {
        lemma_decimal_value_grows(digits, i + 1);
        assert(digits.take(i + 1).drop_last() =~= digits.take(i));
    } else {
        assert(digits.take(i) =~= digits);
    }
}

/// Reads a non-negative decimal integer.
pub fn parse_integer(s: &str) -> (r: Option<i64>)
    ensures
        r == spec_parse_integer(s@),
{
    proof {
        reveal(spec_parse_integer);
    }
    let n: usize = s.unicode_len();
    if n == 0 {
        return None;
    }
    let mut value: i64 = 0;
    let mut i: usize = 0;
    while i < n
        invariant
            n == s@.len(),
            i <= n,
            forall|j: int| 0 <= j < i ==> spec_is_digit(#[trigger] s@[j]),
            value == spec_decimal_value(s@.take(i as int)),
            0 <= value,
        decreases n - i,
    {
        proof {
            reveal(spec_parse_integer);
        }
        let c: char = s.get_char(i);
        if !is_digit(c) {
            return None;
        }
        let digit: i64 = (c as u32 - '0' as u32) as i64;
        proof {
            assert(s@.take(i + 1).drop_last() =~= s@.take(i as int));
            assert(s@.take(i + 1).last() == c);
            assert(digit == spec_digit_value(c));
            lemma_decimal_value_grows(s@, i + 1);
        }
        if value > (i64::MAX - digit) / 10 {
            return None;
        }
        value = value * 10 + digit;
        i += 1;
    }
    proof {
        assert(s@.take(n as int) =~= s@);
    }
    Some(value)
}

/// The character of a decimal digit.
pub open spec fn spec_digit_char(digit: nat) -> char {
    if digit == 0 {
        '0'
    } else if digit == 1 {
        '1'
    } else if digit == 2 {
        '2'
    } else if digit == 3 {
        '3'
    } else if digit == 4 {
        '4'
    } else if digit == 5 {
        '5'
    } else if digit == 6 {
        '6'
    } else if digit == 7 {
        '7'
    } else if digit == 8 {
        '8'
    } else {
        '9'
    }
}

/// A natural number in decimal notation, without leading zeros.
pub open spec fn spec_decimal_string(n: nat) -> Seq<char>
    decreases n,
{
    if n < 10 {
        seq![spec_digit_char(n)]
    } else {
        spec_decimal_string(n / 10).push(spec_digit_char(n % 10))
    }
}

/// An integer in decimal notation, with a minus sign if it is negative.
pub open spec fn spec_integer_string(i: int) -> Seq<char> {
    if i < 0 {
        seq!['-'] + spec_decimal_string((-i) as nat)
    } else {
        spec_decimal_string(i as nat)
    }
}

fn digit_str(digit: u64) -> (s: &'static str)
    requires
        digit < 10,
    ensures
        s@ == seq![spec_digit_char(digit as nat)],
{
    proof {
        reveal_strlit("0");
        reveal_strlit("1");
        reveal_strlit("2");
        reveal_strlit("3");
        reveal_strlit("4");
        reveal_strlit("5");
        reveal_strlit("6");
        reveal_strlit("7");
        reveal_strlit("8");
        reveal_strlit("9");
    }
    let s: &'static str = if digit == 0 {
        "0"
    } else if digit == 1 {
        "1"
    } else if digit == 2 {
        "2"
    } else if digit == 3 {
        "3"
    } else if digit == 4 {
        "4"
    } else if digit == 5 {
        "5"
    } else if digit == 6 {
        "6"
    } else if digit == 7 {
        "7"
    } else if digit == 8 {
        "8"
    } else {
        "9"
    };
    assert(s@ =~= seq![spec_digit_char(digit as nat)]);
    s
}

/// Writes a natural number in decimal notation.
pub fn decimal_string(n: u64) -> (s: String)
    ensures
        s@ == spec_decimal_string(n as nat),
    decreases n,
{
    if n < 10 {
        String::from_str(digit_str(n))
    } else {
        let mut s: String = decimal_string(n / 10);
        s.append(digit_str(n % 10));
        assert(s@ =~= spec_decimal_string(n as nat));
        s
    }
}

/// Writes an integer in decimal notation.
pub fn integer_string(i: i64) -> (s: String)
    ensures
        s@ == spec_integer_string(i as int),
{
    if i < 0 {
        let magnitude: u64 = (-(i as i128)) as u64;
        let digits: String = decimal_string(magnitude);
        proof {
            reveal_strlit("-");
            assert("-"@ =~= seq!['-']);
        }
        let mut s: String = String::from_str("-");
        s.append(digits.as_str());
        s
    } else {
        decimal_string(i as u64)
    }
}

/// What is written in decimal notation reads back as the same number.
pub proof fn lemma_decimal_round_trip(n: nat)
    ensures
        spec_decimal_string(n).len() > 0,
        spec_all_digits(spec_decimal_string(n)),
        spec_decimal_value(spec_decimal_string(n)) == n,
        n <= i64::MAX ==> spec_parse_integer(spec_decimal_string(n)) == Some(n as i64),
    decreases n,
{
    reveal(spec_parse_integer);
    if n >= 10 {
        lemma_decimal_round_trip(n / 10);
        let shorter = spec_decimal_string(n / 10);
        let digits = spec_decimal_string(n);
        assert(digits.drop_last() =~= shorter);
        assert(spec_digit_value(spec_digit_char(n % 10)) == n % 10);
    } else {
        let digits = spec_decimal_string(n);
        assert(digits.drop_last() =~= Seq::<char>::empty());
        assert(spec_digit_value(spec_digit_char(n)) == n);
        assert(spec_decimal_value(digits.drop_last()) == 0);
    }
}

} // verus!
