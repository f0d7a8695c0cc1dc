//! Text building blocks: decimal rendering of integers and the
//! character-level string operations the rest of the crate relies on.

use vstd::prelude::*;

verus! {

/// The ASCII digit for `d` (`0 <= d < 10`).
pub open spec fn digit_char(d: nat) -> char {
    ((48 + d) as u32) as char
}

/// Decimal digits of a natural number, most significant first, without
/// leading zeros (zero itself is `"0"`).
pub open spec fn decimal_digits(n: nat) -> Seq<char>
    decreases n,
{
    if n < 10 {
        seq![digit_char(n)]
    } else {
        decimal_digits(n / 10).push(digit_char(n % 10))
    }
}

/// The decimal rendering of an integer, as `format!("{}", v)` prints it.
pub open spec fn decimal_text(v: int) -> Seq<char> {
    if v < 0 {
        seq!['-'] + decimal_digits((-v) as nat)
    } else {
        decimal_digits(v as nat)
    }
}

/// Appends one character to a string (`String::push`).
#[verifier::external_body]
pub(crate) fn push_char(s: &mut String, c: char)
    ensures
        final(s)@ == old(s)@.push(c),
{
    s.push(c);
}

fn push_decimal_digits(s: &mut String, n: u64)
    ensures
        final(s)@ == old(s)@ + decimal_digits(n as nat),
    decreases n,
{
    if n >= 10 {
        push_decimal_digits(s, n / 10);
    }
    let d: u64 = n % 10;
    let c: char = ((48u8 + (d as u8)) as char);
    proof {
        assert(c == digit_char(d as nat));
    }
    push_char(s, c);
}

/// Renders `v` in decimal, as `format!("{}", v)` does.
pub fn decimal_string(v: i64) -> (r: String)
    ensures
        r@ == decimal_text(v as int),
{
    let mut s = String::new();
    if v < 0 {
        push_char(&mut s, '-');
        let m: u64 = (-(v as i128)) as u64;
        push_decimal_digits(&mut s, m);
    } else {
        push_decimal_digits(&mut s, v as u64);
    }
    s
}


/// `c` is one of the ASCII digits `0`..`9`.
pub open spec fn is_digit_char(c: char) -> bool {
    48 <= (c as u32) <= 57
}

/// The number that a string of ASCII digits denotes in base ten.
pub open spec fn digits_value(d: Seq<char>) -> int
    decreases d.len(),
{
    if d.len() == 0 {
        0
    } else {
        digits_value(d.drop_last()) * 10 + ((d.last() as u32) - 48)
    }
}

/// What `str::parse::<i32>` accepts and returns: an optional `+` or `-`
/// sign followed by at least one ASCII digit and nothing else, whose value
/// lies in the range of `i32`.
pub open spec fn decimal_i32(s: Seq<char>) -> Option<i32> {
    let negative = s.len() > 0 && s[0] == '-';
    let signed = s.len() > 0 && (s[0] == '-' || s[0] == '+');
    let digits = if signed { s.drop_first() } else { s };
    if digits.len() == 0 || !(forall|i: int| 0 <= i < digits.len() ==> is_digit_char(#[trigger] digits[i])) {
        None
    } else {
        let v = if negative { -digits_value(digits) } else { digits_value(digits) };
        if i32::MIN <= v <= i32::MAX {
            Some(v as i32)
        } else {
            None
        }
    }
}

/// `str::parse::<i32>`. Its documentation: the text is an optional `+` or
/// `-` sign followed by digits only; empty text, any other character and a
/// value out of range are errors. The contract states exactly that.
#[verifier::external_body]
pub(crate) fn parse_i32(s: &str) -> (r: Option<i32>)
    ensures
        r == decimal_i32(s@),
{
    s.parse::<i32>().ok()
}

/// String-slice equality (`<str as PartialEq>::eq`): equal exactly when the
/// two slices hold the same characters.
#[verifier::external_body]
pub(crate) fn str_eq(a: &str, b: &str) -> (r: bool)
    ensures
        r == (a@ == b@),
{
    a == b
}


/// The decimal digits of `n` are ASCII digits and denote `n`.
pub proof fn lemma_decimal_digits(n: nat)
    ensures
        decimal_digits(n).len() >= 1,
        forall|i: int| 0 <= i < decimal_digits(n).len() ==> is_digit_char(#[trigger] decimal_digits(n)[i]),
        digits_value(decimal_digits(n)) == n,
    decreases n,
{
    let d = decimal_digits(n);
    if n < 10 {
        assert(d.drop_last() =~= Seq::<char>::empty());
        assert((digit_char(n) as u32) == 48 + n);
        assert(d.last() == digit_char(n));
        assert(digits_value(d) == digits_value(d.drop_last()) * 10 + n);
    } else {
        lemma_decimal_digits(n / 10);
        assert(d.drop_last() =~= decimal_digits(n / 10));
        assert((digit_char(n % 10) as u32) == 48 + n % 10);
        assert(d.last() == digit_char(n % 10));
        assert(digits_value(d) == digits_value(decimal_digits(n / 10)) * 10 + n % 10);
        assert((n / 10) * 10 + n % 10 == n);
    }
}

/// Reading back the decimal rendering of an `i32` gives the same `i32`.
pub proof fn law_decimal_round_trip(v: i32)
    ensures
        decimal_i32(decimal_text(v as int)) == Some(v),
{
    let t = decimal_text(v as int);
    if v < 0 {
        let m = (-v) as nat;
        lemma_decimal_digits(m);
        assert(t.drop_first() =~= decimal_digits(m));
    } else {
        lemma_decimal_digits(v as nat);
        assert(is_digit_char(t[0]));
    }
}

} // verus!
