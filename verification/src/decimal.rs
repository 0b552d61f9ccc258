//! Unsigned decimal numbers in text: reading a `usize` out of a string and writing one
//! back.
//!
//! The accepted notation is an optional `+` followed by one or more ASCII digits. Leading
//! zeros are allowed, and nothing else is: no sign alone, no blanks, no separators.

use vstd::prelude::*;
use vstd::std_specs::iter::IteratorSpec;
use vstd::string::StringExecFns;

verus! {

broadcast use vstd::string::group_string_axioms;

/// Why a text is not an unsigned decimal number that fits a `usize`.
#[derive(Clone, Copy, Debug, PartialEq, Eq, Structural)]
pub enum ParseIntError {
    /// The text is empty.
    Empty,
    /// The text holds something else than digits after the optional `+`, or no digit at
    /// all.
    InvalidDigit,
    /// The digits spell a number above `usize::MAX`.
    PosOverflow,
}

pub open spec fn is_digit(c: char) -> bool {
    '0' <= c <= '9'
}

/// The number that a digit stands for.
pub open spec fn digit_value(c: char) -> nat {
    (c as u32 - '0' as u32) as nat
}

/// The digit that stands for a number below ten.
pub open spec fn digit_char(d: nat) -> char {
    if d == 0 {
        '0'
    } else if d == 1 {
        '1'
    } else if d == 2 {
        '2'
    } else if d == 3 {
        '3'
    } else if d == 4 {
        '4'
    } else if d == 5 {
        '5'
    } else if d == 6 {
        '6'
    } else if d == 7 {
        '7'
    } else if d == 8 {
        '8'
    } else {
        '9'
    }
}

pub open spec fn all_digits(s: Seq<char>) -> bool {
    forall|i: int| 0 <= i < s.len() ==> is_digit(#[trigger] s[i])
}

/// The number that a sequence of digits spells, most significant digit first. The empty
/// sequence spells zero.
pub open spec fn decimal_value(s: Seq<char>) -> nat
    decreases s.len(),
{
    if s.len() == 0 {
        0
    } else {
        10 * decimal_value(s.drop_last()) + digit_value(s.last())
    }
}

/// How many digits stand at the front of `s` before anything else.
pub open spec fn leading_digits(s: Seq<char>) -> nat
    decreases s.len(),
{
    if s.len() == 0 || !is_digit(s[0]) {
        0
    } else {
        1 + leading_digits(s.drop_first())
    }
}

/// What is left of `s` once an optional leading `+` is taken off.
pub open spec fn unsigned_part(s: Seq<char>) -> Seq<char> {
    if s.len() > 0 && s[0] == '+' {
        s.drop_first()
    } else {
        s
    }
}

/// The `usize` that a text spells, or the reason why it spells none.
///
/// The text is read from the left. Where the digits read so far already exceed
/// `usize::MAX`, the outcome is `PosOverflow`, whatever follows; where they do not and
/// something else than a digit comes next, it is `InvalidDigit`.
pub open spec fn parse_usize_spec(s: Seq<char>) -> Result<usize, ParseIntError> {
    let body = unsigned_part(s);
    let run = body.take(leading_digits(body) as int);
    if s.len() == 0 {
        Err(ParseIntError::Empty)
    } else if body.len() == 0 {
        Err(ParseIntError::InvalidDigit)
    } else if decimal_value(run) > usize::MAX {
        Err(ParseIntError::PosOverflow)
    } else if run.len() < body.len() {
        Err(ParseIntError::InvalidDigit)
    } else {
        Ok(decimal_value(run) as usize)
    }
}

/// The decimal notation of a number, without sign or leading zeros.
pub open spec fn decimal_text(n: nat) -> Seq<char>
    decreases n,
{
    if n < 10 {
        seq![digit_char(n)]
    } else {
        decimal_text(n / 10).push(digit_char(n % 10))
    }
}

/// A run of digits is its own leading run.
pub proof fn lemma_leading_digits_all(s: Seq<char>)
    requires
        all_digits(s),
    ensures
        leading_digits(s) == s.len(),
    decreases s.len(),
{
    if s.len() > 0 {
        lemma_leading_digits_all(s.drop_first());
    }
}

/// The leading run is made of digits, is as long as it can be, and stays the same when
/// more text follows a character that is no digit.
pub proof fn lemma_leading_digits(s: Seq<char>)
    ensures
        leading_digits(s) <= s.len(),
        all_digits(s.take(leading_digits(s) as int)),
        leading_digits(s) < s.len() ==> !is_digit(s[leading_digits(s) as int]),
    decreases s.len(),
{
    if s.len() == 0 || !is_digit(s[0]) {
    } else {
        let rest = s.drop_first();
        lemma_leading_digits(rest);
        let k = leading_digits(rest) as int;
        assert forall|i: int| 0 <= i < k + 1 implies is_digit(#[trigger] s.take(k + 1)[i]) by {
            if i > 0 {
                assert(s.take(k + 1)[i] == rest.take(k)[i - 1]);
            }
        }
        if k < rest.len() {
            assert(s[k + 1] == rest[k]);
        }
    }
}

/// The leading run of `s` has length `k` where the first `k` characters are digits and
/// the text ends there or goes on with something else.
pub proof fn lemma_leading_digits_is(s: Seq<char>, k: int)
    requires
        0 <= k <= s.len(),
        all_digits(s.take(k)),
        k < s.len() ==> !is_digit(s[k]),
    ensures
        leading_digits(s) == k,
    decreases s.len(),
{
    if k == 0 {
    } else {
        assert(s.take(k)[0] == s[0]);
        let rest = s.drop_first();
        assert forall|i: int| 0 <= i < k - 1 implies is_digit(#[trigger] rest.take(k - 1)[i]) by {
            assert(rest.take(k - 1)[i] == s.take(k)[i + 1]);
        }
        if k - 1 < rest.len() {
            assert(rest[k - 1] == s[k]);
        }
        lemma_leading_digits_is(rest, k - 1);
    }
}

/// Longer runs of digits spell larger numbers.
pub proof fn lemma_decimal_value_grows(s: Seq<char>, k: int)
    requires
        0 <= k <= s.len(),
    ensures
        decimal_value(s.take(k)) <= decimal_value(s),
    decreases s.len() - k,
{
    if k < s.len() {
        lemma_decimal_value_grows(s.drop_last(), k);
        assert(s.drop_last().take(k) == s.take(k));
    } else {
        assert(s.take(k) == s);
    }
}

/// The digits of a number spell that number, and they are digits.
pub proof fn lemma_decimal_text(n: nat)
    ensures
        decimal_text(n).len() > 0,
        all_digits(decimal_text(n)),
        decimal_value(decimal_text(n)) == n,
    decreases n,
{
    if n < 10 {
        let s = decimal_text(n);
        assert(s.drop_last() == Seq::<char>::empty());
        assert(decimal_value(s.drop_last()) == 0);
    } else {
        lemma_decimal_text(n / 10);
        let s = decimal_text(n);
        assert(s.drop_last() == decimal_text(n / 10));
        assert(s.last() == digit_char(n % 10));
    }
}

/// Reading back what was written gives the number again: `parse_usize` undoes
/// `format_usize`.
pub proof fn lemma_parse_format_round_trip(n: usize)
    ensures
        parse_usize_spec(decimal_text(n as nat)) == Ok::<usize, ParseIntError>(n),
{
    let s = decimal_text(n as nat);
    lemma_decimal_text(n as nat);
    assert(is_digit(s[0]));
    assert(unsigned_part(s) == s);
    lemma_leading_digits_all(s);
    assert(s.take(s.len() as int) == s);
}

/// Reads an unsigned decimal number.
pub fn parse_usize(s: &str) -> (r: Result<usize, ParseIntError>)
    ensures
        r == parse_usize_spec(s@),
{
    let mut it = s.chars();
    let ghost mut seen: int = 0;
    let mut value: usize = 0;
    let mut signed: bool = false;
    let mut any: bool = false;
    let ghost body = unsigned_part(s@);
    loop
        invariant
            it.obeys_prophetic_iter_laws(),
            0 <= seen <= s@.len(),
            it.remaining() == s@.subrange(seen, s@.len() as int),
            body == unsigned_part(s@),
            signed <==> seen > 0 && s@[0] == '+',
            any <==> seen > (if signed { 1int } else { 0int }),
            seen - (if signed { 1int } else { 0int }) >= 0,
            all_digits(body.take(seen - (if signed { 1int } else { 0int }))),
            value == decimal_value(body.take(seen - (if signed { 1int } else { 0int }))),
            seen == 0 ==> !signed && !any,
        decreases s@.len() - seen,
    {
        let ghost off: int = if signed { 1 } else { 0 };
        let ghost done = body.take(seen - off);
        match it.next() {
            Some(c) => {
                assert(c == s@[seen]);
                if !signed && !any && c == '+' {
                    signed = true;
                    proof {
                        seen = seen + 1;
                        assert(body.take(0) == Seq::<char>::empty());
                    }
                } else {
                    proof {
                        assert(body[seen - off] == c);
                        assert(body.take(seen - off + 1).drop_last() == done);
                        assert(body.take(seen - off + 1).last() == c);
                    }
                    if !('0' <= c && c <= '9') {
                        proof {
                            lemma_leading_digits_is(body, seen - off);
                        }
                        return Err(ParseIntError::InvalidDigit);
                    }
                    let d: usize = (c as u32 - '0' as u32) as usize;
                    let next = match value.checked_mul(10) {
                        Some(tens) => tens.checked_add(d),
                        None => None,
                    };
                    proof {
                        let longer = body.take(seen - off + 1);
                        assert(decimal_value(longer) == 10 * value + d);
                        if next is None {
                            lemma_leading_digits(body);
                            let k = leading_digits(body) as int;
                            if k < seen - off + 1 {
                                assert(longer[k] == body[k]);
                                assert(is_digit(longer[k]));
                            }
                            assert(body.take(k).take(seen - off + 1) == longer);
                            lemma_decimal_value_grows(body.take(k), seen - off + 1);
                        }
                    }
                    match next {
                        Some(v) => {
                            value = v;
                        },
                        None => {
                            return Err(ParseIntError::PosOverflow);
                        },
                    }
                    any = true;
                    proof {
                        seen = seen + 1;
                    }
                }
            },
            None => {
                proof {
                    assert(seen == s@.len());
                    assert(body.take(seen - off) == body);
                    lemma_leading_digits_all(body);
                }
                if !any {
                    if signed {
                        return Err(ParseIntError::InvalidDigit);
                    }
                    return Err(ParseIntError::Empty);
                }
                return Ok(value);
            },
        }
    }
}

/// The one-character text of a digit.
fn digit_text(d: usize) -> (t: &'static str)
    requires
        d < 10,
    ensures
        t@ == seq![digit_char(d as nat)],
{
    proof {
        reveal_strlit("0");
        reveal_strlit("1");
        reveal_strlit("2");
        reveal_strlit("3");
        reveal_strlit("4");
        reveal_strlit("5");
        reveal_strlit("6");
        reveal_strlit("7");
        reveal_strlit("8");
        reveal_strlit("9");
    }
    let t = if d == 0 {
        "0"
    } else if d == 1 {
        "1"
    } else if d == 2 {
        "2"
    } else if d == 3 {
        "3"
    } else if d == 4 {
        "4"
    } else if d == 5 {
        "5"
    } else if d == 6 {
        "6"
    } else if d == 7 {
        "7"
    } else if d == 8 {
        "8"
    } else {
        "9"
    };
    assert(t@ =~= seq![digit_char(d as nat)]);
    t
}

/// Writes a number in decimal notation.
pub fn format_usize(n: usize) -> (text: String)
    ensures
        text@ == decimal_text(n as nat),
    decreases n,
{
    if n < 10 {
        String::from_str(digit_text(n))
    } else {
        let mut text = format_usize(n / 10);
        text.append(digit_text(n % 10));
        assert(text@ =~= decimal_text(n as nat));
        text
    }
}

} // verus!
