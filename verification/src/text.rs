//! Text forms of trits and of conversion errors.

use crate::ternary::{Ternary, TernaryError};
use vstd::prelude::*;

verus! {

/// The character of the decimal digit `d` (for `d < 10`).
pub open spec fn digit_char(d: nat) -> char {
    ('0' as int + d) as char
}

/// The decimal digits of `n`, most significant first, without leading zeros.
pub open spec fn decimal_digits(n: nat) -> Seq<char>
    decreases n,
{
    if n < 10 {
        seq![digit_char(n)]
    } else {
        decimal_digits(n / 10).push(digit_char(n % 10))
    }
}

/// The decimal form of the integer `v`, with a leading `-` when it is negative.
pub open spec fn decimal(v: int) -> Seq<char> {
    if v < 0 {
        seq!['-'] + decimal_digits((-v) as nat)
    } else {
        decimal_digits(v as nat)
    }
}

/// The text form of a trit: `"-1"`, `"0"` or `"+1"`.
pub open spec fn trit_text(t: Ternary) -> Seq<char> {
    match t {
        Ternary::Negative => seq!['-', '1'],
        Ternary::Neutral => seq!['0'],
        Ternary::Positive => seq!['+', '1'],
    }
}

/// The message of a conversion error.
pub open spec fn error_text(e: TernaryError) -> Seq<char> {
    match e {
        TernaryError::Overflow(v) => "ternary overflow: "@ + decimal(v as int)
            + " cannot be narrowed to -1/0/1"@,
        TernaryError::InvalidConversion(v) => "invalid ternary conversion: "@ + decimal(v as int)
            + " is not -1, 0, or 1"@,
    }
}

/// The number that a string of decimal digits denotes.
pub open spec fn digits_value(s: Seq<char>) -> int
    decreases s.len(),
{
    if s.len() == 0 {
        0
    } else {
        digits_value(s.drop_last()) * 10 + (s.last() as int - '0' as int)
    }
}

/// The decimal digits of `n` are digits, start with a nonzero digit unless `n` is
/// zero, and denote `n`.
pub proof fn law_decimal_digits_denote(n: nat)
    ensures
        decimal_digits(n).len() >= 1,
        forall|i: int|
            0 <= i < decimal_digits(n).len() ==> '0' <= #[trigger] decimal_digits(n)[i] <= '9',
        n > 0 ==> decimal_digits(n)[0] != '0',
        digits_value(decimal_digits(n)) == n,
    decreases n,
{
    assert(digit_char((n % 10) as nat) as int == '0' as int + n % 10);
    if n >= 10 {
        law_decimal_digits_denote(n / 10);
        let s = decimal_digits(n / 10);
        assert(decimal_digits(n).drop_last() =~= s);
        assert(decimal_digits(n).last() == digit_char((n % 10) as nat));
        assert(digits_value(decimal_digits(n)) == digits_value(s) * 10 + n % 10);
    } else {
        assert(decimal_digits(n).drop_last() =~= Seq::<char>::empty());
        assert(decimal_digits(n).last() == digit_char(n));
        assert(digits_value(decimal_digits(n)) == digits_value(Seq::<char>::empty()) * 10 + n % 10);
    }
}

/// A trit reads as its value in decimal, with a `+` in front of a positive one.
pub proof fn law_trit_text_is_signed_value(t: Ternary)
    ensures
        trit_text(t) == if t.value() > 0 {
            seq!['+'] + decimal(t.value())
        } else {
            decimal(t.value())
        },
{
    reveal_with_fuel(decimal_digits, 2);
    assert(trit_text(t) =~= if t.value() > 0 {
        seq!['+'] + decimal(t.value())
    } else {
        decimal(t.value())
    });
}

/// The one-character string of the digit `d`.
fn digit_str(d: u64) -> (r: &'static str)
    requires
        d < 10,
    ensures
        r@ == seq![digit_char(d as nat)],
{
    proof {
        reveal_strlit("0");
        reveal_strlit("1");
        reveal_strlit("2");
        reveal_strlit("3");
        reveal_strlit("4");
        reveal_strlit("5");
        reveal_strlit("6");
        reveal_strlit("7");
        reveal_strlit("8");
        reveal_strlit("9");
    }
    match d {
        0 => "0",
        1 => "1",
        2 => "2",
        3 => "3",
        4 => "4",
        5 => "5",
        6 => "6",
        7 => "7",
        8 => "8",
        _ => "9",
    }
}

/// Append the decimal digits of `n` to `s`.
fn append_digits(s: &mut String, n: u64)
    ensures
        final(s)@ == old(s)@ + decimal_digits(n as nat),
    decreases n,
{
    if n >= 10 {
        append_digits(s, n / 10);
    }
    s.append(digit_str(n % 10));
    proof {
        assert(old(s)@ + decimal_digits(n as nat) =~= s@);
    }
}

/// Append the decimal form of `v` to `s`.
fn append_decimal(s: &mut String, v: i64)
    ensures
        final(s)@ == old(s)@ + decimal(v as int),
{
    if v < 0 {
        proof {
            reveal_strlit("-");
        }
        s.append("-");
        let magnitude: u64 = (0i128 - v as i128) as u64;
        append_digits(s, magnitude);
        proof {
            assert(old(s)@ + decimal(v as int) =~= s@);
        }
    } else {
        append_digits(s, v as u64);
    }
}

impl Ternary {
    /// The text form of this trit: `"-1"`, `"0"` or `"+1"`.
    pub fn to_string(&self) -> (r: String)
        ensures
            r@ == trit_text(*self),
    {
        proof {
            reveal_strlit("-1");
            reveal_strlit("0");
            reveal_strlit("+1");
        }
        match self {
            Ternary::Negative => String::from_str("-1"),
            Ternary::Neutral => String::from_str("0"),
            Ternary::Positive => String::from_str("+1"),
        }
    }
}

impl TernaryError {
    /// The message of this error, such as
    /// `"invalid ternary conversion: 42 is not -1, 0, or 1"`.
    pub fn to_string(&self) -> (r: String)
        ensures
            r@ == error_text(*self),
    {
        let mut s = String::new();
        match self {
            TernaryError::Overflow(v) => {
                s.append("ternary overflow: ");
                append_decimal(&mut s, *v);
                s.append(" cannot be narrowed to -1/0/1");
            },
            TernaryError::InvalidConversion(v) => {
                s.append("invalid ternary conversion: ");
                append_decimal(&mut s, *v as i64);
                s.append(" is not -1, 0, or 1");
            },
        }
        proof {
            assert(s@ =~= error_text(*self));
        }
        s
    }
}

} // verus!
