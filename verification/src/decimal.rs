//! Decimal notation of natural numbers, as used for `Content-Length`.

use vstd::prelude::*;
use vstd::string::*;

verus! {

/// The character of one decimal digit.
pub open spec fn digit_char(d: nat) -> char
    recommends
        d < 10,
{
    if d == 0 {
        '0'
    } else if d == 1 {
        '1'
    } else if d == 2 {
        '2'
    } else if d == 3 {
        '3'
    } else if d == 4 {
        '4'
    } else if d == 5 {
        '5'
    } else if d == 6 {
        '6'
    } else if d == 7 {
        '7'
    } else if d == 8 {
        '8'
    } else {
        '9'
    }
}

/// The decimal notation of `n`: most significant digit first, no leading
/// zero, and `"0"` for zero.
pub open spec fn decimal_chars(n: nat) -> Seq<char>
    decreases n,
{
    if n < 10 {
        seq![digit_char(n)]
    } else {
        decimal_chars(n / 10) + seq![digit_char(n % 10)]
    }
}

/// The number that a sequence of decimal digits denotes.
pub open spec fn decimal_value(digits: Seq<char>) -> nat
    decreases digits.len(),
{
    if digits.len() == 0 {
        0
    } else {
        10 * decimal_value(digits.drop_last()) + (digits.last() as nat - '0' as nat) as nat
    }
}

/// One digit as a one-character text.
fn digit_str(d: usize) -> (s: &'static str)
    requires
        d < 10,
    ensures
        s@ == seq![digit_char(d as nat)],
{
    proof {
        reveal_strlit("0");
        reveal_strlit("1");
        reveal_strlit("2");
        reveal_strlit("3");
        reveal_strlit("4");
        reveal_strlit("5");
        reveal_strlit("6");
        reveal_strlit("7");
        reveal_strlit("8");
        reveal_strlit("9");
    }
    let s: &'static str = if d == 0 {
        "0"
    } else if d == 1 {
        "1"
    } else if d == 2 {
        "2"
    } else if d == 3 {
        "3"
    } else if d == 4 {
        "4"
    } else if d == 5 {
        "5"
    } else if d == 6 {
        "6"
    } else if d == 7 {
        "7"
    } else if d == 8 {
        "8"
    } else {
        "9"
    };
    assert(s@ =~= seq![digit_char(d as nat)]);
    s
}

/// Writes `n` in decimal.
pub fn decimal_string(n: usize) -> (s: String)
    ensures
        s@ == decimal_chars(n as nat),
    decreases n,
{
    if n < 10 {
        String::from_str(digit_str(n))
    } else {
        let mut s = decimal_string(n / 10);
        s.append(digit_str(n % 10));
        s
    }
}

/// A decimal notation is never empty and holds ASCII digits only.
pub proof fn lemma_decimal_chars_are_digits(n: nat)
    ensures
        decimal_chars(n).len() >= 1,
        forall|i: int|
            0 <= i < decimal_chars(n).len() ==> '0' <= #[trigger] decimal_chars(n)[i] <= '9',
        vstd::utf8::is_ascii_chars(decimal_chars(n)),
    decreases n,
{
    if n >= 10 {
        lemma_decimal_chars_are_digits(n / 10);
    }
}

/// Reading a decimal notation gives the number back, so two lengths with the
/// same notation are the same length.
pub proof fn lemma_decimal_value_of_chars(n: nat)
    ensures
        decimal_value(decimal_chars(n)) == n,
    decreases n,
{
    let digits = decimal_chars(n);
    if n < 10 {
        assert(digits.drop_last() =~= Seq::<char>::empty());
        assert(decimal_value(digits.drop_last()) == 0);
    } else {
        lemma_decimal_value_of_chars(n / 10);
        assert(digits.drop_last() =~= decimal_chars(n / 10));
    }
}

} // verus!
