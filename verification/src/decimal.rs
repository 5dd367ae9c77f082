//! Decimal notation of integers, as text.

use vstd::prelude::*;

verus! {

/// The character that writes the digit `d`, for `d` from 0 to 9.
pub open spec fn digit_char(d: int) -> char {
    if d == 0 {
        '0'
    } else if d == 1 {
        '1'
    } else if d == 2 {
        '2'
    } else if d == 3 {
        '3'
    } else if d == 4 {
        '4'
    } else if d == 5 {
        '5'
    } else if d == 6 {
        '6'
    } else if d == 7 {
        '7'
    } else if d == 8 {
        '8'
    } else {
        '9'
    }
}

/// Whether `c` is one of the ten digit characters.
pub open spec fn is_digit_char(c: char) -> bool {
    exists|d: int| 0 <= d < 10 && c == #[trigger] digit_char(d)
}

/// The decimal notation of `n`: its digits from the most significant to the
/// least, with no leading zero (zero itself is written `0`).
pub open spec fn decimal(n: nat) -> Seq<char>
    decreases n,
{
    if n < 10 {
        seq![digit_char(n as int)]
    } else {
        decimal(n / 10).push(digit_char((n % 10) as int))
    }
}

/// The decimal notation of an integer: a minus sign before the notation of the
/// magnitude when `i` is negative, the notation of `i` otherwise.
pub open spec fn signed_decimal(i: int) -> Seq<char> {
    if i < 0 {
        seq!['-'] + decimal((-i) as nat)
    } else {
        decimal(i as nat)
    }
}

/// The number that a digit sequence denotes, read from the left.
pub open spec fn decimal_value(digits: Seq<int>) -> nat
    decreases digits.len(),
{
    if digits.len() == 0 {
        0
    } else {
        (decimal_value(digits.drop_last()) * 10 + digits.last()) as nat
    }
}

/// The digits of `n` from the most significant to the least.
pub open spec fn decimal_digits(n: nat) -> Seq<int>
    decreases n,
{
    if n < 10 {
        seq![n as int]
    } else {
        decimal_digits(n / 10).push((n % 10) as int)
    }
}

/// Decimal notation is one digit character per digit of the number: it is
/// never empty, every digit lies between 0 and 9, the digits read back give
/// the number, and only zero starts with the digit 0.
pub proof fn lemma_decimal_shape(n: nat)
    ensures
        decimal(n).len() == decimal_digits(n).len(),
        decimal(n).len() >= 1,
        forall|i: int|
            0 <= i < decimal(n).len() ==> 0 <= #[trigger] decimal_digits(n)[i] < 10
                && decimal(n)[i] == digit_char(decimal_digits(n)[i]),
        decimal_value(decimal_digits(n)) == n,
        decimal_digits(n)[0] == 0 <==> n == 0,
    decreases n,
{
    if n < 10 {
        let digits = decimal_digits(n);
        assert(digits.drop_last() =~= Seq::<int>::empty());
        assert(decimal_value(digits.drop_last()) == 0);
    } else {
        lemma_decimal_shape(n / 10);
        let digits = decimal_digits(n);
        assert(digits.drop_last() =~= decimal_digits(n / 10));
    }
}

/// Every character of a decimal notation is a digit character.
pub proof fn lemma_decimal_is_digits(n: nat)
    ensures
        forall|i: int| 0 <= i < decimal(n).len() ==> is_digit_char(#[trigger] decimal(n)[i]),
{
    lemma_decimal_shape(n);
    assert forall|i: int| 0 <= i < decimal(n).len() implies is_digit_char(
        #[trigger] decimal(n)[i],
    ) by {
        let d = decimal_digits(n)[i];
        assert(decimal(n)[i] == digit_char(d));
    }
}

/// The one-character text of the digit `d`.
fn digit_str(d: u8) -> (s: &'static str)
    requires
        d < 10,
    ensures
        s@ == seq![digit_char(d as int)],
{
    proof {
        reveal_strlit("0");
        reveal_strlit("1");
        reveal_strlit("2");
        reveal_strlit("3");
        reveal_strlit("4");
        reveal_strlit("5");
        reveal_strlit("6");
        reveal_strlit("7");
        reveal_strlit("8");
        reveal_strlit("9");
    }
    let s = if d == 0 {
        "0"
    } else if d == 1 {
        "1"
    } else if d == 2 {
        "2"
    } else if d == 3 {
        "3"
    } else if d == 4 {
        "4"
    } else if d == 5 {
        "5"
    } else if d == 6 {
        "6"
    } else if d == 7 {
        "7"
    } else if d == 8 {
        "8"
    } else {
        "9"
    };
    assert(s@ =~= seq![digit_char(d as int)]);
    s
}

/// Appends the decimal notation of `n` to `out`.
pub fn append_decimal(out: &mut String, n: u128)
    ensures
        final(out)@ == old(out)@ + decimal(n as nat),
    decreases n,
{
    if n >= 10 {
        append_decimal(out, n / 10);
    }
    let digit: u8 = (n % 10) as u8;
    out.append(digit_str(digit));
    assert(final(out)@ =~= old(out)@ + decimal(n as nat));
}

/// The decimal notation of `n`.
pub fn decimal_string(n: u128) -> (s: String)
    ensures
        s@ == decimal(n as nat),
{
    let mut s = String::new();
    append_decimal(&mut s, n);
    assert(s@ =~= decimal(n as nat));
    s
}

/// The magnitude of `i`.
pub fn magnitude(i: i64) -> (m: u64)
    ensures
        m == if i < 0 { -i } else { i as int },
{
    if i < 0 {
        let above: i64 = i + 1;
        let below: u64 = (-above) as u64;
        below + 1
    } else {
        i as u64
    }
}

/// Appends the decimal notation of the integer `i` to `out`.
pub fn append_signed_decimal(out: &mut String, i: i64)
    ensures
        final(out)@ == old(out)@ + signed_decimal(i as int),
{
    if i < 0 {
        proof {
            reveal_strlit("-");
        }
        out.append("-");
        assert(out@ =~= old(out)@ + seq!['-']);
    }
    let m: u64 = magnitude(i);
    append_decimal(out, m as u128);
    assert(final(out)@ =~= old(out)@ + signed_decimal(i as int));
}

/// The decimal notation of the integer `i`.
pub fn signed_decimal_string(i: i64) -> (s: String)
    ensures
        s@ == signed_decimal(i as int),
{
    let mut s = String::new();
    append_signed_decimal(&mut s, i);
    assert(s@ =~= signed_decimal(i as int));
    s
}

} // verus!
