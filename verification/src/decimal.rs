//! Decimal text of integers, as it appears in wire snapshots and in
//! rendered status lines.

use vstd::prelude::*;

verus! {

/// The character that stands for one decimal digit.
pub open spec fn digit_char(d: int) -> char {
    if d == 0 {
        '0'
    } else if d == 1 {
        '1'
    } else if d == 2 {
        '2'
    } else if d == 3 {
        '3'
    } else if d == 4 {
        '4'
    } else if d == 5 {
        '5'
    } else if d == 6 {
        '6'
    } else if d == 7 {
        '7'
    } else if d == 8 {
        '8'
    } else {
        '9'
    }
}

/// The decimal digits of a natural number, most significant first, without
/// leading zeros (zero itself is the single digit `0`).
pub open spec fn decimal_digits(n: nat) -> Seq<char>
    decreases n,
{
    if n < 10 {
        seq![digit_char(n as int)]
    } else {
        decimal_digits(n / 10).push(digit_char((n % 10) as int))
    }
}

/// The decimal text of an integer: a minus sign for negative numbers, then
/// the digits of the magnitude.
pub open spec fn decimal(i: int) -> Seq<char> {
    if i < 0 {
        seq!['-'] + decimal_digits((-i) as nat)
    } else {
        decimal_digits(i as nat)
    }
}

/// One digit as a string slice.
fn digit_str(d: u8) -> (r: &'static str)
    requires
        d < 10,
    ensures
        r@ == seq![digit_char(d as int)],
{
    proof {
        reveal_strlit("0");
        reveal_strlit("1");
        reveal_strlit("2");
        reveal_strlit("3");
        reveal_strlit("4");
        reveal_strlit("5");
        reveal_strlit("6");
        reveal_strlit("7");
        reveal_strlit("8");
        reveal_strlit("9");
    }
    let r = if d == 0 {
        "0"
    } else if d == 1 {
        "1"
    } else if d == 2 {
        "2"
    } else if d == 3 {
        "3"
    } else if d == 4 {
        "4"
    } else if d == 5 {
        "5"
    } else if d == 6 {
        "6"
    } else if d == 7 {
        "7"
    } else if d == 8 {
        "8"
    } else {
        "9"
    };
    assert(r@ =~= seq![digit_char(d as int)]);
    r
}

/// Appends the decimal digits of `n` to `out`.
pub fn push_unsigned(out: &mut String, n: u128)
    ensures
        final(out)@ == old(out)@ + decimal_digits(n as nat),
    decreases n,
{
    if n >= 10 {
        push_unsigned(out, n / 10);
    }
    let d = (n % 10) as u8;
    out.append(digit_str(d));
    assert(out@ =~= old(out)@ + decimal_digits(n as nat));
}

/// Appends the decimal text of `n` to `out`.
pub fn push_signed(out: &mut String, n: i64)
    ensures
        final(out)@ == old(out)@ + decimal(n as int),
{
    if n < 0 {
        proof {
            reveal_strlit("-");
        }
        out.append("-");
        let magnitude = (-(n as i128)) as u128;
        push_unsigned(out, magnitude);
        assert(out@ =~= old(out)@ + decimal(n as int));
    } else {
        push_unsigned(out, n as u128);
    }
}

/// The decimal text of an unsigned number.
pub fn unsigned_text(n: u128) -> (r: String)
    ensures
        r@ == decimal_digits(n as nat),
{
    let mut out = String::new();
    push_unsigned(&mut out, n);
    assert(out@ =~= decimal_digits(n as nat));
    out
}

/// The decimal text of a signed number.
pub fn signed_text(n: i64) -> (r: String)
    ensures
        r@ == decimal(n as int),
{
    let mut out = String::new();
    push_signed(&mut out, n);
    assert(out@ =~= decimal(n as int));
    out
}

/// Ten to the power `k`.
pub open spec fn pow10(k: nat) -> nat
    decreases k,
{
    if k == 0 {
        1
    } else {
        10 * pow10((k - 1) as nat)
    }
}

/// A number below ten to the `k` has at most `k` digits, and at least one.
pub proof fn lemma_digit_count(n: nat, k: nat)
    requires
        k >= 1,
        n < pow10(k),
    ensures
        1 <= decimal_digits(n).len() <= k,
    decreases k,
{
    reveal_with_fuel(pow10, 2);
    if n >= 10 {
        assert(k >= 2);
        lemma_digit_count(n / 10, (k - 1) as nat);
    }
}

/// Decimal text is made of the ten digits, after at most one minus sign.
pub proof fn lemma_decimal_is_ascii(i: int)
    ensures
        vstd::utf8::is_ascii_chars(decimal(i)),
        i >= 0 ==> vstd::utf8::is_ascii_chars(decimal_digits(i as nat)),
{
    if i < 0 {
        lemma_digits_are_ascii((-i) as nat);
    } else {
        lemma_digits_are_ascii(i as nat);
    }
}

proof fn lemma_digits_are_ascii(n: nat)
    ensures
        vstd::utf8::is_ascii_chars(decimal_digits(n)),
    decreases n,
{
    if n >= 10 {
        lemma_digits_are_ascii(n / 10);
    }
}

/// The decimal text of a 128-bit number has at most 39 characters, and that
/// of a signed 64-bit number at most 20.
pub proof fn lemma_decimal_lengths(unsigned: u128, signed: i64)
    ensures
        1 <= decimal_digits(unsigned as nat).len() <= 39,
        1 <= decimal(signed as int).len() <= 20,
{
    reveal_with_fuel(pow10, 40);
    lemma_digit_count(unsigned as nat, 39);
    if signed < 0 {
        lemma_digit_count((-signed) as nat, 19);
    } else {
        lemma_digit_count(signed as nat, 19);
    }
}

} // verus!
