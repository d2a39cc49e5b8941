//! Decimal notation of unsigned integers.

use vstd::prelude::*;

verus! {

/// The character that writes the digit `d`, for `d` below ten.
pub open spec fn digit_char(d: nat) -> char
    recommends
        d < 10,
{
    if d == 0 {
        '0'
    } else if d == 1 {
        '1'
    } else if d == 2 {
        '2'
    } else if d == 3 {
        '3'
    } else if d == 4 {
        '4'
    } else if d == 5 {
        '5'
    } else if d == 6 {
        '6'
    } else if d == 7 {
        '7'
    } else if d == 8 {
        '8'
    } else {
        '9'
    }
}

/// Whether `c` is one of the ten decimal digits.
pub open spec fn is_digit(c: char) -> bool {
    '0' <= c && c <= '9'
}

/// The decimal notation of `n`: most significant digit first, no sign and
/// no leading zero, with zero written as the single digit `0`.
pub open spec fn decimal_digits(n: nat) -> Seq<char>
    decreases n,
{
    if n < 10 {
        seq![digit_char(n)]
    } else {
        decimal_digits(n / 10).push(digit_char(n % 10))
    }
}

/// The digit that the character `c` writes.
pub open spec fn digit_value(c: char) -> nat {
    if c == '1' {
        1
    } else if c == '2' {
        2
    } else if c == '3' {
        3
    } else if c == '4' {
        4
    } else if c == '5' {
        5
    } else if c == '6' {
        6
    } else if c == '7' {
        7
    } else if c == '8' {
        8
    } else if c == '9' {
        9
    } else {
        0
    }
}

/// The number that a sequence of decimal digits writes, read most
/// significant digit first. The empty sequence reads as zero.
pub open spec fn decimal_value(s: Seq<char>) -> nat
    decreases s.len(),
{
    if s.len() == 0 {
        0
    } else {
        10 * decimal_value(s.drop_last()) + digit_value(s.last())
    }
}

/// Every digit is written by a digit character, and reading that
/// character gives the digit back.
pub proof fn lemma_digit_char(d: nat)
    requires
        d < 10,
    ensures
        is_digit(digit_char(d)),
        digit_value(digit_char(d)) == d,
{
}

/// A decimal notation is never empty and holds digit characters only.
pub proof fn lemma_decimal_digits_shape(n: nat)
    ensures
        decimal_digits(n).len() >= 1,
        forall|i: int| 0 <= i < decimal_digits(n).len() ==> is_digit(#[trigger] decimal_digits(n)[i]),
    decreases n,
{
    if n >= 10 {
        lemma_decimal_digits_shape(n / 10);
        lemma_digit_char(n % 10);
    } else {
        lemma_digit_char(n);
    }
}

/// A decimal notation starts with `0` only when the number is zero.
pub proof fn lemma_decimal_digits_no_leading_zero(n: nat)
    ensures
        decimal_digits(n)[0] == '0' <==> n == 0,
    decreases n,
{
    if n >= 10 {
        lemma_decimal_digits_no_leading_zero(n / 10);
        lemma_decimal_digits_shape(n / 10);
    }
}

/// Reading the decimal notation of `n` gives `n` back.
pub proof fn lemma_decimal_value_of_digits(n: nat)
    ensures
        decimal_value(decimal_digits(n)) == n,
    decreases n,
{
    if n >= 10 {
        let head = decimal_digits(n / 10);
        let all = head.push(digit_char(n % 10));
        lemma_decimal_value_of_digits(n / 10);
        lemma_digit_char(n % 10);
        assert(all.drop_last() =~= head);
        assert(all.last() == digit_char(n % 10));
    } else {
        let all = seq![digit_char(n)];
        lemma_digit_char(n);
        assert(all.drop_last() =~= Seq::<char>::empty());
        assert(decimal_value(all.drop_last()) == 0);
    }
}

/// Two numbers with the same decimal notation are the same number.
pub proof fn lemma_decimal_digits_injective(a: nat, b: nat)
    requires
        decimal_digits(a) == decimal_digits(b),
    ensures
        a == b,
{
    lemma_decimal_value_of_digits(a);
    lemma_decimal_value_of_digits(b);
}

/// Ten to the power `e`.
pub open spec fn pow10(e: nat) -> nat
    decreases e,
{
    if e == 0 {
        1
    } else {
        10 * pow10((e - 1) as nat)
    }
}

/// A power of ten is positive.
pub proof fn lemma_pow10_positive(e: nat)
    ensures
        pow10(e) > 0,
    decreases e,
{
    if e > 0 {
        lemma_pow10_positive((e - 1) as nat);
    }
}

/// The last `width` decimal digits of `n`, most significant first, with
/// zeros in front where `n` has fewer.
pub open spec fn fixed_digits(n: nat, width: nat) -> Seq<char>
    decreases width,
{
    if width == 0 {
        Seq::<char>::empty()
    } else {
        fixed_digits(n / 10, (width - 1) as nat).push(digit_char(n % 10))
    }
}

/// A fixed-width notation has the width asked for and holds digit
/// characters only.
pub proof fn lemma_fixed_digits_shape(n: nat, width: nat)
    ensures
        fixed_digits(n, width).len() == width,
        forall|i: int| 0 <= i < width ==> is_digit(#[trigger] fixed_digits(n, width)[i]),
    decreases width,
{
    if width > 0 {
        lemma_fixed_digits_shape(n / 10, (width - 1) as nat);
        lemma_digit_char(n % 10);
    }
}

/// Reading a fixed-width notation gives the number back, but for what
/// does not fit in the width.
pub proof fn lemma_decimal_value_of_fixed(n: nat, width: nat)
    ensures
        decimal_value(fixed_digits(n, width)) == n % pow10(width),
    decreases width,
{
    if width > 0 {
        let head = fixed_digits(n / 10, (width - 1) as nat);
        let all = head.push(digit_char(n % 10));
        lemma_decimal_value_of_fixed(n / 10, (width - 1) as nat);
        lemma_digit_char(n % 10);
        assert(all.drop_last() =~= head);
        assert(all.last() == digit_char(n % 10));
        let p = pow10((width - 1) as nat);
        lemma_pow10_positive((width - 1) as nat);
        let q = n / 10;
        let low = 10 * (q % p) + n % 10;
        assert(n == (q / p) * (10 * p) + low) by (nonlinear_arith)
            requires
                p > 0,
                q == n / 10,
                low == 10 * (q % p) + n % 10,
        ;
        assert(low < 10 * p) by (nonlinear_arith)
            requires
                p > 0,
                low == 10 * (q % p) + n % 10,
        ;
        vstd::arithmetic::div_mod::lemma_fundamental_div_mod_converse(
            n as int,
            (10 * p) as int,
            (q / p) as int,
            low as int,
        );
    }
}

/// The one-character text of a single digit.
fn digit_str(d: u8) -> (s: &'static str)
    requires
        d < 10,
    ensures
        s@ == seq![digit_char(d as nat)],
{
    proof {
        reveal_strlit("0");
        reveal_strlit("1");
        reveal_strlit("2");
        reveal_strlit("3");
        reveal_strlit("4");
        reveal_strlit("5");
        reveal_strlit("6");
        reveal_strlit("7");
        reveal_strlit("8");
        reveal_strlit("9");
    }
    let s: &'static str = if d == 0 {
        "0"
    } else if d == 1 {
        "1"
    } else if d == 2 {
        "2"
    } else if d == 3 {
        "3"
    } else if d == 4 {
        "4"
    } else if d == 5 {
        "5"
    } else if d == 6 {
        "6"
    } else if d == 7 {
        "7"
    } else if d == 8 {
        "8"
    } else {
        "9"
    };
    assert(s@ =~= seq![digit_char(d as nat)]);
    s
}

/// Writes a number of up to 128 bits in decimal notation.
pub fn decimal_string_wide(n: u128) -> (s: String)
    ensures
        s@ == decimal_digits(n as nat),
    decreases n,
{
    if n < 10 {
        String::from_str(digit_str(n as u8))
    } else {
        let mut s = decimal_string_wide(n / 10);
        s.append(digit_str((n % 10) as u8));
        assert(s@ =~= decimal_digits((n / 10) as nat).push(digit_char((n % 10) as nat)));
        s
    }
}

/// Writes a number in decimal notation.
pub fn decimal_string(n: u32) -> (s: String)
    ensures
        s@ == decimal_digits(n as nat),
{
    decimal_string_wide(n as u128)
}

/// Writes the last `width` decimal digits of a number, with zeros in front
/// where it has fewer.
pub fn fixed_string(n: u128, width: usize) -> (s: String)
    ensures
        s@ == fixed_digits(n as nat, width as nat),
    decreases width,
{
    if width == 0 {
        let s = String::new();
        assert(s@ =~= fixed_digits(n as nat, 0));
        s
    } else {
        let mut s = fixed_string(n / 10, width - 1);
        s.append(digit_str((n % 10) as u8));
        assert(s@ =~= fixed_digits((n / 10) as nat, (width - 1) as nat).push(
            digit_char((n % 10) as nat),
        ));
        s
    }
}

} // verus!
