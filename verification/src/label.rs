//! The label of a number, and the laws that characterise it.

use vstd::prelude::*;
use crate::decimal::{decimal_digits, is_digit, lemma_decimal_digits_shape};

verus! {

/// The word for a multiple of three.
pub open spec fn fizz() -> Seq<char> {
    seq!['F', 'i', 'z', 'z']
}

/// The word for a multiple of five.
pub open spec fn buzz() -> Seq<char> {
    seq!['B', 'u', 'z', 'z']
}

/// The word for a multiple of both three and five.
pub open spec fn fizzbuzz() -> Seq<char> {
    seq!['F', 'i', 'z', 'z', 'B', 'u', 'z', 'z']
}

/// The label of `n`: the word for what divides it, or else its decimal
/// notation.
pub open spec fn label(n: nat) -> Seq<char> {
    if n % 15 == 0 {
        fizzbuzz()
    } else if n % 3 == 0 {
        fizz()
    } else if n % 5 == 0 {
        buzz()
    } else {
        decimal_digits(n)
    }
}

/// Whether `s` is one of the three words.
pub open spec fn is_word(s: Seq<char>) -> bool {
    s == fizz() || s == buzz() || s == fizzbuzz()
}

/// The three words differ from one another.
pub proof fn lemma_words_distinct()
    ensures
        fizz() != buzz(),
        fizz() != fizzbuzz(),
        buzz() != fizzbuzz(),
{
    assert(fizz()[0] == 'F');
    assert(buzz()[0] == 'B');
    assert(fizz().len() == 4);
    assert(buzz().len() == 4);
    assert(fizzbuzz().len() == 8);
}

/// The word for both is the word for three followed by the word for five.
pub proof fn lemma_fizzbuzz_is_joined()
    ensures
        fizz() + buzz() == fizzbuzz(),
{
    assert(fizz() + buzz() =~= fizzbuzz());
}

/// No decimal notation is one of the three words.
pub proof fn lemma_decimal_is_no_word(n: nat)
    ensures
        !is_word(decimal_digits(n)),
{
    lemma_decimal_digits_shape(n);
    let d = decimal_digits(n);
    assert(is_digit(d[0]));
    assert(fizz()[0] == 'F');
    assert(buzz()[0] == 'B');
    assert(fizzbuzz()[0] == 'F');
}

/// The label is `FizzBuzz` exactly for the multiples of fifteen.
pub proof fn lemma_label_fizzbuzz(n: nat)
    ensures
        label(n) == fizzbuzz() <==> n % 15 == 0,
{
    lemma_words_distinct();
    lemma_decimal_is_no_word(n);
}

/// The label is `Fizz` exactly for the multiples of three that are no
/// multiples of five.
pub proof fn lemma_label_fizz(n: nat)
    ensures
        label(n) == fizz() <==> (n % 3 == 0 && n % 5 != 0),
{
    lemma_words_distinct();
    lemma_decimal_is_no_word(n);
}

/// The label is `Buzz` exactly for the multiples of five that are no
/// multiples of three.
pub proof fn lemma_label_buzz(n: nat)
    ensures
        label(n) == buzz() <==> (n % 5 == 0 && n % 3 != 0),
{
    lemma_words_distinct();
    lemma_decimal_is_no_word(n);
}

/// The label is the decimal notation exactly for the numbers that neither
/// three nor five divides.
pub proof fn lemma_label_number(n: nat)
    ensures
        label(n) == decimal_digits(n) <==> (n % 3 != 0 && n % 5 != 0),
{
    lemma_decimal_is_no_word(n);
}

} // verus!
