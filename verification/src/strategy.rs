//! The ways of arriving at a label, as mathematical functions, each shown
//! to give the label.

use vstd::prelude::*;
use crate::decimal::decimal_digits;
use crate::label::{buzz, fizz, fizzbuzz, label, lemma_fizzbuzz_is_joined};

verus! {

/// Where the label of `n` stands in the table of the number itself and the
/// three words: one for a multiple of three, plus two for a multiple of
/// five.
pub open spec fn position(n: nat) -> nat {
    (if n % 3 == 0 { 1nat } else { 0nat }) + (if n % 5 == 0 { 2nat } else { 0nat })
}

/// The table that `position` points into.
pub open spec fn table(n: nat) -> Seq<Seq<char>> {
    seq![decimal_digits(n), fizz(), buzz(), fizzbuzz()]
}

/// First match wins, with fifteen tested first, then five, then three.
pub open spec fn five_first(n: nat) -> Seq<char> {
    if n % 15 == 0 {
        fizzbuzz()
    } else if n % 5 == 0 {
        buzz()
    } else if n % 3 == 0 {
        fizz()
    } else {
        decimal_digits(n)
    }
}

/// The words for three and for five, each where it applies, one after the
/// other; the number where neither applies.
pub open spec fn joined(n: nat) -> Seq<char> {
    let three = if n % 3 == 0 { fizz() } else { Seq::<char>::empty() };
    let five = if n % 5 == 0 { buzz() } else { Seq::<char>::empty() };
    if (three + five).len() == 0 {
        decimal_digits(n)
    } else {
        three + five
    }
}

/// The entry of the table at the position of `n`.
pub open spec fn looked_up(n: nat) -> Seq<char> {
    table(n)[position(n) as int]
}

/// A test for three, then in either branch a test for five.
pub open spec fn nested(n: nat) -> Seq<char> {
    if n % 3 == 0 {
        if n % 5 == 0 {
            fizzbuzz()
        } else {
            fizz()
        }
    } else {
        if n % 5 == 0 {
            buzz()
        } else {
            decimal_digits(n)
        }
    }
}

/// Testing five before three changes nothing.
pub proof fn lemma_five_first(n: nat)
    ensures
        five_first(n) == label(n),
{
}

/// Joining the words gives the label.
pub proof fn lemma_joined(n: nat)
    ensures
        joined(n) == label(n),
{
    lemma_fizzbuzz_is_joined();
    let none = Seq::<char>::empty();
    assert(fizz() + none =~= fizz());
    assert(none + buzz() =~= buzz());
    assert(none + none =~= none);
}

/// The position of a number is within the table, and the table holds the
/// label there.
pub proof fn lemma_looked_up(n: nat)
    ensures
        position(n) < table(n).len(),
        looked_up(n) == label(n),
{
}

/// The tree of two tests gives the label.
pub proof fn lemma_nested(n: nat)
    ensures
        nested(n) == label(n),
{
}

} // verus!
