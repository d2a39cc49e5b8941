//! The classification functions: one result, computed in many ways.

use vstd::prelude::*;
use crate::decimal::{decimal_digits, decimal_string};
use crate::label::{buzz, fizz, fizzbuzz, label};
use crate::strategy::position;

verus! {

/// What the literals used in this module hold.
proof fn lemma_literals()
    ensures
        ""@ == Seq::<char>::empty(),
        "Fizz"@ == fizz(),
        "Buzz"@ == buzz(),
        "FizzBuzz"@ == fizzbuzz(),
{
    reveal_strlit("");
    reveal_strlit("Fizz");
    reveal_strlit("Buzz");
    reveal_strlit("FizzBuzz");
    assert(""@ =~= Seq::<char>::empty());
    assert("Fizz"@ =~= fizz());
    assert("Buzz"@ =~= buzz());
    assert("FizzBuzz"@ =~= fizzbuzz());
}

/// Tests the three cases in turn, the rarest first: between one and three
/// divisions before the answer is known.
pub fn brute_fizzbuzz(num: u32) -> (s: String)
    ensures
        s@ == label(num as nat),
{
    proof {
        lemma_literals();
    }
    if num % 15 == 0 {
        String::from_str("FizzBuzz")
    } else if num % 3 == 0 {
        String::from_str("Fizz")
    } else if num % 5 == 0 {
        String::from_str("Buzz")
    } else {
        decimal_string(num)
    }
}

/// As `brute_fizzbuzz`, but tests five before three, so that more numbers
/// need all three divisions.
pub fn worsebrute_fizzbuzz(num: u32) -> (s: String)
    ensures
        s@ == label(num as nat),
{
    proof {
        lemma_literals();
    }
    if num % 15 == 0 {
        String::from_str("FizzBuzz")
    } else if num % 5 == 0 {
        String::from_str("Buzz")
    } else if num % 3 == 0 {
        String::from_str("Fizz")
    } else {
        decimal_string(num)
    }
}

/// Builds the answer by appending: the word for three, then the word for
/// five, and the number itself where nothing was appended.
pub fn accumulate_fizzbuzz(num: u32) -> (s: String)
    ensures
        s@ == label(num as nat),
{
    proof {
        lemma_literals();
    }
    let mut result = String::from_str("");
    if num % 3 == 0 {
        result.append("Fizz");
    }
    if num % 5 == 0 {
        result.append("Buzz");
    }
    if result.as_str().is_empty() {
        result.append(decimal_string(num).as_str());
    }
    assert(result@ =~= label(num as nat));
    result
}

/// Keeps the combined outcome of the two tests in a number and looks the
/// word up in a table.
pub fn bitaccumulate_fizzbuzz(num: u32) -> (s: String)
    ensures
        s@ == label(num as nat),
{
    proof {
        lemma_literals();
    }
    let results: [&str; 3] = ["Fizz", "Buzz", "FizzBuzz"];
    let mut idx: usize = 0;
    if num % 3 == 0 {
        idx += 1;
    }
    if num % 5 == 0 {
        idx += 2;
    }
    if idx == 0 {
        decimal_string(num)
    } else {
        String::from_str(results[idx - 1])
    }
}

/// The second test of `compositional_fizzbuzz` for a multiple of three.
fn opti_buzz(num: u32) -> (s: String)
    requires
        num % 3 == 0,
    ensures
        s@ == label(num as nat),
{
    proof {
        lemma_literals();
    }
    if num % 5 == 0 {
        String::from_str("FizzBuzz")
    } else {
        String::from_str("Fizz")
    }
}

/// The second test of `compositional_fizzbuzz` for a number that three
/// does not divide.
fn pessi_buzz(num: u32) -> (s: String)
    requires
        num % 3 != 0,
    ensures
        s@ == label(num as nat),
{
    proof {
        lemma_literals();
    }
    if num % 5 == 0 {
        String::from_str("Buzz")
    } else {
        decimal_string(num)
    }
}

/// Searches the four outcomes as a binary tree: the test for three picks
/// one of two functions, each of which tests for five. Always two
/// divisions.
pub fn compositional_fizzbuzz(num: u32) -> (s: String)
    ensures
        s@ == label(num as nat),
{
    if num % 3 == 0 {
        opti_buzz(num)
    } else {
        pessi_buzz(num)
    }
}

/// The same tree as `compositional_fizzbuzz`, written as nested matches.
pub fn matchbox_fizzbuzz(num: u32) -> (s: String)
    ensures
        s@ == label(num as nat),
{
    proof {
        lemma_literals();
    }
    match num % 3 {
        0 => match num % 5 {
            0 => String::from_str("FizzBuzz"),
            _ => String::from_str("Fizz"),
        },
        _ => match num % 5 {
            0 => String::from_str("Buzz"),
            _ => decimal_string(num),
        },
    }
}

/// Replaces both tests by table lookups: the remainders index two tables
/// whose entries add up to the position of the answer. The number is
/// always written out, needed or not.
pub fn branchless_fizzbuzz(num: u32) -> (s: String)
    ensures
        s@ == label(num as nat),
{
    proof {
        lemma_literals();
    }
    let fizzdex: [usize; 3] = [1, 0, 0];
    let buzzdex: [usize; 5] = [2, 0, 0, 0, 0];
    let number = decimal_string(num);
    let results: [&str; 4] = [number.as_str(), "Fizz", "Buzz", "FizzBuzz"];
    let mut idx: usize = 0;
    idx += fizzdex[(num % 3) as usize];
    assert(idx == if num % 3 == 0 { 1usize } else { 0usize });
    idx += buzzdex[(num % 5) as usize];
    assert(idx == position(num as nat));
    String::from_str(results[idx])
}

/// As `branchless_fizzbuzz`, with one test on the position so that the
/// number is written out only where it is the answer.
pub fn branchful_fizzbuzz(num: u32) -> (s: String)
    ensures
        s@ == label(num as nat),
{
    proof {
        lemma_literals();
    }
    let results: [&str; 4] = ["", "Fizz", "Buzz", "FizzBuzz"];
    let fizzdex: [usize; 3] = [1, 0, 0];
    let buzzdex: [usize; 5] = [2, 0, 0, 0, 0];
    let mut idx: usize = 0;
    idx += fizzdex[(num % 3) as usize];
    assert(idx == if num % 3 == 0 { 1usize } else { 0usize });
    idx += buzzdex[(num % 5) as usize];
    assert(idx == position(num as nat));
    if idx == 0 {
        decimal_string(num)
    } else {
        String::from_str(results[idx])
    }
}

/// Divisibility without the remainder operator: divide, multiply back and
/// compare.
fn doof_mod(num: u32, check: u32) -> (divides: bool)
    requires
        check > 0,
    ensures
        divides == (num % check == 0),
{
    let div = num / check;
    assert(div * check <= num && (div * check == num <==> num % check == 0)) by (nonlinear_arith)
        requires
            check > 0,
            div == num / check,
    ;
    (div * check) == num
}

/// As `brute_fizzbuzz`, with divisibility tested by `doof_mod`.
pub fn doof_fizzbuzz(num: u32) -> (s: String)
    ensures
        s@ == label(num as nat),
{
    proof {
        lemma_literals();
    }
    if doof_mod(num, 15) {
        String::from_str("FizzBuzz")
    } else if doof_mod(num, 3) {
        String::from_str("Fizz")
    } else if doof_mod(num, 5) {
        String::from_str("Buzz")
    } else {
        decimal_string(num)
    }
}

/// Matches on the pair of remainders.
pub fn tuple_match_fizzbuzz(num: u32) -> (s: String)
    ensures
        s@ == label(num as nat),
{
    proof {
        lemma_literals();
    }
    match (num % 3, num % 5) {
        (0, 0) => String::from_str("FizzBuzz"),
        (0, _) => String::from_str("Fizz"),
        (_, 0) => String::from_str("Buzz"),
        _ => decimal_string(num),
    }
}

/// Which function gives the answer at a position of the table.
#[derive(Clone, Copy)]
enum Answer {
    /// `num_answer`.
    Number,
    /// `fizzbuzz_answer`.
    Word,
}

/// The word at position `idx` of the table; the empty text at position
/// zero, where the table holds no word.
fn fizzbuzz_answer(idx: usize, _num: u32) -> (s: String)
    requires
        idx < 4,
    ensures
        s@ == seq![Seq::<char>::empty(), fizz(), buzz(), fizzbuzz()][idx as int],
{
    proof {
        lemma_literals();
    }
    let results: [&str; 4] = ["", "Fizz", "Buzz", "FizzBuzz"];
    String::from_str(results[idx])
}

/// The number itself, written out.
fn num_answer(_idx: usize, num: u32) -> (s: String)
    ensures
        s@ == decimal_digits(num as nat),
{
    decimal_string(num)
}

/// As `branchless_fizzbuzz`, with a table that names the function to
/// call in place of the table of texts, so that the number is written out
/// only where it is the answer.
pub fn smartbranchless_fizzbuzz(num: u32) -> (s: String)
    ensures
        s@ == label(num as nat),
{
    let fizzdex: [usize; 3] = [1, 0, 0];
    let buzzdex: [usize; 5] = [2, 0, 0, 0, 0];
    let results: [Answer; 4] = [Answer::Number, Answer::Word, Answer::Word, Answer::Word];
    let mut idx: usize = 0;
    idx += fizzdex[(num % 3) as usize];
    assert(idx == if num % 3 == 0 { 1usize } else { 0usize });
    idx += buzzdex[(num % 5) as usize];
    assert(idx == position(num as nat));
    match results[idx] {
        Answer::Number => num_answer(idx, num),
        Answer::Word => fizzbuzz_answer(idx, num),
    }
}

} // verus!
