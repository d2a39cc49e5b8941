//! The fixed, ordered list of classification functions under test.

use vstd::prelude::*;
use crate::candidates::{
    accumulate_fizzbuzz, bitaccumulate_fizzbuzz, branchful_fizzbuzz, branchless_fizzbuzz,
    brute_fizzbuzz, compositional_fizzbuzz, doof_fizzbuzz, matchbox_fizzbuzz,
    smartbranchless_fizzbuzz, tuple_match_fizzbuzz, worsebrute_fizzbuzz,
};
use crate::decimal::decimal_digits;
use crate::label::{
    buzz, fizz, fizzbuzz, label, lemma_label_buzz, lemma_label_fizz, lemma_label_fizzbuzz,
    lemma_label_number,
};
use crate::strategy::{
    five_first, joined, lemma_five_first, lemma_joined, lemma_looked_up, lemma_nested, looked_up,
    nested,
};

verus! {

/// One classification function of the list.
#[derive(Clone, Copy, Debug, PartialEq, Eq, Structural)]
pub enum Candidate {
    Brute,
    WorseBrute,
    Accumulate,
    Compositional,
    BitAccumulate,
    Matchbox,
    Branchless,
    SmartBranchless,
    Branchful,
    Doof,
    TupleMatch,
}

/// How many candidates the list holds.
pub const CANDIDATE_COUNT: usize = 11;

/// The list, in the order in which the candidates are run and reported.
pub open spec fn all_candidates() -> Seq<Candidate> {
    seq![
        Candidate::Brute,
        Candidate::WorseBrute,
        Candidate::Accumulate,
        Candidate::Compositional,
        Candidate::BitAccumulate,
        Candidate::Matchbox,
        Candidate::Branchless,
        Candidate::SmartBranchless,
        Candidate::Branchful,
        Candidate::Doof,
        Candidate::TupleMatch,
    ]
}

impl Candidate {
    /// The name under which the candidate is reported.
    pub open spec fn name_text(self) -> Seq<char> {
        match self {
            Candidate::Brute => "brute_fizzbuzz"@,
            Candidate::WorseBrute => "worsebrute_fizzbuzz"@,
            Candidate::Accumulate => "accumulate_fizzbuzz"@,
            Candidate::Compositional => "compositional_fizzbuzz"@,
            Candidate::BitAccumulate => "bitaccumulate_fizzbuzz"@,
            Candidate::Matchbox => "matchbox_fizzbuzz"@,
            Candidate::Branchless => "branchless_fizzbuzz"@,
            Candidate::SmartBranchless => "smartbranchless_fizzbuzz"@,
            Candidate::Branchful => "branchful_fizzbuzz"@,
            Candidate::Doof => "doof_fizzbuzz"@,
            Candidate::TupleMatch => "tuple_match_fizzbuzz"@,
        }
    }

    /// What the candidate gives for `n`, by its own way of getting there.
    pub open spec fn output(self, n: nat) -> Seq<char> {
        match self {
            Candidate::Brute => label(n),
            Candidate::WorseBrute => five_first(n),
            Candidate::Accumulate => joined(n),
            Candidate::Compositional => nested(n),
            Candidate::BitAccumulate => looked_up(n),
            Candidate::Matchbox => nested(n),
            Candidate::Branchless => looked_up(n),
            Candidate::SmartBranchless => looked_up(n),
            Candidate::Branchful => looked_up(n),
            Candidate::Doof => label(n),
            Candidate::TupleMatch => nested(n),
        }
    }

    /// The name under which the candidate is reported.
    pub fn name(&self) -> (s: &'static str)
        ensures
            s@ == self.name_text(),
    {
        match self {
            Candidate::Brute => "brute_fizzbuzz",
            Candidate::WorseBrute => "worsebrute_fizzbuzz",
            Candidate::Accumulate => "accumulate_fizzbuzz",
            Candidate::Compositional => "compositional_fizzbuzz",
            Candidate::BitAccumulate => "bitaccumulate_fizzbuzz",
            Candidate::Matchbox => "matchbox_fizzbuzz",
            Candidate::Branchless => "branchless_fizzbuzz",
            Candidate::SmartBranchless => "smartbranchless_fizzbuzz",
            Candidate::Branchful => "branchful_fizzbuzz",
            Candidate::Doof => "doof_fizzbuzz",
            Candidate::TupleMatch => "tuple_match_fizzbuzz",
        }
    }

    /// Runs the candidate on `num`.
    pub fn classify(&self, num: u32) -> (s: String)
        ensures
            s@ == self.output(num as nat),
            s@ == label(num as nat),
    {
        proof {
            lemma_output_is_label(*self, num as nat);
        }
        match self {
            Candidate::Brute => brute_fizzbuzz(num),
            Candidate::WorseBrute => worsebrute_fizzbuzz(num),
            Candidate::Accumulate => accumulate_fizzbuzz(num),
            Candidate::Compositional => compositional_fizzbuzz(num),
            Candidate::BitAccumulate => bitaccumulate_fizzbuzz(num),
            Candidate::Matchbox => matchbox_fizzbuzz(num),
            Candidate::Branchless => branchless_fizzbuzz(num),
            Candidate::SmartBranchless => smartbranchless_fizzbuzz(num),
            Candidate::Branchful => branchful_fizzbuzz(num),
            Candidate::Doof => doof_fizzbuzz(num),
            Candidate::TupleMatch => tuple_match_fizzbuzz(num),
        }
    }
}

/// The list of candidates, the same at every call.
pub fn registry() -> (list: Vec<Candidate>)
    ensures
        list@ == all_candidates(),
        list@.len() == CANDIDATE_COUNT,
{
    let list = vec![
        Candidate::Brute,
        Candidate::WorseBrute,
        Candidate::Accumulate,
        Candidate::Compositional,
        Candidate::BitAccumulate,
        Candidate::Matchbox,
        Candidate::Branchless,
        Candidate::SmartBranchless,
        Candidate::Branchful,
        Candidate::Doof,
        Candidate::TupleMatch,
    ];
    assert(list@ =~= all_candidates());
    list
}

/// Every candidate is in the list.
pub proof fn lemma_list_is_complete(c: Candidate)
    ensures
        all_candidates().contains(c),
{
    let all = all_candidates();
    let i: int = match c {
        Candidate::Brute => 0,
        Candidate::WorseBrute => 1,
        Candidate::Accumulate => 2,
        Candidate::Compositional => 3,
        Candidate::BitAccumulate => 4,
        Candidate::Matchbox => 5,
        Candidate::Branchless => 6,
        Candidate::SmartBranchless => 7,
        Candidate::Branchful => 8,
        Candidate::Doof => 9,
        Candidate::TupleMatch => 10,
    };
    assert(all[i] == c);
}

/// Whatever way a candidate takes, it arrives at the label.
pub proof fn lemma_output_is_label(c: Candidate, n: nat)
    ensures
        c.output(n) == label(n),
{
    lemma_five_first(n);
    lemma_joined(n);
    lemma_looked_up(n);
    lemma_nested(n);
}

/// For every candidate: `FizzBuzz` exactly on the multiples of fifteen,
/// `Fizz` exactly on the multiples of three alone, `Buzz` exactly on the
/// multiples of five alone, and the number itself on all others.
pub proof fn lemma_output_cases(c: Candidate, n: nat)
    ensures
        c.output(n) == fizzbuzz() <==> n % 15 == 0,
        c.output(n) == fizz() <==> (n % 3 == 0 && n % 5 != 0),
        c.output(n) == buzz() <==> (n % 5 == 0 && n % 3 != 0),
        c.output(n) == decimal_digits(n) <==> (n % 3 != 0 && n % 5 != 0),
{
    lemma_output_is_label(c, n);
    lemma_label_fizzbuzz(n);
    lemma_label_fizz(n);
    lemma_label_buzz(n);
    lemma_label_number(n);
}

/// Any two candidates give the same text for the same number.
pub proof fn lemma_candidates_agree(a: Candidate, b: Candidate, n: nat)
    ensures
        a.output(n) == b.output(n),
{
    lemma_output_is_label(a, n);
    lemma_output_is_label(b, n);
}

/// No name holds a comma, so a name can stand as the first field of a
/// comma-separated line as it is.
pub proof fn lemma_names_hold_no_comma(c: Candidate)
    ensures
        !c.name_text().contains(','),
{
    reveal_strlit("brute_fizzbuzz");
    reveal_strlit("worsebrute_fizzbuzz");
    reveal_strlit("accumulate_fizzbuzz");
    reveal_strlit("compositional_fizzbuzz");
    reveal_strlit("bitaccumulate_fizzbuzz");
    reveal_strlit("matchbox_fizzbuzz");
    reveal_strlit("branchless_fizzbuzz");
    reveal_strlit("smartbranchless_fizzbuzz");
    reveal_strlit("branchful_fizzbuzz");
    reveal_strlit("doof_fizzbuzz");
    reveal_strlit("tuple_match_fizzbuzz");
    let name = c.name_text();
    assert forall|i: int| 0 <= i < name.len() implies name[i] != ',' by {}
}

/// Two candidates with the same name are the same candidate.
pub proof fn lemma_names_are_distinct(a: Candidate, b: Candidate)
    requires
        a.name_text() == b.name_text(),
    ensures
        a == b,
{
    reveal_strlit("brute_fizzbuzz");
    reveal_strlit("worsebrute_fizzbuzz");
    reveal_strlit("accumulate_fizzbuzz");
    reveal_strlit("compositional_fizzbuzz");
    reveal_strlit("bitaccumulate_fizzbuzz");
    reveal_strlit("matchbox_fizzbuzz");
    reveal_strlit("branchless_fizzbuzz");
    reveal_strlit("smartbranchless_fizzbuzz");
    reveal_strlit("branchful_fizzbuzz");
    reveal_strlit("doof_fizzbuzz");
    reveal_strlit("tuple_match_fizzbuzz");
    let x = a.name_text();
    let y = b.name_text();
    assert(x.len() == y.len());
    assert(x[0] == y[0]);
    assert(x[1] == y[1]);
    assert(x[5] == y[5]);
}

} // verus!
