//! The text in which the samples of a run are reported.

use vstd::prelude::*;
use crate::decimal::{
    decimal_digits, decimal_string_wide, fixed_digits, fixed_string, lemma_decimal_digits_shape,
    lemma_fixed_digits_shape,
};
use crate::harness::ResultSet;
use crate::registry::Candidate;

verus! {

/// How many nanoseconds make a second.
pub const NANOS_PER_SECOND: u128 = 1_000_000_000;

/// A time of `nanos` nanoseconds as a decimal number of seconds: the whole
/// seconds, a point, and nine digits for the rest.
pub open spec fn seconds_text(nanos: nat) -> Seq<char> {
    decimal_digits(nanos / 1_000_000_000) + seq!['.'] + fixed_digits(nanos % 1_000_000_000, 9)
}

/// The samples as fields of a line, each with a comma in front.
pub open spec fn sample_fields(samples: Seq<u128>) -> Seq<char>
    decreases samples.len(),
{
    if samples.len() == 0 {
        Seq::<char>::empty()
    } else {
        sample_fields(samples.drop_last()) + seq![','] + seconds_text(samples.last() as nat)
    }
}

/// The line for a candidate with several rounds: its name, then its
/// samples in the order of the rounds, separated by commas.
pub open spec fn csv_line_text(name: Seq<char>, samples: Seq<u128>) -> Seq<char> {
    name + sample_fields(samples)
}

/// The line for a candidate with a single round.
pub open spec fn timing_line_text(name: Seq<char>, nanos: nat) -> Seq<char> {
    name + seq![' ', 'r', 'a', 'n', ' ', 'i', 'n', ' '] + seconds_text(nanos) + seq!['s']
}

/// How many commas `s` holds.
pub open spec fn commas(s: Seq<char>) -> nat
    decreases s.len(),
{
    if s.len() == 0 {
        0
    } else {
        commas(s.drop_last()) + if s.last() == ',' {
            1nat
        } else {
            0nat
        }
    }
}

/// The commas of two texts, one after the other, are those of both.
pub proof fn lemma_commas_of_joined(a: Seq<char>, b: Seq<char>)
    ensures
        commas(a + b) == commas(a) + commas(b),
    decreases b.len(),
{
    if b.len() == 0 {
        assert(a + b =~= a);
    } else {
        lemma_commas_of_joined(a, b.drop_last());
        assert((a + b).drop_last() =~= a + b.drop_last());
        assert((a + b).last() == b.last());
    }
}

/// A text that holds no comma has none to count.
pub proof fn lemma_commas_of_plain(s: Seq<char>)
    requires
        !s.contains(','),
    ensures
        commas(s) == 0,
    decreases s.len(),
{
    if s.len() > 0 {
        assert(s.last() == s[s.len() - 1]);
        assert forall|i: int| 0 <= i < s.drop_last().len() implies s.drop_last()[i] != ',' by {
            assert(s.drop_last()[i] == s[i]);
        }
        lemma_commas_of_plain(s.drop_last());
    }
}

/// A time written in seconds holds no comma.
pub proof fn lemma_seconds_hold_no_comma(nanos: nat)
    ensures
        !seconds_text(nanos).contains(','),
{
    lemma_decimal_digits_shape(nanos / 1_000_000_000);
    lemma_fixed_digits_shape(nanos % 1_000_000_000, 9);
    let whole = decimal_digits(nanos / 1_000_000_000);
    let rest = fixed_digits(nanos % 1_000_000_000, 9);
    let text = seconds_text(nanos);
    assert forall|i: int| 0 <= i < text.len() implies text[i] != ',' by {
        if i < whole.len() {
            assert(text[i] == whole[i]);
        } else if i == whole.len() {
            assert(text[i] == '.');
        } else {
            assert(text[i] == rest[i - whole.len() - 1]);
        }
    }
}

/// A line whose name holds no comma has exactly one comma for each sample:
/// split at the commas, it gives the name and the samples back as fields.
pub proof fn lemma_line_has_a_comma_for_each_sample(name: Seq<char>, samples: Seq<u128>)
    requires
        !name.contains(','),
    ensures
        commas(csv_line_text(name, samples)) == samples.len(),
    decreases samples.len(),
{
    lemma_commas_of_plain(name);
    if samples.len() == 0 {
        assert(csv_line_text(name, samples) =~= name);
    } else {
        let before = csv_line_text(name, samples.drop_last());
        let last = seconds_text(samples.last() as nat);
        lemma_line_has_a_comma_for_each_sample(name, samples.drop_last());
        lemma_seconds_hold_no_comma(samples.last() as nat);
        lemma_commas_of_plain(last);
        lemma_commas_of_joined(before, seq![',']);
        lemma_commas_of_joined(before + seq![','], last);
        assert(commas(seq![',']) == 1) by {
            assert(seq![','].drop_last() =~= Seq::<char>::empty());
            assert(commas(seq![','].drop_last()) == 0);
            assert(seq![','].last() == ',');
        }
        assert(csv_line_text(name, samples) =~= before + seq![','] + last);
    }
}

/// Writes a time of `nanos` nanoseconds as a decimal number of seconds.
pub fn format_seconds(nanos: u128) -> (s: String)
    ensures
        s@ == seconds_text(nanos as nat),
{
    proof {
        reveal_strlit(".");
    }
    let mut s = decimal_string_wide(nanos / NANOS_PER_SECOND);
    s.append(".");
    s.append(fixed_string(nanos % NANOS_PER_SECOND, 9).as_str());
    assert(s@ =~= seconds_text(nanos as nat));
    s
}

/// Writes the line for a candidate with several rounds.
pub fn csv_line(name: &str, samples: &Vec<u128>) -> (line: String)
    ensures
        line@ == csv_line_text(name@, samples@),
{
    proof {
        reveal_strlit(",");
    }
    let mut line = String::from_str(name);
    let mut idx: usize = 0;
    assert(samples@.take(0) =~= Seq::<u128>::empty());
    assert(line@ =~= csv_line_text(name@, samples@.take(0)));
    while idx < samples.len()
        invariant
            idx <= samples@.len(),
            ","@ == seq![','],
            line@ == csv_line_text(name@, samples@.take(idx as int)),
        decreases samples@.len() - idx,
    {
        line.append(",");
        line.append(format_seconds(samples[idx]).as_str());
        proof {
            let before = samples@.take(idx as int);
            let after = samples@.take(idx + 1);
            assert(after.drop_last() =~= before);
            assert(after.last() == samples@[idx as int]);
            assert(line@ =~= csv_line_text(name@, after));
        }
        idx += 1;
    }
    assert(samples@.take(idx as int) =~= samples@);
    line
}

/// Writes the line for a candidate with a single round.
pub fn timing_line(name: &str, nanos: u128) -> (line: String)
    ensures
        line@ == timing_line_text(name@, nanos as nat),
{
    proof {
        reveal_strlit(" ran in ");
        reveal_strlit("s");
    }
    let mut line = String::from_str(name);
    line.append(" ran in ");
    line.append(format_seconds(nanos).as_str());
    line.append("s");
    assert(line@ =~= timing_line_text(name@, nanos as nat));
    line
}

/// Writes the report of a run: one line for each candidate of the list, in
/// the order of the list, with the name of the candidate and its samples.
pub fn report(list: &Vec<Candidate>, results: &ResultSet) -> (lines: Vec<String>)
    requires
        results@.len() == list@.len(),
    ensures
        lines@.len() == list@.len(),
        forall|i: int|
            0 <= i < list@.len() ==> (#[trigger] lines@[i])@ == csv_line_text(
                list@[i].name_text(),
                results@[i],
            ),
{
    let mut lines: Vec<String> = Vec::new();
    let mut idx: usize = 0;
    while idx < list.len()
        invariant
            idx <= list@.len(),
            results@.len() == list@.len(),
            lines@.len() == idx,
            forall|i: int|
                0 <= i < idx ==> (#[trigger] lines@[i])@ == csv_line_text(
                    list@[i].name_text(),
                    results@[i],
                ),
        decreases list@.len() - idx,
    {
        let line = csv_line(list[idx].name(), results.samples(idx));
        lines.push(line);
        idx += 1;
    }
    lines
}

} // verus!
