use fizzbuzz_bench::harness::{
    run, sweep, ResultSet, DEFAULT_LOWER_BOUND, DEFAULT_UPPER_BOUND, REPEATED_ROUNDS,
    SINGLE_ROUND,
};
use fizzbuzz_bench::registry::{registry, Candidate};
use fizzbuzz_bench::report::{csv_line, format_seconds, report, timing_line, NANOS_PER_SECOND};

#[test]
fn new_result_set_has_an_empty_entry_for_each_candidate() {
    let results = ResultSet::new(4);
    assert_eq!(results.len(), 4);
    for idx in 0..4 {
        assert!(results.samples(idx).is_empty());
    }
    assert_eq!(ResultSet::new(0).len(), 0);
}

#[test]
fn record_appends_to_one_candidate_only() {
    let mut results = ResultSet::new(3);
    results.record(1, 10);
    results.record(1, 5);
    results.record(2, 7);
    assert_eq!(results.len(), 3);
    assert_eq!(results.samples(0), &Vec::<u128>::new());
    assert_eq!(results.samples(1), &vec![10u128, 5]);
    assert_eq!(results.samples(2), &vec![7u128]);
}

#[test]
fn sweep_calls_once_for_each_number() {
    assert_eq!(sweep(Candidate::Brute, 0, 1000), 1000);
    assert_eq!(sweep(Candidate::Accumulate, 10, 25), 15);
    assert_eq!(sweep(Candidate::Doof, 7, 7), 0);
    assert_eq!(sweep(Candidate::TupleMatch, 9, 3), 0);
    assert_eq!(sweep(Candidate::Branchless, u32::MAX - 3, u32::MAX), 3);
}

#[test]
fn run_takes_the_rounds_asked_for_of_every_candidate() {
    let list = registry();
    let results = run(&list, 3, 0, 200);
    assert_eq!(results.len(), list.len());
    for idx in 0..list.len() {
        assert_eq!(results.samples(idx).len(), 3);
    }
}

#[test]
fn run_without_rounds_leaves_every_candidate_empty() {
    let list = registry();
    let results = run(&list, 0, 0, 200);
    assert_eq!(results.len(), 11);
    for idx in 0..list.len() {
        assert!(results.samples(idx).is_empty());
    }
}

#[test]
fn run_on_an_empty_list_gives_nothing() {
    let list: Vec<Candidate> = Vec::new();
    let results = run(&list, 5, 0, 200);
    assert_eq!(results.len(), 0);
    assert!(report(&list, &results).is_empty());
}

#[test]
fn run_on_a_chosen_list() {
    let list = vec![Candidate::Doof, Candidate::Brute];
    let results = run(&list, SINGLE_ROUND, 0, 50);
    assert_eq!(results.len(), 2);
    assert_eq!(results.samples(0).len(), 1);
    assert_eq!(results.samples(1).len(), 1);
}

#[test]
fn defaults() {
    assert_eq!(DEFAULT_LOWER_BOUND, 0);
    assert_eq!(DEFAULT_UPPER_BOUND, 10_000_000);
    assert_eq!(SINGLE_ROUND, 1);
    assert_eq!(REPEATED_ROUNDS, 100);
    assert_eq!(NANOS_PER_SECOND, 1_000_000_000);
}

#[test]
fn seconds_have_nine_digits_after_the_point() {
    assert_eq!(format_seconds(0), "0.000000000");
    assert_eq!(format_seconds(1), "0.000000001");
    assert_eq!(format_seconds(999_999_999), "0.999999999");
    assert_eq!(format_seconds(1_000_000_000), "1.000000000");
    assert_eq!(format_seconds(1_500_000_000), "1.500000000");
    assert_eq!(format_seconds(45_123_456), "0.045123456");
    assert_eq!(format_seconds(12_345_678_901_234), "12345.678901234");
    assert_eq!(
        format_seconds(u128::MAX),
        "340282366920938463463374607431.768211455"
    );
}

#[test]
fn csv_line_holds_the_name_and_the_samples_in_order() {
    assert_eq!(csv_line("brute_fizzbuzz", &vec![]), "brute_fizzbuzz");
    assert_eq!(csv_line("doof_fizzbuzz", &vec![1_500_000_000]), "doof_fizzbuzz,1.500000000");
    assert_eq!(
        csv_line("x", &vec![2_000_000_000, 1, 45_123_456]),
        "x,2.000000000,0.000000001,0.045123456"
    );
}

#[test]
fn timing_line_for_a_single_round() {
    assert_eq!(timing_line("brute_fizzbuzz", 45_123_456), "brute_fizzbuzz ran in 0.045123456s");
    assert_eq!(timing_line("x", 3_000_000_000), "x ran in 3.000000000s");
}

#[test]
fn report_has_a_line_for_each_candidate_in_order() {
    let list = vec![Candidate::Matchbox, Candidate::Brute, Candidate::Doof];
    let mut results = ResultSet::new(3);
    results.record(0, 1_000_000);
    results.record(0, 2_000_000);
    results.record(1, 3_000_000_000);
    results.record(1, 4);
    results.record(2, 5);
    results.record(2, 6_000_000_006);
    let lines = report(&list, &results);
    assert_eq!(
        lines,
        vec![
            "matchbox_fizzbuzz,0.001000000,0.002000000".to_string(),
            "brute_fizzbuzz,3.000000000,0.000000004".to_string(),
            "doof_fizzbuzz,0.000000005,6.000000006".to_string(),
        ]
    );
}

#[test]
fn report_of_a_run_has_one_field_for_each_round() {
    let list = registry();
    let results = run(&list, 4, 0, 100);
    let lines = report(&list, &results);
    assert_eq!(lines.len(), 11);
    for (idx, line) in lines.iter().enumerate() {
        let fields: Vec<&str> = line.split(',').collect();
        assert_eq!(fields.len(), 5);
        assert_eq!(fields[0], list[idx].name());
        for field in &fields[1..] {
            let (whole, rest) = field.split_once('.').unwrap();
            assert!(!whole.is_empty() && whole.bytes().all(|b| b.is_ascii_digit()));
            assert_eq!(rest.len(), 9);
            assert!(rest.bytes().all(|b| b.is_ascii_digit()));
        }
    }
}
