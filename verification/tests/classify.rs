use fizzbuzz_bench::candidates::{
    accumulate_fizzbuzz, bitaccumulate_fizzbuzz, branchful_fizzbuzz, branchless_fizzbuzz,
    brute_fizzbuzz, compositional_fizzbuzz, doof_fizzbuzz, matchbox_fizzbuzz,
    smartbranchless_fizzbuzz, tuple_match_fizzbuzz, worsebrute_fizzbuzz,
};
use fizzbuzz_bench::registry::{registry, Candidate, CANDIDATE_COUNT};

type FizzBuzzFn = fn(u32) -> String;

const ALL_FIZZBUZZS: [FizzBuzzFn; 11] = [
    brute_fizzbuzz,
    worsebrute_fizzbuzz,
    accumulate_fizzbuzz,
    compositional_fizzbuzz,
    bitaccumulate_fizzbuzz,
    matchbox_fizzbuzz,
    branchless_fizzbuzz,
    smartbranchless_fizzbuzz,
    branchful_fizzbuzz,
    doof_fizzbuzz,
    tuple_match_fizzbuzz,
];

const ALL_FIZZBUZZ_NAMES: [&str; 11] = [
    "brute_fizzbuzz",
    "worsebrute_fizzbuzz",
    "accumulate_fizzbuzz",
    "compositional_fizzbuzz",
    "bitaccumulate_fizzbuzz",
    "matchbox_fizzbuzz",
    "branchless_fizzbuzz",
    "smartbranchless_fizzbuzz",
    "branchful_fizzbuzz",
    "doof_fizzbuzz",
    "tuple_match_fizzbuzz",
];

const TEST_NUMS: [u32; 14] = [3, 9, 12, 5, 10, 20, 15, 30, 45, 1, 2, 7, 11, 22];
const TEST_ANSWER: [&str; 14] = [
    "Fizz", "Fizz", "Fizz", "Buzz", "Buzz", "Buzz", "FizzBuzz", "FizzBuzz", "FizzBuzz", "1",
    "2", "7", "11", "22",
];

/// The label, computed independently of the library.
fn expected(n: u32) -> String {
    let three = n % 3 == 0;
    let five = n % 5 == 0;
    if three && five {
        "FizzBuzz".to_string()
    } else if three {
        "Fizz".to_string()
    } else if five {
        "Buzz".to_string()
    } else {
        format!("{}", n)
    }
}

#[test]
fn test_all_fizzbuzz() {
    for fizzbuzz in ALL_FIZZBUZZS {
        for (idx, num) in TEST_NUMS.iter().enumerate() {
            assert_eq!(fizzbuzz(*num), TEST_ANSWER[idx]);
        }
    }
}

#[test]
fn test_compare_fizzbuzz() {
    for idx in 0..(ALL_FIZZBUZZS.len() - 1) {
        for num in 1..500 {
            assert_eq!(ALL_FIZZBUZZS[idx](num), ALL_FIZZBUZZS[idx + 1](num));
        }
    }
}

#[test]
fn seed_values_for_every_candidate() {
    let seeds: [(u32, &str); 10] = [
        (3, "Fizz"),
        (5, "Buzz"),
        (15, "FizzBuzz"),
        (30, "FizzBuzz"),
        (1, "1"),
        (22, "22"),
        (9, "Fizz"),
        (10, "Buzz"),
        (45, "FizzBuzz"),
        (7, "7"),
    ];
    for candidate in registry() {
        for (num, answer) in seeds {
            assert_eq!(candidate.classify(num), answer, "{} on {}", candidate.name(), num);
        }
    }
}

#[test]
fn fizzbuzz_exactly_on_multiples_of_fifteen() {
    for candidate in registry() {
        for num in 0..2000u32 {
            assert_eq!(candidate.classify(num) == "FizzBuzz", num % 15 == 0);
        }
    }
}

#[test]
fn fizz_exactly_on_multiples_of_three_alone() {
    for candidate in registry() {
        for num in 0..2000u32 {
            assert_eq!(candidate.classify(num) == "Fizz", num % 3 == 0 && num % 5 != 0);
        }
    }
}

#[test]
fn buzz_exactly_on_multiples_of_five_alone() {
    for candidate in registry() {
        for num in 0..2000u32 {
            assert_eq!(candidate.classify(num) == "Buzz", num % 5 == 0 && num % 3 != 0);
        }
    }
}

#[test]
fn number_itself_where_neither_divides() {
    for candidate in registry() {
        for num in 0..2000u32 {
            if num % 3 != 0 && num % 5 != 0 {
                assert_eq!(candidate.classify(num), format!("{}", num));
            }
        }
    }
}

#[test]
fn every_pair_of_candidates_agrees() {
    let list = registry();
    for a in &list {
        for b in &list {
            for num in 0..500u32 {
                assert_eq!(a.classify(num), b.classify(num));
            }
        }
    }
}

#[test]
fn zero_is_a_multiple_of_fifteen() {
    for fizzbuzz in ALL_FIZZBUZZS {
        assert_eq!(fizzbuzz(0), "FizzBuzz");
    }
}

#[test]
fn largest_inputs() {
    for fizzbuzz in ALL_FIZZBUZZS {
        assert_eq!(fizzbuzz(u32::MAX), "FizzBuzz");
        assert_eq!(fizzbuzz(u32::MAX - 1), "4294967294");
        assert_eq!(fizzbuzz(u32::MAX - 2), "4294967293");
        assert_eq!(fizzbuzz(u32::MAX - 3), "Fizz");
        assert_eq!(fizzbuzz(u32::MAX - 5), "Buzz");
    }
}

#[test]
fn numbers_near_a_change_of_length() {
    for fizzbuzz in ALL_FIZZBUZZS {
        assert_eq!(fizzbuzz(98), "98");
        assert_eq!(fizzbuzz(99), "Fizz");
        assert_eq!(fizzbuzz(100), "Buzz");
        assert_eq!(fizzbuzz(101), "101");
        assert_eq!(fizzbuzz(1_000_003), "1000003");
    }
}

#[test]
fn candidates_match_an_independent_label() {
    for fizzbuzz in ALL_FIZZBUZZS {
        for num in (0..3_000_000u32).step_by(9973) {
            assert_eq!(fizzbuzz(num), expected(num));
        }
    }
}

#[test]
fn registry_holds_the_candidates_in_order() {
    let list = registry();
    assert_eq!(list.len(), CANDIDATE_COUNT);
    assert_eq!(list.len(), 11);
    for (idx, candidate) in list.iter().enumerate() {
        assert_eq!(candidate.name(), ALL_FIZZBUZZ_NAMES[idx]);
    }
    assert_eq!(list[0], Candidate::Brute);
    assert_eq!(list[3], Candidate::Compositional);
    assert_eq!(list[4], Candidate::BitAccumulate);
    assert_eq!(list[10], Candidate::TupleMatch);
}

#[test]
fn registry_is_the_same_at_every_call() {
    assert_eq!(registry(), registry());
}

#[test]
fn classify_runs_the_function_of_that_name() {
    let list = registry();
    for (idx, candidate) in list.iter().enumerate() {
        for num in 0..200u32 {
            assert_eq!(candidate.classify(num), ALL_FIZZBUZZS[idx](num));
        }
    }
}

#[test]
fn names_are_distinct_and_hold_no_comma() {
    let list = registry();
    for (i, a) in list.iter().enumerate() {
        assert!(!a.name().contains(','));
        for (j, b) in list.iter().enumerate() {
            assert_eq!(a.name() == b.name(), i == j);
        }
    }
}
