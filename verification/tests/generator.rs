use std::collections::HashSet;

use mediaserver::random_string_generator::StringGenerator;

#[test]
fn random_strings_have_exactly_the_requested_length() {
    for &length in &[0usize, 1, 12, 128] {
        let gen = StringGenerator::Random {
            length,
            max_attempts_before_grow: 32,
        };
        let s = gen.generate();
        assert_eq!(s.chars().count(), length);
        assert!(s.chars().all(|c| c.is_ascii_alphanumeric()));
    }
}

#[test]
fn uuid_strings_are_canonical_v4() {
    let gen = StringGenerator::Uuid;
    let s = gen.generate();
    let chars: Vec<char> = s.chars().collect();
    assert_eq!(chars.len(), 36);
    for (i, c) in chars.iter().enumerate() {
        if i == 8 || i == 13 || i == 18 || i == 23 {
            assert_eq!(*c, '-');
        } else {
            assert!(c.is_ascii_hexdigit() && !c.is_ascii_uppercase());
        }
    }
    assert_eq!(chars[14], '4');
}

#[test]
fn ten_thousand_uuids_have_no_duplicates() {
    let gen = StringGenerator::Uuid;
    let mut seen: HashSet<String> = HashSet::new();
    for _ in 0..10_000 {
        assert!(seen.insert(gen.generate()));
    }
}

#[test]
fn max_attempts_before_grow_reads_the_random_parameter() {
    let gen = StringGenerator::Random {
        length: 3,
        max_attempts_before_grow: 17,
    };
    assert_eq!(gen.max_attempts_before_grow(), 17);
    assert_eq!(StringGenerator::Uuid.max_attempts_before_grow(), 0);
}

#[test]
fn default_generator_is_random_with_stock_tolerance() {
    assert_eq!(StringGenerator::default_max_attempts_before_grow(), 32);
    match StringGenerator::default() {
        StringGenerator::Random {
            length,
            max_attempts_before_grow,
        } => {
            assert_eq!(length, 12);
            assert_eq!(max_attempts_before_grow, 32);
        }
        StringGenerator::Uuid => panic!("default generator should be Random"),
    }
}
