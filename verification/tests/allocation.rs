use mediaserver::allocation::RetryState;
use mediaserver::random_string_generator::StringGenerator;
use mediaserver::allocation::simulate_allocation;

#[test]
fn empty_directory_allocates_on_first_attempt() {
    for &(length, max) in &[(1usize, 0u32), (1, 32), (5, 3), (12, 32), (100, 1)] {
        let gen = StringGenerator::Random {
            length,
            max_attempts_before_grow: max,
        };
        let (attempts, state) = simulate_allocation(&gen, 0);
        assert_eq!(attempts, 1);
        assert_eq!(state.length, length);
        assert_eq!(state.attempts, 0);
    }
}

#[test]
fn escalation_boundary_is_strictly_greater() {
    // With tolerance 3 and starting length 1: three collisions leave the
    // length alone, the fourth (attempts > 3) grows it.
    let gen = StringGenerator::Random {
        length: 1,
        max_attempts_before_grow: 3,
    };
    let (attempts, state) = simulate_allocation(&gen, 3);
    assert_eq!(attempts, 4);
    assert_eq!(state, RetryState { length: 1, attempts: 3 });

    let (attempts, state) = simulate_allocation(&gen, 4);
    assert_eq!(attempts, 5);
    assert_eq!(state, RetryState { length: 2, attempts: 0 });
}

#[test]
fn escalation_keeps_counting_at_the_longer_length() {
    let gen = StringGenerator::Random {
        length: 1,
        max_attempts_before_grow: 3,
    };
    let (attempts, state) = simulate_allocation(&gen, 5);
    assert_eq!(attempts, 6);
    assert_eq!(state, RetryState { length: 2, attempts: 1 });
}

#[test]
fn zero_tolerance_grows_on_every_collision() {
    let gen = StringGenerator::Random {
        length: 1,
        max_attempts_before_grow: 0,
    };
    let (attempts, state) = simulate_allocation(&gen, 3);
    assert_eq!(attempts, 4);
    assert_eq!(state, RetryState { length: 4, attempts: 0 });
}

#[test]
fn after_collision_steps_one_at_a_time() {
    let s = RetryState { length: 1, attempts: 2 };
    assert_eq!(s.after_collision(3), RetryState { length: 1, attempts: 3 });
    let s = RetryState { length: 1, attempts: 3 };
    assert_eq!(s.after_collision(3), RetryState { length: 2, attempts: 0 });
}

#[test]
fn initial_retry_state_starts_at_configured_length() {
    let gen = StringGenerator::Random {
        length: 7,
        max_attempts_before_grow: 9,
    };
    assert_eq!(
        gen.initial_retry_state(),
        RetryState { length: 7, attempts: 0 }
    );
}
