//! The collision-retry state of a file allocation.
//!
//! Reserving a unique path is a loop: generate a candidate name, try to
//! create the file exclusively, and on a name collision retry, growing the
//! candidate length once the collisions exceed the configured tolerance.
//! The exclusive create itself is filesystem work performed by the caller;
//! everything the loop decides — the working length, the collision counter
//! and the escalation boundary — lives here and is verified.

use vstd::prelude::*;

use crate::random_string_generator::StringGenerator;

verus! {

/// The caller's working state inside one allocation: the current candidate
/// length and how many collisions happened at that length.
#[derive(Debug, Clone, Copy, PartialEq, Eq, Structural)]
pub struct RetryState {
    pub length: usize,
    pub attempts: u32,
}

/// One collision step: the counter grows, and once it exceeds
/// `max_attempts_before_grow` the candidate length is bumped by 1 and the
/// counter resets. The boundary is strict: exactly `max + 1` collisions at a
/// given length trigger the growth.
pub open spec fn spec_after_collision(s: RetryState, max_attempts_before_grow: u32) -> RetryState {
    if s.attempts + 1 > max_attempts_before_grow {
        RetryState { length: (s.length + 1) as usize, attempts: 0 }
    } else {
        RetryState { length: s.length, attempts: (s.attempts + 1) as u32 }
    }
}

/// The state after `n` consecutive collisions.
pub open spec fn spec_after_collisions(
    s: RetryState,
    n: nat,
    max_attempts_before_grow: u32,
) -> RetryState
    decreases n,
{
    if n == 0 {
        s
    } else {
        spec_after_collision(
            spec_after_collisions(s, (n - 1) as nat, max_attempts_before_grow),
            max_attempts_before_grow,
        )
    }
}

impl StringGenerator {
    /// The working state a fresh allocation starts from: the configured
    /// length, with no collisions seen yet.
    pub fn initial_retry_state(&self) -> (r: RetryState)
        requires
            self is Random,
        ensures
            self matches StringGenerator::Random { length, .. } ==> r == (RetryState {
                length: *length,
                attempts: 0u32,
            }),
    {
        match self {
            StringGenerator::Random { length, max_attempts_before_grow: _ } => RetryState {
                length: *length,
                attempts: 0,
            },
            StringGenerator::Uuid => RetryState { length: 0, attempts: 0 },
        }
    }
}

impl RetryState {
    /// Advances the state after the exclusive create failed because the
    /// candidate path already existed. Name collisions are the expected,
    /// handled branch of the loop, never an error.
    pub fn after_collision(self, max_attempts_before_grow: u32) -> (r: RetryState)
        requires
            self.attempts < u32::MAX,
            self.length < usize::MAX,
        ensures
            r == spec_after_collision(self, max_attempts_before_grow),
    {
        if self.attempts + 1 > max_attempts_before_grow {
            RetryState { length: self.length + 1, attempts: 0 }
        } else {
            RetryState { length: self.length, attempts: self.attempts + 1 }
        }
    }
}

/// Runs the allocation loop's decision logic against a directory that
/// yields exactly `collisions` consecutive name collisions and then lets the
/// exclusive create succeed. Returns the total number of attempts made and
/// the state the successful attempt was made in.
///
/// The real allocation differs only in where the collision answer comes
/// from: the filesystem instead of a count.
pub fn simulate_allocation(gen: &StringGenerator, collisions: u32) -> (r: (u32, RetryState))
    requires
        gen is Random,
        collisions < u32::MAX,
        gen matches StringGenerator::Random { length, .. } ==> length + collisions < usize::MAX,
    ensures
        r.0 == collisions + 1,
        gen matches StringGenerator::Random { length, max_attempts_before_grow } ==> r.1
            == spec_after_collisions(
            RetryState { length: *length, attempts: 0u32 },
            collisions as nat,
            *max_attempts_before_grow,
        ),
{
    let max: u32 = gen.max_attempts_before_grow();
    let mut state: RetryState = gen.initial_retry_state();
    let mut seen: u32 = 0;
    let ghost init = state;
    while seen < collisions
        invariant
            gen matches StringGenerator::Random { length, max_attempts_before_grow } ==> {
                &&& max == *max_attempts_before_grow
                &&& init == (RetryState { length: *length, attempts: 0u32 })
                &&& *length + collisions < usize::MAX
            },
            gen is Random,
            seen <= collisions,
            state == spec_after_collisions(init, seen as nat, max),
            state.length <= init.length + seen,
            state.attempts <= seen,
        decreases collisions - seen,
    {
        state = state.after_collision(max);
        seen = seen + 1;
    }
    (collisions + 1, state)
}

/// With no pre-existing collisions — an empty directory — the allocation
/// loop succeeds on its very first attempt, at the configured length.
pub proof fn lemma_empty_directory_first_attempt(length: usize, max_attempts_before_grow: u32)
    ensures
        spec_after_collisions(
            RetryState { length, attempts: 0u32 },
            0,
            max_attempts_before_grow,
        ) == (RetryState { length, attempts: 0u32 }),
{
}

/// While the collision count stays within the tolerance, the length does
/// not move: after `n <= max` collisions the state is exactly
/// `{ length, attempts: n }`.
pub proof fn lemma_within_tolerance_no_growth(length: usize, n: nat, max_attempts_before_grow: u32)
    requires
        n <= max_attempts_before_grow,
        length < usize::MAX,
    ensures
        spec_after_collisions(RetryState { length, attempts: 0u32 }, n, max_attempts_before_grow)
            == (RetryState { length, attempts: n as u32 }),
    decreases n,
{
    if n > 0 {
        lemma_within_tolerance_no_growth(length, (n - 1) as nat, max_attempts_before_grow);
    }
}

/// The escalation boundary is exact: `max + 1` collisions — one more than
/// the tolerance, `attempts > max`, not `attempts >= max` — grow the length
/// by exactly 1 and reset the counter, while `max` collisions leave the
/// length untouched.
pub proof fn lemma_escalation_boundary(length: usize, max_attempts_before_grow: u32)
    requires
        length < usize::MAX,
    ensures
        spec_after_collisions(
            RetryState { length, attempts: 0u32 },
            max_attempts_before_grow as nat,
            max_attempts_before_grow,
        ) == (RetryState { length, attempts: max_attempts_before_grow }),
        spec_after_collisions(
            RetryState { length, attempts: 0u32 },
            max_attempts_before_grow as nat + 1,
            max_attempts_before_grow,
        ) == (RetryState { length: (length + 1) as usize, attempts: 0u32 }),
{
    lemma_within_tolerance_no_growth(
        length,
        max_attempts_before_grow as nat,
        max_attempts_before_grow,
    );
}

} // verus!
