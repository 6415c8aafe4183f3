//! Candidate file-name generation: random alphanumeric strings with a
//! configurable length, or canonical v4 UUID strings.

use rand::Rng;
use vstd::prelude::*;

verus! {

/// How many collisions an allocation tolerates before the candidate name
/// grows by one character, when a namespace does not configure its own.
pub const DEFAULT_MAX_ATTEMPTS_BEFORE_GROW: u32 = 32;

/// True for the 62 ASCII alphanumeric characters.
pub open spec fn is_alphanumeric_char(c: char) -> bool {
    (48 <= c as u32 && c as u32 <= 57)  // '0' ..= '9'
    || (65 <= c as u32 && c as u32 <= 90)  // 'A' ..= 'Z'
    || (97 <= c as u32 && c as u32 <= 122)  // 'a' ..= 'z'
}

/// True for a lowercase hexadecimal digit.
pub open spec fn is_lower_hex_char(c: char) -> bool {
    (48 <= c as u32 && c as u32 <= 57)  // '0' ..= '9'
    || (97 <= c as u32 && c as u32 <= 102)  // 'a' ..= 'f'
}

/// The canonical hyphenated UUID form: 36 characters, hyphens at
/// positions 8, 13, 18 and 23, lowercase hex digits everywhere else,
/// and the version nibble set to 4.
pub open spec fn is_uuid_v4_string(s: Seq<char>) -> bool {
    &&& s.len() == 36
    &&& forall|i: int|
        0 <= i < 36 ==> if i == 8 || i == 13 || i == 18 || i == 23 {
            s[i] == '-'
        } else {
            is_lower_hex_char(#[trigger] s[i])
        }
    &&& s[14] == '4'
}

/// Relies on `rand::rng` sampling `rand::distr::Alphanumeric`: each sampled
/// byte is one of the 62 ASCII alphanumeric characters, and `take(length)`
/// yields exactly `length` of them. Nothing is assumed about which
/// characters come out.
#[verifier::external_body]
fn random_alphanumeric(length: usize) -> (r: String)
    ensures
        r@.len() == length,
        forall|i: int| 0 <= i < r@.len() ==> is_alphanumeric_char(#[trigger] r@[i]),
{
    rand::rng()
        .sample_iter(&rand::distr::Alphanumeric)
        .take(length)
        .map(char::from)
        .collect()
}

/// Relies on `uuid::Uuid::new_v4` and its `Display` impl: the result is the
/// canonical hyphenated lowercase form of a version-4 UUID. Nothing is
/// assumed about which UUID comes out.
#[verifier::external_body]
fn uuid_v4_string() -> (r: String)
    ensures
        is_uuid_v4_string(r@),
{
    uuid::Uuid::new_v4().to_string()
}

/// Strategy for producing candidate file base-names. The variant and its
/// parameters are fixed per namespace; only the caller's working length
/// mutates across retries of a single allocation.
#[derive(Debug)]
pub enum StringGenerator {
    /// Generates an alphanumeric string of the given length.
    Random {
        length: usize,
        /// How many collisions to retry before bumping `length` by 1.
        max_attempts_before_grow: u32,
    },
    /// Generates a new v4 UUID.
    Uuid,
}

impl StringGenerator {
    /// The fallback for `max_attempts_before_grow` when a configuration
    /// leaves it unset.
    pub fn default_max_attempts_before_grow() -> (r: u32)
        ensures
            r == DEFAULT_MAX_ATTEMPTS_BEFORE_GROW,
    {
        DEFAULT_MAX_ATTEMPTS_BEFORE_GROW
    }

    /// Produces one candidate base-name: an alphanumeric string of exactly
    /// the configured length for `Random`, a canonical v4 UUID string for
    /// `Uuid`.
    pub fn generate(&self) -> (r: String)
        ensures
            self matches StringGenerator::Random { length, .. } ==> {
                &&& r@.len() == length
                &&& forall|i: int| 0 <= i < r@.len() ==> is_alphanumeric_char(#[trigger] r@[i])
            },
            self is Uuid ==> is_uuid_v4_string(r@),
    {
        match *self {
            StringGenerator::Random { length, max_attempts_before_grow: _ } => {
                random_alphanumeric(length)
            },
            StringGenerator::Uuid => uuid_v4_string(),
        }
    }

    /// How many collisions this generator tolerates before the caller grows
    /// the working length; a `Uuid` generator never retries, so it reports 0.
    pub fn max_attempts_before_grow(&self) -> (r: u32)
        ensures
            r == self.spec_max_attempts_before_grow(),
    {
        match self {
            StringGenerator::Random { length: _, max_attempts_before_grow } => {
                *max_attempts_before_grow
            },
            StringGenerator::Uuid => 0,
        }
    }

    pub open spec fn spec_max_attempts_before_grow(&self) -> u32 {
        match self {
            StringGenerator::Random { length: _, max_attempts_before_grow } => {
                *max_attempts_before_grow
            },
            StringGenerator::Uuid => 0,
        }
    }
}

impl Default for StringGenerator {
    /// A random generator of length 12 with the fallback retry tolerance.
    fn default() -> (r: Self)
        ensures
            r == (StringGenerator::Random {
                length: 12usize,
                max_attempts_before_grow: DEFAULT_MAX_ATTEMPTS_BEFORE_GROW,
            }),
    {
        StringGenerator::Random {
            length: 12,
            max_attempts_before_grow: StringGenerator::default_max_attempts_before_grow(),
        }
    }
}

} // verus!
