//! Candidate short-key generation: a closed set of strategies, exhaustively
//! matched.
//!
//! The random strategy draws a fixed-length key from the alphanumeric
//! alphabet. The suggestion strategies consult an external source; the
//! consultation itself is network work done by the surrounding application,
//! which hands the outcome back to `generate_with_suggestion`. Every
//! decision — when to consult, what to do with the outcome, when to fall
//! back — is made here.

use vstd::prelude::*;

use crate::config::Config;
use crate::validation::{is_ascii_alnum_char, valid_short_key};

verus! {

/// Length of a randomly generated short key.
pub const RANDOM_KEY_LEN: usize = 8;

/// Number of prior rejections at which the fallback strategy stops
/// consulting the external source and switches to random generation.
pub const FALLBACK_REJECTION_THRESHOLD: usize = 2;

/// A randomly generated key: fixed length, alphanumeric characters only.
pub open spec fn random_style_key(s: Seq<char>) -> bool {
    &&& s.len() == RANDOM_KEY_LEN
    &&& forall|i: int| 0 <= i < s.len() ==> is_ascii_alnum_char(s[i])
}

/// A random-style key is a well-formed short key: its fixed length lies
/// within the accepted bound, and letters and digits are accepted
/// characters.
pub proof fn lemma_random_style_key_is_valid(s: Seq<char>)
    requires
        random_style_key(s),
    ensures
        valid_short_key(s),
{
}

/// Relies on `rand::distr::Alphanumeric` (sampled with the thread-local
/// generator): every sample is one of the 62 ASCII letters and digits.
#[verifier::external_body]
fn random_alnum_byte() -> (b: u8)
    ensures
        is_ascii_alnum_char(b as char),
{
    <rand::rngs::ThreadRng as rand::RngExt>::sample(&mut rand::rng(), rand::distr::Alphanumeric)
}

/// Relies on `String::push`: appends exactly the given character.
#[verifier::external_body]
fn push_char(s: &mut String, c: char)
    ensures
        final(s)@ == old(s)@.push(c),
{
    s.push(c);
}

/// Draws a fresh candidate key from the alphanumeric alphabet. The result
/// is always a well-formed short key.
pub fn random_short_key() -> (key: String)
    ensures
        random_style_key(key@),
        valid_short_key(key@),
{
    let mut key = String::new();
    let mut i: usize = 0;
    while i < RANDOM_KEY_LEN
        invariant
            0 <= i <= RANDOM_KEY_LEN,
            key@.len() == i,
            forall|j: int| 0 <= j < i ==> is_ascii_alnum_char(key@[j]),
        decreases RANDOM_KEY_LEN - i,
    {
        let b = random_alnum_byte();
        push_char(&mut key, b as char);
        i += 1;
    }
    key
}

/// The strategy producing short-key candidates, chosen once at startup.
pub enum LinkGenerator {
    /// Uniform random keys; needs no external source.
    Random,
    /// An external suggestion source, addressed with the held token;
    /// yields no candidate when the source fails.
    OpenrouterLlama(String),
    /// The suggestion source with a random fallback: a failed consultation
    /// falls back to a random key, and once the rejections reach
    /// `FALLBACK_REJECTION_THRESHOLD` the source is no longer consulted.
    OpenrouterLlamaWithFallback(String),
}

impl LinkGenerator {
    /// Whether this strategy consults the external suggestion source when
    /// `rejected_count` candidates have been rejected so far.
    pub open spec fn spec_wants_suggestion(self, rejected_count: int) -> bool {
        match self {
            LinkGenerator::Random => false,
            LinkGenerator::OpenrouterLlama(_) => true,
            LinkGenerator::OpenrouterLlamaWithFallback(_) => rejected_count
                < FALLBACK_REJECTION_THRESHOLD,
        }
    }

    /// Decides whether the external suggestion source is to be consulted
    /// for the next candidate. The caller performs the consultation and
    /// hands the outcome to `generate_with_suggestion`.
    pub fn wants_suggestion(&self, rejected_count: usize) -> (b: bool)
        ensures
            b == self.spec_wants_suggestion(rejected_count as int),
    {
        match self {
            LinkGenerator::Random => false,
            LinkGenerator::OpenrouterLlama(_) => true,
            LinkGenerator::OpenrouterLlamaWithFallback(_) => rejected_count
                < FALLBACK_REJECTION_THRESHOLD,
        }
    }

    /// Turns the outcome of a consultation of the external source (or
    /// `None`, where none was made or it failed) into this strategy's
    /// candidate. Only the plain suggestion strategy can yield no
    /// candidate; the others produce a random key where needed.
    pub fn generate_with_suggestion(&self, suggestion: Option<String>) -> (candidate: Option<
        String,
    >)
        ensures
            self is Random ==> candidate is Some && random_style_key(candidate->0@),
            self is OpenrouterLlama ==> candidate == suggestion,
            self is OpenrouterLlamaWithFallback ==> match suggestion {
                Some(s) => candidate == Some(s),
                None => candidate is Some && random_style_key(candidate->0@),
            },
    {
        match self {
            LinkGenerator::Random => Some(random_short_key()),
            LinkGenerator::OpenrouterLlama(_) => suggestion,
            LinkGenerator::OpenrouterLlamaWithFallback(_) => match suggestion {
                Some(s) => Some(s),
                None => Some(random_short_key()),
            },
        }
    }

    /// Produces a candidate without consulting the external suggestion
    /// source (the surrounding application drives consultations): a
    /// consultation here yields nothing, so the plain suggestion strategy
    /// produces no candidate and the fallback strategy falls back to a
    /// random key.
    pub fn generate(&self, _full_link: &str, _bad_attempts: &Vec<String>) -> (candidate: Option<
        String,
    >)
        ensures
            self is Random ==> candidate is Some && random_style_key(candidate->0@),
            self is OpenrouterLlama ==> candidate is None,
            self is OpenrouterLlamaWithFallback ==> candidate is Some && random_style_key(
                candidate->0@,
            ),
    {
        self.generate_with_suggestion(None)
    }

    /// Chooses the strategy from the configuration: the suggestion source
    /// with fallback where a token is configured, plain random otherwise.
    pub fn from_config(config: &Config) -> (r: Self)
        ensures
            match config.openrouter_token {
                Some(token) => r == LinkGenerator::OpenrouterLlamaWithFallback(token),
                None => r == LinkGenerator::Random,
            },
    {
        match &config.openrouter_token {
            Some(token) => LinkGenerator::OpenrouterLlamaWithFallback(token.clone()),
            None => LinkGenerator::Random,
        }
    }
}

} // verus!
