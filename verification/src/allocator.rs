//! The allocation pipeline: validate the target URL, then repeatedly
//! propose a candidate key, validate its format and try to reserve it
//! atomically, within a fixed attempt budget.

use vstd::prelude::*;

use crate::link_generator::{lemma_random_style_key_is_valid, random_style_key, LinkGenerator};
use crate::storage::{insert_if_absent_succeeds, Storage};
use crate::validation::{is_valid_short_link, is_valid_url, url_well_formed, valid_short_key};

verus! {

/// Total attempt budget of one allocation call.
pub const MAX_ATTEMPTS: usize = 3;

/// Why an allocation failed: the target URL was rejected (a client
/// error), or the attempt budget ran out without a successful
/// reservation (a capacity or contention error).
#[derive(Debug, PartialEq, Eq, Structural)]
pub enum AllocationError {
    InvalidInput,
    Exhausted,
}

/// The ephemeral state of one in-flight allocation call: the target URL,
/// the candidates rejected so far in order, and the attempts left.
pub struct AllocationAttempt {
    pub target: String,
    pub rejected_keys: Vec<String>,
    pub attempts_remaining: usize,
}

impl AllocationAttempt {
    /// A fresh attempt for `target` with the given budget.
    pub fn new(target: String, attempt_budget: usize) -> (a: Self)
        ensures
            a.target == target,
            a.rejected_keys@ == Seq::<String>::empty(),
            a.attempts_remaining == attempt_budget,
    {
        AllocationAttempt { target, rejected_keys: Vec::new(), attempts_remaining: attempt_budget }
    }

    /// Whether the attempt budget has run out.
    pub fn exhausted(&self) -> (b: bool)
        ensures
            b == (self.attempts_remaining == 0),
    {
        self.attempts_remaining == 0
    }

    /// Takes the generator's output for one attempt. A missing candidate
    /// consumes an attempt; a candidate in bad format is recorded as
    /// rejected and consumes an attempt; a well-formed candidate is handed
    /// back for reservation, consuming nothing yet.
    pub fn offer_candidate(&mut self, candidate: Option<String>) -> (accepted: Option<String>)
        requires
            old(self).attempts_remaining > 0,
        ensures
            final(self).target == old(self).target,
            match candidate {
                None => {
                    &&& accepted is None
                    &&& final(self).rejected_keys == old(self).rejected_keys
                    &&& final(self).attempts_remaining == old(self).attempts_remaining - 1
                },
                Some(c) => if valid_short_key(c@) {
                    &&& accepted == Some(c)
                    &&& *final(self) == *old(self)
                } else {
                    &&& accepted is None
                    &&& final(self).rejected_keys@ == old(self).rejected_keys@.push(c)
                    &&& final(self).attempts_remaining == old(self).attempts_remaining - 1
                },
            },
    {
        match candidate {
            None => {
                self.attempts_remaining = self.attempts_remaining - 1;
                None
            },
            Some(c) => {
                if is_valid_short_link(c.as_str()) {
                    Some(c)
                } else {
                    self.rejected_keys.push(c);
                    self.attempts_remaining = self.attempts_remaining - 1;
                    None
                }
            },
        }
    }

    /// Records that the store already held the candidate's key: the
    /// candidate joins the rejected list and one attempt is consumed.
    pub fn note_collision(&mut self, candidate: String)
        requires
            old(self).attempts_remaining > 0,
        ensures
            final(self).target == old(self).target,
            final(self).rejected_keys@ == old(self).rejected_keys@.push(candidate),
            final(self).attempts_remaining == old(self).attempts_remaining - 1,
    {
        self.rejected_keys.push(candidate);
        self.attempts_remaining = self.attempts_remaining - 1;
    }
}

/// Allocates a short key for `url` against the in-process store, without
/// consulting the external suggestion source (strategies that want one
/// fall back as `LinkGenerator::generate` describes). A malformed URL is
/// rejected outright; otherwise up to `MAX_ATTEMPTS` candidates are tried
/// and the first one absent from the store is reserved for `url`.
///
/// Success is owed whenever the URL is well-formed, the strategy has a
/// random arm, and the namespace holds no random-style key at all; in
/// general the random draws decide, and exhaustion is possible only when
/// every drawn candidate collides.
pub fn allocate(storage: &mut Storage, generator: &LinkGenerator, url: &str) -> (r: Result<
    String,
    AllocationError,
>)
    ensures
        match r {
            Ok(key) => {
                &&& url_well_formed(url@)
                &&& valid_short_key(key@)
                &&& insert_if_absent_succeeds(old(storage)@, key@)
                &&& final(storage)@ == old(storage)@.insert(key@, url@)
            },
            Err(e) => {
                &&& final(storage)@ == old(storage)@
                &&& (e == AllocationError::InvalidInput <==> !url_well_formed(url@))
            },
        },
        ({
            &&& url_well_formed(url@)
            &&& !(generator is OpenrouterLlama)
            &&& forall|k: Seq<char>| #[trigger] random_style_key(k) ==> !old(
                storage,
            )@.contains_key(k)
        }) ==> r is Ok,
{
    if !is_valid_url(url) {
        return Err(AllocationError::InvalidInput);
    }
    let mut attempt = AllocationAttempt::new(url.to_owned(), MAX_ATTEMPTS);
    while !attempt.exhausted()
        invariant
            url_well_formed(url@),
            storage@ == old(storage)@,
            (!(generator is OpenrouterLlama) && (forall|k: Seq<char>| #[trigger] random_style_key(
                k,
            ) ==> !old(storage)@.contains_key(k))) ==> attempt.attempts_remaining > 0,
        decreases attempt.attempts_remaining,
    {
        let candidate = generator.generate(url, &attempt.rejected_keys);
        proof {
            if candidate is Some && random_style_key(candidate->0@) {
                lemma_random_style_key_is_valid(candidate->0@);
            }
        }
        match attempt.offer_candidate(candidate) {
            None => {},
            Some(key) => {
                let inserted = storage.store(key.clone(), url.to_owned());
                if inserted {
                    return Ok(key);
                }
                attempt.note_collision(key);
            },
        }
    }
    Err(AllocationError::Exhausted)
}

/// Uniqueness law: each successful allocation reserves a key that was
/// absent from the namespace at reservation time, so over any sequence of
/// atomic reservations — in whatever order concurrent calls linearize —
/// the reserved keys are pairwise distinct.
pub proof fn lemma_allocated_keys_distinct(
    states: Seq<Map<Seq<char>, Seq<char>>>,
    keys: Seq<Seq<char>>,
    targets: Seq<Seq<char>>,
)
    requires
        states.len() == keys.len() + 1,
        targets.len() == keys.len(),
        forall|i: int|
            0 <= i < keys.len() ==> #[trigger] insert_if_absent_succeeds(states[i], keys[i])
                && states[i + 1] == states[i].insert(keys[i], targets[i]),
    ensures
        forall|i: int, j: int| 0 <= i < j < keys.len() ==> keys[i] != keys[j],
{
    assert forall|i: int, j: int| 0 <= i < j < keys.len() implies keys[i] != keys[j] by {
        lemma_reserved_key_persists(states, keys, targets, i, j);
        assert(insert_if_absent_succeeds(states[j], keys[j]));
    };
}

/// A key reserved at step `i` is still in the namespace at every later
/// step: reservations only add bindings.
proof fn lemma_reserved_key_persists(
    states: Seq<Map<Seq<char>, Seq<char>>>,
    keys: Seq<Seq<char>>,
    targets: Seq<Seq<char>>,
    i: int,
    m: int,
)
    requires
        states.len() == keys.len() + 1,
        targets.len() == keys.len(),
        forall|i: int|
            0 <= i < keys.len() ==> #[trigger] insert_if_absent_succeeds(states[i], keys[i])
                && states[i + 1] == states[i].insert(keys[i], targets[i]),
        0 <= i < m <= keys.len(),
    ensures
        states[m].contains_key(keys[i]),
    decreases m - i,
{
    if m == i + 1 {
        assert(insert_if_absent_succeeds(states[i], keys[i]));
    } else {
        lemma_reserved_key_persists(states, keys, targets, i, m - 1);
        assert(insert_if_absent_succeeds(states[m - 1], keys[m - 1]));
    }
}

} // verus!
