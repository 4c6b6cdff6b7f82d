//! The local backing of the key store: a process-wide map from short key
//! to target URL, mutated only through the atomic insert-if-absent
//! primitive and read through `fetch`.
//!
//! The store's abstract state is a map from key characters to value
//! characters; `store` and `fetch` are specified against that map. The
//! surrounding application serializes access to a shared `Storage` (many
//! readers, exclusive writers), so the sequential contracts here describe
//! each atomic step of any interleaving.

use vstd::prelude::*;
use vstd::string::StrSliceExecFns;

verus! {

/// Whether an insert-if-absent of `key` succeeds against the state `m`.
pub open spec fn insert_if_absent_succeeds(m: Map<Seq<char>, Seq<char>>, key: Seq<char>) -> bool {
    !m.contains_key(key)
}

/// The state after an insert-if-absent of `key -> value` against `m`:
/// unchanged when the key is present, extended otherwise.
pub open spec fn insert_if_absent_result(
    m: Map<Seq<char>, Seq<char>>,
    key: Seq<char>,
    value: Seq<char>,
) -> Map<Seq<char>, Seq<char>> {
    if m.contains_key(key) {
        m
    } else {
        m.insert(key, value)
    }
}

/// What a read of `key` returns against the state `m`.
pub open spec fn fetch_result(m: Map<Seq<char>, Seq<char>>, key: Seq<char>) -> Option<Seq<char>> {
    if m.contains_key(key) {
        Some(m[key])
    } else {
        None
    }
}

/// First-writer-wins law: after a key is reserved with a value, a second
/// insert-if-absent of the same key with another value is rejected,
/// changes nothing, and the original value remains the one read back.
pub proof fn lemma_first_insert_wins(
    m: Map<Seq<char>, Seq<char>>,
    key: Seq<char>,
    first: Seq<char>,
    second: Seq<char>,
)
    requires
        insert_if_absent_succeeds(m, key),
        first != second,
    ensures
        ({
            let m1 = insert_if_absent_result(m, key, first);
            &&& !insert_if_absent_succeeds(m1, key)
            &&& insert_if_absent_result(m1, key, second) == m1
            &&& fetch_result(m1, key) == Some(first)
        }),
{
}

/// Round-trip law: a successful reservation of a key for a target makes
/// the key resolve to exactly that target, and it stays so while the
/// state is unchanged (this local backing never expires entries).
pub proof fn lemma_reserve_then_fetch(
    m: Map<Seq<char>, Seq<char>>,
    key: Seq<char>,
    target: Seq<char>,
)
    requires
        insert_if_absent_succeeds(m, key),
    ensures
        fetch_result(insert_if_absent_result(m, key, target), key) == Some(target),
{
}

/// Round-trip persistence law: once a key is bound to a target, any
/// sequence of further insert-if-absent steps — the only mutation the
/// store offers, in whatever order concurrent calls linearize — leaves
/// the binding intact, so the key still resolves to that target. (This
/// local backing never expires entries; the networked backing bounds the
/// binding's life by its expiration instead.)
pub proof fn lemma_binding_persists(
    states: Seq<Map<Seq<char>, Seq<char>>>,
    keys: Seq<Seq<char>>,
    values: Seq<Seq<char>>,
    key: Seq<char>,
    target: Seq<char>,
)
    requires
        states.len() == keys.len() + 1,
        values.len() == keys.len(),
        states[0].contains_key(key),
        states[0][key] == target,
        forall|i: int|
            0 <= i < keys.len() ==> states[i + 1] == #[trigger] insert_if_absent_result(
                states[i],
                keys[i],
                values[i],
            ),
    ensures
        fetch_result(states.last(), key) == Some(target),
{
    lemma_binding_persists_to(states, keys, values, key, target, keys.len() as int);
}

/// A binding present at step 0 is present unchanged at every later step.
proof fn lemma_binding_persists_to(
    states: Seq<Map<Seq<char>, Seq<char>>>,
    keys: Seq<Seq<char>>,
    values: Seq<Seq<char>>,
    key: Seq<char>,
    target: Seq<char>,
    m: int,
)
    requires
        states.len() == keys.len() + 1,
        values.len() == keys.len(),
        states[0].contains_key(key),
        states[0][key] == target,
        forall|i: int|
            0 <= i < keys.len() ==> states[i + 1] == #[trigger] insert_if_absent_result(
                states[i],
                keys[i],
                values[i],
            ),
        0 <= m <= keys.len(),
    ensures
        states[m].contains_key(key),
        states[m][key] == target,
    decreases m,
{
    if m > 0 {
        lemma_binding_persists_to(states, keys, values, key, target, m - 1);
        assert(states[m] == insert_if_absent_result(states[m - 1], keys[m - 1], values[m - 1]));
    }
}

/// The abstract state of a list of entries: later entries win, though the
/// store's invariant keeps keys unique so the case never arises.
spec fn entries_map(s: Seq<(String, String)>) -> Map<Seq<char>, Seq<char>>
    decreases s.len(),
{
    if s.len() == 0 {
        Map::empty()
    } else {
        entries_map(s.drop_last()).insert(s.last().0@, s.last().1@)
    }
}

/// No two entries share a key.
spec fn unique_keys(s: Seq<(String, String)>) -> bool {
    forall|i: int, j: int| 0 <= i < j < s.len() ==> s[i].0@ != s[j].0@
}

proof fn lemma_entries_map_domain(s: Seq<(String, String)>, key: Seq<char>)
    ensures
        entries_map(s).contains_key(key) <==> exists|i: int|
            0 <= i < s.len() && s[i].0@ == key,
    decreases s.len(),
{
    if s.len() > 0 {
        lemma_entries_map_domain(s.drop_last(), key);
        if entries_map(s).contains_key(key) {
            if s.last().0@ == key {
                assert(s[s.len() - 1].0@ == key);
            } else {
                let i = choose|i: int| 0 <= i < s.drop_last().len() && s.drop_last()[i].0@ == key;
                assert(s[i].0@ == key);
            }
        }
        if exists|i: int| 0 <= i < s.len() && s[i].0@ == key {
            let i = choose|i: int| 0 <= i < s.len() && s[i].0@ == key;
            if i < s.len() - 1 {
                assert(s.drop_last()[i].0@ == key);
            }
        }
    }
}

proof fn lemma_entries_map_at(s: Seq<(String, String)>, i: int)
    requires
        unique_keys(s),
        0 <= i < s.len(),
    ensures
        entries_map(s).contains_key(s[i].0@),
        entries_map(s)[s[i].0@] == s[i].1@,
    decreases s.len(),
{
    if i < s.len() - 1 {
        assert(unique_keys(s.drop_last()));
        lemma_entries_map_at(s.drop_last(), i);
        assert(s.drop_last()[i] == s[i]);
        assert(s.last().0@ != s[i].0@);
    }
}

/// Compares two strings character by character.
fn str_eq(a: &str, b: &str) -> (r: bool)
    ensures
        r == (a@ == b@),
{
    let na = a.unicode_len();
    let nb = b.unicode_len();
    if na != nb {
        return false;
    }
    let mut i: usize = 0;
    while i < na
        invariant
            na == a@.len(),
            na == b@.len(),
            0 <= i <= na,
            forall|j: int| 0 <= j < i ==> a@[j] == b@[j],
        decreases na - i,
    {
        let ca = a.get_char(i);
        let cb = b.get_char(i);
        if ca != cb {
            return false;
        }
        i += 1;
    }
    proof {
        assert(a@ =~= b@);
    }
    true
}

/// The in-process key store: a namespace of short keys, each bound to a
/// target URL, created only through `store` and never mutated afterwards.
pub struct Storage {
    entries: Vec<(String, String)>,
}

impl View for Storage {
    type V = Map<Seq<char>, Seq<char>>;

    closed spec fn view(&self) -> Map<Seq<char>, Seq<char>> {
        entries_map(self.entries@)
    }
}

impl Storage {
    #[verifier::type_invariant]
    spec fn wf(self) -> bool {
        unique_keys(self.entries@)
    }

    /// An empty namespace.
    pub fn new() -> (s: Self)
        ensures
            s@ == Map::<Seq<char>, Seq<char>>::empty(),
    {
        Storage { entries: Vec::new() }
    }

    /// Atomic insert-if-absent: reserves `short -> url` and reports `true`
    /// exactly when the key was absent; a present key leaves the store
    /// unchanged and reports `false`.
    pub fn store(&mut self, short: String, url: String) -> (inserted: bool)
        ensures
            inserted == insert_if_absent_succeeds(old(self)@, short@),
            final(self)@ == insert_if_absent_result(old(self)@, short@, url@),
    {
        proof {
            use_type_invariant(&*self);
        }
        let n = self.entries.len();
        let mut i: usize = 0;
        while i < n
            invariant
                n == self.entries@.len(),
                0 <= i <= n,
                forall|j: int| 0 <= j < i ==> self.entries@[j].0@ != short@,
                *self == *old(self),
            decreases n - i,
        {
            if str_eq(self.entries[i].0.as_str(), short.as_str()) {
                proof {
                    lemma_entries_map_domain(self.entries@, short@);
                }
                return false;
            }
            i += 1;
        }
        proof {
            use_type_invariant(&*self);
            lemma_entries_map_domain(self.entries@, short@);
        }
        let ghost before = self.entries@;
        let mut entries: Vec<(String, String)> = Vec::new();
        std::mem::swap(&mut entries, &mut self.entries);
        entries.push((short, url));
        proof {
            assert(entries@.drop_last() =~= before);
            assert(forall|j: int|
                0 <= j < before.len() ==> entries@[j] == #[trigger] before[j]);
        }
        self.entries = entries;
        true
    }

    /// Side-effect-free read of the target bound to `short`.
    pub fn fetch(&self, short: &str) -> (r: Option<String>)
        ensures
            match r {
                Some(url) => fetch_result(self@, short@) == Some(url@),
                None => fetch_result(self@, short@) is None,
            },
    {
        proof {
            use_type_invariant(&*self);
        }
        let n = self.entries.len();
        let mut i: usize = 0;
        while i < n
            invariant
                n == self.entries@.len(),
                0 <= i <= n,
                forall|j: int| 0 <= j < i ==> self.entries@[j].0@ != short@,
                unique_keys(self.entries@),
            decreases n - i,
        {
            if str_eq(self.entries[i].0.as_str(), short) {
                proof {
                    lemma_entries_map_at(self.entries@, i as int);
                }
                return Some(self.entries[i].1.clone());
            }
            i += 1;
        }
        proof {
            lemma_entries_map_domain(self.entries@, short@);
        }
        None
    }
}

} // verus!
