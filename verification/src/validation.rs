//! Validation of target URLs and short keys.
//!
//! A short key is 4 to 16 characters, each an ASCII letter, digit or
//! underscore. A target URL is accepted exactly when it parses as an
//! absolute URL; validation fails closed on any parse error.

use vstd::prelude::*;
use vstd::string::StrSliceExecFns;

verus! {

/// Characters allowed in a short key: ASCII letters, digits and underscore.
pub open spec fn is_short_key_char(c: char) -> bool {
    c == '_' || is_ascii_alnum_char(c)
}

/// ASCII letters and digits.
pub open spec fn is_ascii_alnum_char(c: char) -> bool {
    ('a' <= c && c <= 'z') || ('A' <= c && c <= 'Z') || ('0' <= c && c <= '9')
}

/// A well-formed short key: length within the fixed inclusive bound and
/// every character an ASCII letter, digit or underscore.
pub open spec fn valid_short_key(s: Seq<char>) -> bool {
    &&& MIN_SHORT_KEY_LEN <= s.len()
    &&& s.len() <= MAX_SHORT_KEY_LEN
    &&& forall|i: int| 0 <= i < s.len() ==> is_short_key_char(s[i])
}

/// Shortest accepted short key.
pub const MIN_SHORT_KEY_LEN: usize = 4;

/// Longest accepted short key.
pub const MAX_SHORT_KEY_LEN: usize = 16;

/// Whether the text parses as a well-formed absolute URL. The exact
/// grammar is the `url` crate's; only the trusted parsing call below
/// speaks for it.
pub uninterp spec fn url_well_formed(s: Seq<char>) -> bool;

/// Relies on `url::Url::parse`: whether a text parses as an absolute URL
/// depends on the characters of the text alone.
#[verifier::external_body]
fn parses_as_url(s: &str) -> (r: bool)
    ensures
        r == url_well_formed(s@),
{
    url::Url::parse(s).is_ok()
}

/// True exactly for a syntactically well-formed absolute URL; false on
/// any parse error (missing scheme, malformed authority, embedded
/// whitespace, empty string).
pub fn is_valid_url(url: &str) -> (r: bool)
    ensures
        r == url_well_formed(url@),
{
    parses_as_url(url)
}

/// True exactly when the key's length is within the fixed inclusive bound
/// and every character is an ASCII letter, digit or underscore.
pub fn is_valid_short_link(short: &str) -> (r: bool)
    ensures
        r == valid_short_key(short@),
{
    let n = short.unicode_len();
    if n < MIN_SHORT_KEY_LEN || n > MAX_SHORT_KEY_LEN {
        return false;
    }
    let mut i: usize = 0;
    while i < n
        invariant
            n == short@.len(),
            MIN_SHORT_KEY_LEN <= n <= MAX_SHORT_KEY_LEN,
            0 <= i <= n,
            forall|j: int| 0 <= j < i ==> is_short_key_char(short@[j]),
        decreases n - i,
    {
        let c = short.get_char(i);
        if !(c == '_' || ('a' <= c && c <= 'z') || ('A' <= c && c <= 'Z') || ('0' <= c && c <= '9'))
        {
            return false;
        }
        i += 1;
    }
    true
}

} // verus!
