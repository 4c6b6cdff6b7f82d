//! Interpretation of the networked key-value backing's replies.
//!
//! The networked backing issues one conditional "set if not exists"
//! command per reservation and one read command per resolve. The
//! surrounding application owns the connection and converts each wire
//! reply into the plain shapes below, variant for variant; the decisions —
//! what counts as an insertion, what counts as a found value — are made
//! and verified here. A transport or protocol error is never read as "key
//! absent and reserved": it fails the reservation and yields no value.

use vstd::prelude::*;
use vstd::utf8::{encode_utf8, valid_utf8};

verus! {

/// The reply to the conditional-insert command: an acknowledgement, a
/// null (the key was already present), a value of any other shape, or a
/// transport error.
pub enum KvWriteReply {
    Okay,
    Null,
    OtherValue,
    TransportError,
}

/// The reply to the read command: a text value, a raw byte-string value,
/// a null (no such key), a value of any other shape, or a transport
/// error.
pub enum KvReadReply {
    Text(String),
    Bytes(Vec<u8>),
    Null,
    OtherValue,
    TransportError,
}

/// Relies on `String::from_utf8`: succeeds exactly on valid UTF-8, and
/// the characters of the result encode back to the given bytes.
#[verifier::external_body]
fn bytes_to_string(bytes: Vec<u8>) -> (r: Option<String>)
    ensures
        r is Some <==> valid_utf8(bytes@),
        match r {
            Some(s) => encode_utf8(s@) == bytes@,
            None => true,
        },
{
    String::from_utf8(bytes).ok()
}

/// Whether the conditional insert reserved the key: only the plain
/// acknowledgement counts. A null means the key was already present; any
/// other shape, and any transport error, counts as a failed reservation —
/// never as a free slot.
pub fn write_reply_inserted(reply: &KvWriteReply) -> (inserted: bool)
    ensures
        inserted == (reply is Okay),
{
    match reply {
        KvWriteReply::Okay => true,
        KvWriteReply::Null => false,
        KvWriteReply::OtherValue => false,
        KvWriteReply::TransportError => false,
    }
}

/// The value a read reply carries: the text itself, or a byte string
/// decoded as UTF-8. A null, a value of another shape, undecodable bytes
/// and a transport error all yield nothing.
pub fn read_reply_value(reply: KvReadReply) -> (r: Option<String>)
    ensures
        match reply {
            KvReadReply::Text(s) => r == Some(s),
            KvReadReply::Bytes(b) => {
                &&& r is Some <==> valid_utf8(b@)
                &&& (r matches Some(s) ==> encode_utf8(s@) == b@)
            },
            KvReadReply::Null => r is None,
            KvReadReply::OtherValue => r is None,
            KvReadReply::TransportError => r is None,
        },
{
    match reply {
        KvReadReply::Text(s) => Some(s),
        KvReadReply::Bytes(b) => bytes_to_string(b),
        KvReadReply::Null => None,
        KvReadReply::OtherValue => None,
        KvReadReply::TransportError => None,
    }
}

} // verus!
