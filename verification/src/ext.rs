//! Outside functions the library relies on, each behind a contract.
//!
//! The bodies below are not verified: each makes one call into an
//! outside crate (or a part of std that has no specification) and
//! converts arguments and result. Every caller's proof rests on the
//! contracts stated here, which follow the called function's own
//! documentation and source.

use vstd::prelude::*;
use base64::Engine;

verus! {

/// The Keccak-256 digest of a byte string: a function of the input
/// bytes alone.
pub uninterp spec fn keccak_of(input: Seq<u8>) -> Seq<u8>;

/// Relies on `alloy::primitives::keccak256`: returns the 32-byte
/// Keccak-256 digest of the input.
#[verifier::external_body]
pub(crate) fn keccak256_bytes(input: &Vec<u8>) -> (r: Vec<u8>)
    ensures
        r@ == keccak_of(input@),
        r@.len() == 32,
{
    alloy::primitives::keccak256(input.as_slice()).to_vec()
}

/// The HMAC-SHA-256 tag over a key and a message: a function of the two
/// byte strings alone.
pub uninterp spec fn hmac_sha256_of(key: Seq<u8>, msg: Seq<u8>) -> Seq<u8>;

/// Relies on `hmac::Hmac<sha2::Sha256>`: returns the 32-byte
/// HMAC-SHA-256 tag of the message under the key. HMAC accepts keys of
/// any length, so the construction cannot fail.
#[verifier::external_body]
pub(crate) fn hmac_sha256(key: &Vec<u8>, msg: &Vec<u8>) -> (r: Vec<u8>)
    ensures
        r@ == hmac_sha256_of(key@, msg@),
        r@.len() == 32,
{
    let mut mac = <hmac::Hmac<sha2::Sha256> as hmac::KeyInit>::new_from_slice(key.as_slice())
        .expect("HMAC accepts keys of any length");
    hmac::Mac::update(&mut mac, msg.as_slice());
    hmac::Mac::finalize(mac).into_bytes().to_vec()
}

/// The standard (RFC 4648, padded) base64 encoding of a byte string: a
/// function of the input alone.
pub uninterp spec fn b64_encode_of(input: Seq<u8>) -> Seq<u8>;

/// Relies on base64's `general_purpose::STANDARD` engine: the padded
/// encoding emits four ASCII bytes for every three input bytes begun.
#[verifier::external_body]
pub(crate) fn base64_encode(input: &Vec<u8>) -> (r: Vec<u8>)
    ensures
        r@ == b64_encode_of(input@),
        r@.len() == 4 * ((input@.len() + 2) / 3),
        forall|i: int| 0 <= i < r@.len() ==> r@[i] < 128,
{
    base64::engine::general_purpose::STANDARD.encode(input.as_slice()).into_bytes()
}

/// What the standard padded base64 decoder makes of a byte string:
/// either the decoded bytes or a rejection, a function of the input
/// alone.
pub uninterp spec fn b64_decode_of(input: Seq<u8>) -> Option<Seq<u8>>;

/// Relies on base64's `general_purpose::STANDARD` engine: strict
/// decoding with required canonical padding.
#[verifier::external_body]
pub(crate) fn base64_decode(input: &Vec<u8>) -> (r: Option<Vec<u8>>)
    ensures
        match r {
            Some(v) => b64_decode_of(input@) == Some(v@),
            None => b64_decode_of(input@) is None,
        },
{
    match base64::engine::general_purpose::STANDARD.decode(input.as_slice()) {
        Ok(v) => Some(v),
        Err(_) => None,
    }
}

/// Whether a text parses as a JSON document: serde_json's parse is a
/// function of the text alone.
pub uninterp spec fn json_doc_of(text: Seq<char>) -> bool;

/// Relies on `serde_json::from_str`: accepts exactly the JSON
/// documents, and never panics (a nesting past the recursion limit is
/// an error, not a crash).
#[verifier::external_body]
pub(crate) fn json_is_doc(text: &str) -> (r: bool)
    ensures
        r == json_doc_of(text@),
{
    serde_json::from_str::<serde_json::Value>(text).is_ok()
}

/// The UTF-8 bytes of the named string field of the JSON document
/// `text`: nothing when the text is not a document, not an object with
/// that key, or the field is not a string. Parsing and lookup are
/// functions of text and key alone.
pub uninterp spec fn json_field_str_of(text: Seq<char>, key: Seq<char>) -> Option<Seq<u8>>;

/// Relies on `serde_json::from_str`, `Value::get` and `Value::as_str`,
/// composed: each is deterministic in its argument, so the field's
/// string content is a function of text and key alone.
#[verifier::external_body]
pub(crate) fn json_field_str(text: &str, key: &str) -> (r: Option<Vec<u8>>)
    ensures
        match r {
            Some(v) => json_field_str_of(text@, key@) == Some(v@),
            None => json_field_str_of(text@, key@) is None,
        },
{
    let doc: serde_json::Value = match serde_json::from_str(text) {
        Ok(d) => d,
        Err(_) => return None,
    };
    match doc.get(key) {
        Some(field) => match field.as_str() {
            Some(s) => Some(s.as_bytes().to_vec()),
            None => None,
        },
        None => None,
    }
}

/// The value of the named field of the JSON document `text` when that
/// field is an unsigned 64-bit number; nothing otherwise. A function of
/// text and key alone.
pub uninterp spec fn json_field_u64_of(text: Seq<char>, key: Seq<char>) -> Option<u64>;

/// Relies on `serde_json::from_str`, `Value::get` and `Value::as_u64`,
/// composed: deterministic in text and key.
#[verifier::external_body]
pub(crate) fn json_field_u64(text: &str, key: &str) -> (r: Option<u64>)
    ensures
        r == json_field_u64_of(text@, key@),
{
    let doc: serde_json::Value = match serde_json::from_str(text) {
        Ok(d) => d,
        Err(_) => return None,
    };
    match doc.get(key) {
        Some(field) => field.as_u64(),
        None => None,
    }
}

/// Whether the JSON document `text` is an object holding the named key
/// (of any kind). A function of text and key alone.
pub uninterp spec fn json_field_present_of(text: Seq<char>, key: Seq<char>) -> bool;

/// Relies on `serde_json::from_str` and `Value::get`, composed:
/// deterministic in text and key.
#[verifier::external_body]
pub(crate) fn json_has_field(text: &str, key: &str) -> (r: bool)
    ensures
        r == json_field_present_of(text@, key@),
{
    let doc: serde_json::Value = match serde_json::from_str(text) {
        Ok(d) => d,
        Err(_) => return false,
    };
    doc.get(key).is_some()
}

/// Relies on `String::from_utf8`: bytes below 128 are one-byte UTF-8
/// scalars, so the string's characters are exactly the input bytes.
#[verifier::external_body]
pub(crate) fn ascii_to_string(bytes: Vec<u8>) -> (r: String)
    requires
        forall|i: int| 0 <= i < bytes@.len() ==> bytes@[i] < 128,
    ensures
        r@.len() == bytes@.len(),
        forall|i: int| 0 <= i < r@.len() ==> r@[i] == bytes@[i] as char,
{
    match String::from_utf8(bytes) {
        Ok(s) => s,
        Err(_) => String::new(),
    }
}

} // verus!
