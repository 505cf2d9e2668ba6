//! The relayer protocol: payload interpretation, authentication, and
//! the submission body.
//!
//! A relay assignment arrives as JSON over HTTP; the body sent back is
//! fixed-shape JSON authenticated with HMAC-SHA-256 over
//! `timestamp ++ method ++ path ++ body`, the tag base64-encoded and
//! made URL-safe. Parsing the JSON is the outside serde_json behind
//! trusted items; everything around it — address parsing, nonce
//! defaulting, secret normalization, escaping, the exact body bytes —
//! is verified.

use vstd::prelude::*;
use vstd::string::{StrSliceExecFns, StringSliceAdditionalSpecFns};
use crate::bytesutil::extend_bytes;
use crate::codec::is_address;
use crate::errors::{MergeError, RelayerFault};
use crate::ext::{b64_decode_of, b64_encode_of, base64_decode, base64_encode, hmac_sha256,
    hmac_sha256_of, json_doc_of, json_field_present_of, json_field_str_of, json_field_u64_of,
    json_field_str, json_field_u64, json_has_field, json_is_doc};
use crate::hexfmt::{dec_ascii, hex_ascii_0x, hex_bytes_0x, u64_dec_bytes};

verus! {

/// An ASCII whitespace byte, as the standard trim sees one.
pub open spec fn is_ascii_space(b: u8) -> bool {
    b == 0x20 || (0x09 <= b && b <= 0x0d)
}

/// A byte string with its leading whitespace removed.
pub open spec fn trim_start_bytes(s: Seq<u8>) -> Seq<u8>
    decreases s.len(),
{
    if s.len() > 0 && is_ascii_space(s.first()) {
        trim_start_bytes(s.drop_first())
    } else {
        s
    }
}

/// A byte string with its trailing whitespace removed.
pub open spec fn trim_end_bytes(s: Seq<u8>) -> Seq<u8>
    decreases s.len(),
{
    if s.len() > 0 && is_ascii_space(s.last()) {
        trim_end_bytes(s.drop_last())
    } else {
        s
    }
}

/// A byte string with whitespace removed at both ends.
pub open spec fn trimmed(s: Seq<u8>) -> Seq<u8> {
    trim_end_bytes(trim_start_bytes(s))
}

proof fn lemma_trim_start_skip(s: Seq<u8>, a: int)
    requires
        0 <= a <= s.len(),
        forall|j: int| 0 <= j < a ==> is_ascii_space(#[trigger] s[j]),
        a < s.len() ==> !is_ascii_space(s[a]),
    ensures
        trim_start_bytes(s) == s.skip(a),
    decreases a,
{
    if a == 0 {
        assert(s.skip(0) =~= s);
    } else {
        assert(is_ascii_space(s.first()));
        assert(forall|j: int| 0 <= j < a - 1 ==> s.drop_first()[j] == s[j + 1]);
        lemma_trim_start_skip(s.drop_first(), a - 1);
        assert(s.drop_first().skip(a - 1) =~= s.skip(a));
    }
}

proof fn lemma_trim_end_take(s: Seq<u8>, b: int)
    requires
        0 <= b <= s.len(),
        forall|j: int| b <= j < s.len() ==> is_ascii_space(#[trigger] s[j]),
        b > 0 ==> !is_ascii_space(s[b - 1]),
    ensures
        trim_end_bytes(s) == s.take(b),
    decreases s.len() - b,
{
    if b == s.len() {
        assert(s.take(b) =~= s);
    } else {
        assert(is_ascii_space(s.last()));
        assert(forall|j: int| 0 <= j < s.len() - 1 ==> s.drop_last()[j] == s[j]);
        lemma_trim_end_take(s.drop_last(), b);
        assert(s.drop_last().take(b) =~= s.take(b));
    }
}

/// Remove ASCII whitespace at both ends of a byte string.
pub fn trim_ascii(s: &Vec<u8>) -> (r: Vec<u8>)
    ensures
        r@ == trimmed(s@),
{
    let n = s.len();
    let mut a: usize = 0;
    while a < n && (s[a] == 0x20 || (0x09 <= s[a] && s[a] <= 0x0d))
        invariant
            a <= n,
            n == s@.len(),
            forall|j: int| 0 <= j < a ==> is_ascii_space(#[trigger] s@[j]),
        decreases n - a,
    {
        a += 1;
    }
    proof {
        lemma_trim_start_skip(s@, a as int);
    }
    let ghost t = s@.skip(a as int);
    let mut b: usize = n;
    while b > a && (s[b - 1] == 0x20 || (0x09 <= s[b - 1] && s[b - 1] <= 0x0d))
        invariant
            a <= b <= n,
            n == s@.len(),
            t == s@.skip(a as int),
            forall|j: int| b <= j < n ==> is_ascii_space(#[trigger] s@[j]),
        decreases b,
    {
        b -= 1;
    }
    proof {
        assert(forall|j: int| b - a <= j < t.len() ==> t[j] == s@[j + a]);
        assert(forall|j: int| b - a <= j < t.len() ==> is_ascii_space(#[trigger] t[j]));
        if b > a {
            assert(t[b - a - 1] == s@[b - 1]);
        }
        lemma_trim_end_take(t, b - a);
    }
    let mut out: Vec<u8> = Vec::new();
    let mut i: usize = a;
    while i < b
        invariant
            a <= i <= b <= n,
            n == s@.len(),
            out@ =~= s@.subrange(a as int, i as int),
        decreases b - i,
    {
        out.push(s[i]);
        i += 1;
    }
    assert(out@ =~= trimmed(s@));
    out
}

/// A hexadecimal digit byte, either case.
pub open spec fn is_hex_digit(b: u8) -> bool {
    (0x30 <= b && b <= 0x39) || (0x61 <= b && b <= 0x66) || (0x41 <= b && b <= 0x46)
}

/// The value of a hexadecimal digit byte.
pub open spec fn hex_nibble(b: u8) -> u8
    recommends
        is_hex_digit(b),
{
    if 0x30 <= b && b <= 0x39 {
        (b - 0x30) as u8
    } else if 0x61 <= b && b <= 0x66 {
        (b - 0x57) as u8
    } else {
        (b - 0x37) as u8
    }
}

/// The twenty bytes written by forty hex digit bytes.
pub open spec fn addr_of_hex(d: Seq<u8>) -> Seq<u8> {
    Seq::new(20, |i: int| (hex_nibble(d[2 * i]) * 16 + hex_nibble(d[2 * i + 1])) as u8)
}

/// The digits of a hex numeral: an optional leading `0x` or `0X` is not
/// part of them.
pub open spec fn hex_digits_part(s: Seq<u8>) -> Seq<u8> {
    if s.len() >= 2 && s[0] == 0x30u8 && (s[1] == 0x78u8 || s[1] == 0x58u8) {
        s.skip(2)
    } else {
        s
    }
}

/// Text that writes a 20-byte address: around an optional `0x` or `0X`
/// and surrounding whitespace, exactly forty hex digits of either case.
pub open spec fn is_address_text(s: Seq<u8>) -> bool {
    let d = hex_digits_part(trimmed(s));
    d.len() == 40 && (forall|i: int| 0 <= i < 40 ==> is_hex_digit(#[trigger] d[i]))
}

/// Parse a 20-byte address written in hex: surrounding whitespace and an
/// optional `0x` are allowed around exactly forty hex digits of either
/// case.
pub fn parse_eth_address(s: &Vec<u8>) -> (r: Option<Vec<u8>>)
    ensures
        r is Some <==> is_address_text(s@),
        r matches Some(v) ==> v@ == addr_of_hex(hex_digits_part(trimmed(s@))) && is_address(v@),
{
    let t = trim_ascii(s);
    let start: usize = if t.len() >= 2 && t[0] == 0x30 && (t[1] == 0x78 || t[1] == 0x58) {
        2
    } else {
        0
    };
    let ghost d = hex_digits_part(trimmed(s@));
    proof {
        assert(d =~= t@.skip(start as int));
    }
    if t.len() - start != 40 {
        return None;
    }
    let mut out: Vec<u8> = Vec::new();
    let mut i: usize = 0;
    while i < 20
        invariant
            i <= 20,
            start <= 2,
            t@.len() == start + 40,
            t@ == trimmed(s@),
            d == hex_digits_part(trimmed(s@)),
            d == t@.skip(start as int),
            d.len() == 40,
            forall|j: int| 0 <= j < 2 * i ==> is_hex_digit(#[trigger] d[j]),
            out@ =~= addr_of_hex(d).take(i as int),
        decreases 20 - i,
    {
        assert(start + 2 * i + 1 < t@.len());
        let hi = t[start + 2 * i];
        let lo = t[start + 2 * i + 1];
        let hv: u8 = if 0x30 <= hi && hi <= 0x39 {
            hi - 0x30
        } else if 0x61 <= hi && hi <= 0x66 {
            hi - 0x57
        } else if 0x41 <= hi && hi <= 0x46 {
            hi - 0x37
        } else {
            assert(!is_hex_digit(d[2 * i]));
            return None;
        };
        let lv: u8 = if 0x30 <= lo && lo <= 0x39 {
            lo - 0x30
        } else if 0x61 <= lo && lo <= 0x66 {
            lo - 0x57
        } else if 0x41 <= lo && lo <= 0x46 {
            lo - 0x37
        } else {
            assert(!is_hex_digit(d[2 * i + 1]));
            return None;
        };
        out.push(hv * 16 + lv);
        proof {
            assert(out@ =~= addr_of_hex(d).take(i + 1));
        }
        i += 1;
    }
    assert(out@ =~= addr_of_hex(d));
    Some(out)
}

/// A relay assignment: the relay's address and the replay nonce, a
/// decimal numeral carried as text.
#[derive(Debug)]
pub struct RelayAssignment {
    pub relay: Vec<u8>,
    pub nonce: Vec<u8>,
}

impl RelayAssignment {
    pub open spec fn wf(&self) -> bool {
        is_address(self.relay@)
    }
}

/// What the nonce field of a relay payload stands for: a string field
/// is taken as it is; a field that is an unsigned number is written in
/// decimal; anything else — a field of another kind, or no field at
/// all, which yields neither — counts as `0`.
pub open spec fn nonce_text_of(s: Option<Seq<u8>>, n: Option<u64>) -> Seq<u8> {
    match s {
        Some(text) => text,
        None => match n {
            Some(v) => dec_ascii(v as nat),
            None => seq![0x30u8],
        },
    }
}

/// Choose the nonce text from the field's string and number readings.
pub fn nonce_text(s: Option<Vec<u8>>, n: Option<u64>) -> (r: Vec<u8>)
    ensures
        r@ == nonce_text_of(
            match s {
                Some(v) => Some(v@),
                None => None,
            },
            n,
        ),
{
    match s {
        Some(text) => text,
        None => match n {
            Some(v) => u64_dec_bytes(v),
            None => {
                let r: Vec<u8> = vec![0x30u8];
                assert(r@ =~= seq![0x30u8]);
                r
            },
        },
    }
}

/// Read a relay assignment out of the relay-payload response. The
/// result is an assignment exactly when the status succeeded, the body
/// is a JSON document, and its `address` field is a string that writes
/// a 20-byte address; the assignment carries that address and the
/// defaulted nonce text. Each failure names its cause and keeps the
/// body.
pub fn interpret_relay_payload(status_ok: bool, text: &str) -> (r: Result<
    RelayAssignment,
    MergeError,
>)
    ensures
        (r is Ok <==> status_ok && json_doc_of(text@) && (json_field_str_of(text@, "address"@)
            matches Some(a) && is_address_text(a))),
        r matches Ok(asg) ==> (json_field_str_of(text@, "address"@) matches Some(a) && asg.relay@
            == addr_of_hex(hex_digits_part(trimmed(a))) && asg.wf() && asg.nonce@ == nonce_text_of(
            json_field_str_of(text@, "nonce"@),
            json_field_u64_of(text@, "nonce"@),
        )),
        (!status_ok <==> (r matches Err(MergeError::RelayerRequestFailed { fault, body }) && fault
            == RelayerFault::HttpStatus && body@ == text.spec_bytes())),
        ((status_ok && !json_doc_of(text@)) <==> (r matches Err(
            MergeError::RelayerRequestFailed { fault, body },
        ) && fault == RelayerFault::BadJson && body@ == text.spec_bytes())),
        ((status_ok && json_doc_of(text@) && json_field_str_of(text@, "address"@) is None) <==> (
        r matches Err(MergeError::RelayerRequestFailed { fault, body }) && fault
            == RelayerFault::MissingRelayAddress && body@ == text.spec_bytes())),
        ((status_ok && json_doc_of(text@) && (json_field_str_of(text@, "address"@) matches Some(a)
            && !is_address_text(a))) <==> (r matches Err(
            MergeError::RelayerRequestFailed { fault, body },
        ) && fault == RelayerFault::BadRelayAddress && body@ == text.spec_bytes())),
{
    if !status_ok {
        return Err(
            MergeError::RelayerRequestFailed {
                fault: RelayerFault::HttpStatus,
                body: text.as_bytes_vec(),
            },
        );
    }
    if !json_is_doc(text) {
        return Err(
            MergeError::RelayerRequestFailed {
                fault: RelayerFault::BadJson,
                body: text.as_bytes_vec(),
            },
        );
    }
    let addr_bytes = match json_field_str(text, "address") {
        Some(b) => b,
        None => {
            return Err(
                MergeError::RelayerRequestFailed {
                    fault: RelayerFault::MissingRelayAddress,
                    body: text.as_bytes_vec(),
                },
            );
        },
    };
    let nonce = nonce_text(json_field_str(text, "nonce"), json_field_u64(text, "nonce"));
    match parse_eth_address(&addr_bytes) {
        Some(relay) => Ok(RelayAssignment { relay, nonce }),
        None => Err(
            MergeError::RelayerRequestFailed {
                fault: RelayerFault::BadRelayAddress,
                body: text.as_bytes_vec(),
            },
        ),
    }
}

/// Read the transaction identifier out of the submission response: a
/// failed status or a body that is not JSON is surfaced with the body;
/// a success returns the `transactionHash` field — or, when no such key
/// exists, its snake-case alias — falling back to the raw body when the
/// chosen field is not a string.
pub fn interpret_submit_response(status_ok: bool, text: &str) -> (r: Result<Vec<u8>, MergeError>)
    ensures
        (r is Ok <==> status_ok && json_doc_of(text@)),
        (!status_ok <==> (r matches Err(MergeError::RelayerRequestFailed { fault, body }) && fault
            == RelayerFault::HttpStatus && body@ == text.spec_bytes())),
        ((status_ok && !json_doc_of(text@)) <==> (r matches Err(
            MergeError::RelayerRequestFailed { fault, body },
        ) && fault == RelayerFault::BadJson && body@ == text.spec_bytes())),
        r matches Ok(tx) ==> tx@ == ({
            let chosen = if json_field_present_of(text@, "transactionHash"@) {
                json_field_str_of(text@, "transactionHash"@)
            } else {
                json_field_str_of(text@, "transaction_hash"@)
            };
            match chosen {
                Some(h) => h,
                None => text.spec_bytes(),
            }
        }),
{
    if !status_ok {
        return Err(
            MergeError::RelayerRequestFailed {
                fault: RelayerFault::HttpStatus,
                body: text.as_bytes_vec(),
            },
        );
    }
    if !json_is_doc(text) {
        return Err(
            MergeError::RelayerRequestFailed {
                fault: RelayerFault::BadJson,
                body: text.as_bytes_vec(),
            },
        );
    }
    let field = if json_has_field(text, "transactionHash") {
        json_field_str(text, "transactionHash")
    } else {
        json_field_str(text, "transaction_hash")
    };
    match field {
        Some(h) => Ok(h),
        None => Ok(text.as_bytes_vec()),
    }
}

/// One byte of the secret with the URL-safe base64 alphabet folded back
/// to the standard one.
pub open spec fn unfold_urlsafe(b: u8) -> u8 {
    if b == 0x2d {
        0x2b
    } else if b == 0x5f {
        0x2f
    } else {
        b
    }
}

/// The secret's text normalized for decoding: trimmed, with `-` and `_`
/// replaced by `+` and `/`.
pub open spec fn normalized_secret(s: Seq<u8>) -> Seq<u8> {
    Seq::new(trimmed(s).len(), |i: int| unfold_urlsafe(trimmed(s)[i]))
}

/// Decode the relayer secret, which may arrive in standard or URL-safe
/// base64; it is normalized to the standard alphabet first.
pub fn decode_relayer_secret(secret: &Vec<u8>) -> (r: Result<Vec<u8>, MergeError>)
    ensures
        r matches Ok(v) ==> b64_decode_of(normalized_secret(secret@)) == Some(v@),
        r is Err <==> b64_decode_of(normalized_secret(secret@)) is None,
        r matches Err(e) ==> e is SecretDecodeFailed,
{
    let t = trim_ascii(secret);
    let n = t.len();
    let mut norm: Vec<u8> = Vec::new();
    let mut i: usize = 0;
    while i < n
        invariant
            i <= n,
            n == t@.len(),
            t@ == trimmed(secret@),
            norm@ =~= normalized_secret(secret@).take(i as int),
        decreases n - i,
    {
        let b = t[i];
        norm.push(
            if b == 0x2d {
                0x2b
            } else if b == 0x5f {
                0x2f
            } else {
                b
            },
        );
        i += 1;
    }
    assert(norm@ =~= normalized_secret(secret@));
    match base64_decode(&norm) {
        Some(v) => Ok(v),
        None => Err(MergeError::SecretDecodeFailed),
    }
}

/// The text the HMAC tag covers: the millisecond timestamp in decimal,
/// then the method, the path, and the body.
pub open spec fn hmac_message(timestamp: u64, method: Seq<u8>, path: Seq<u8>, body: Seq<u8>) -> Seq<
    u8,
> {
    dec_ascii(timestamp as nat) + method + path + body
}

/// One byte of a base64 encoding moved to the URL-safe alphabet.
pub open spec fn fold_urlsafe(b: u8) -> u8 {
    if b == 0x2b {
        0x2d
    } else if b == 0x2f {
        0x5f
    } else {
        b
    }
}

/// A base64 encoding moved to the URL-safe alphabet.
pub open spec fn urlsafe_b64(s: Seq<u8>) -> Seq<u8> {
    Seq::new(s.len(), |i: int| fold_urlsafe(s[i]))
}

/// The request signature: HMAC-SHA-256 over
/// `timestamp ++ method ++ path ++ body`, base64-encoded, URL-safe.
pub fn build_hmac_signature(
    secret: &Vec<u8>,
    timestamp: u64,
    method: &Vec<u8>,
    path: &Vec<u8>,
    body: &Vec<u8>,
) -> (r: Vec<u8>)
    ensures
        r@ == urlsafe_b64(
            b64_encode_of(hmac_sha256_of(secret@, hmac_message(timestamp, method@, path@, body@))),
        ),
        forall|i: int| 0 <= i < r@.len() ==> r@[i] < 128,
{
    let mut msg = u64_dec_bytes(timestamp);
    extend_bytes(&mut msg, method);
    extend_bytes(&mut msg, path);
    extend_bytes(&mut msg, body);
    assert(msg@ =~= hmac_message(timestamp, method@, path@, body@));
    let tag = hmac_sha256(secret, &msg);
    let b64 = base64_encode(&tag);
    let n = b64.len();
    let ghost enc = b64@;
    let mut out: Vec<u8> = Vec::new();
    let mut i: usize = 0;
    while i < n
        invariant
            i <= n,
            n == b64@.len(),
            enc == b64@,
            forall|j: int| 0 <= j < enc.len() ==> enc[j] < 128,
            out@ =~= urlsafe_b64(enc).take(i as int),
        decreases n - i,
    {
        let b = b64[i];
        out.push(
            if b == 0x2b {
                0x2d
            } else if b == 0x2f {
                0x5f
            } else {
                b
            },
        );
        i += 1;
    }
    assert(out@ =~= urlsafe_b64(enc));
    out
}

/// What the JSON serializer writes for one byte of a string: the quote,
/// the backslash and the named controls get a two-byte escape, other
/// control bytes a `\u00..` escape, and everything else stands as it
/// is.
pub open spec fn esc_byte(b: u8) -> Seq<u8> {
    if b == 0x22 {
        seq![0x5cu8, 0x22]
    } else if b == 0x5c {
        seq![0x5cu8, 0x5c]
    } else if b == 0x08 {
        seq![0x5cu8, 0x62]
    } else if b == 0x09 {
        seq![0x5cu8, 0x74]
    } else if b == 0x0a {
        seq![0x5cu8, 0x6e]
    } else if b == 0x0c {
        seq![0x5cu8, 0x66]
    } else if b == 0x0d {
        seq![0x5cu8, 0x72]
    } else if b < 0x20 {
        seq![0x5cu8, 0x75, 0x30, 0x30, crate::hexfmt::hex_digit(b / 16), crate::hexfmt::hex_digit(b % 16)]
    } else {
        seq![b]
    }
}

/// A byte string escaped as the JSON serializer writes string contents.
pub open spec fn json_escaped(s: Seq<u8>) -> Seq<u8>
    decreases s.len(),
{
    if s.len() == 0 {
        Seq::<u8>::empty()
    } else {
        json_escaped(s.drop_last()) + esc_byte(s.last())
    }
}

/// Escape a byte string for embedding in a JSON string literal.
pub fn json_escape_bytes(s: &Vec<u8>) -> (r: Vec<u8>)
    ensures
        r@ == json_escaped(s@),
{
    let n = s.len();
    let mut out: Vec<u8> = Vec::new();
    let mut i: usize = 0;
    while i < n
        invariant
            i <= n,
            n == s@.len(),
            out@ =~= json_escaped(s@.take(i as int)),
        decreases n - i,
    {
        let b = s[i];
        if b == 0x22 {
            out.push(0x5c);
            out.push(0x22);
        } else if b == 0x5c {
            out.push(0x5c);
            out.push(0x5c);
        } else if b == 0x08 {
            out.push(0x5c);
            out.push(0x62);
        } else if b == 0x09 {
            out.push(0x5c);
            out.push(0x74);
        } else if b == 0x0a {
            out.push(0x5c);
            out.push(0x6e);
        } else if b == 0x0c {
            out.push(0x5c);
            out.push(0x66);
        } else if b == 0x0d {
            out.push(0x5c);
            out.push(0x72);
        } else if b < 0x20 {
            out.push(0x5c);
            out.push(0x75);
            out.push(0x30);
            out.push(0x30);
            let hi = b / 16;
            let lo = b % 16;
            out.push(if hi < 10 { 0x30 + hi } else { 0x57 + hi });
            out.push(if lo < 10 { 0x30 + lo } else { 0x57 + lo });
        } else {
            out.push(b);
        }
        proof {
            assert(s@.take(i + 1).drop_last() =~= s@.take(i as int));
            assert(s@.take(i + 1).last() == s@[i as int]);
            assert(out@ =~= json_escaped(s@.take(i + 1)));
        }
        i += 1;
    }
    assert(s@.take(n as int) =~= s@);
    out
}

/// The ASCII bytes of the body fragment `{"data":"`.
pub open spec fn lit_data() -> Seq<u8> {
    seq![
        0x7bu8, 0x22, 0x64, 0x61, 0x74, 0x61, 0x22, 0x3a, 0x22,
    ]
}

fn lit_data_vec() -> (r: Vec<u8>)
    ensures
        r@ == lit_data(),
{
    let r: Vec<u8> = vec![
        0x7bu8, 0x22, 0x64, 0x61, 0x74, 0x61, 0x22, 0x3a, 0x22,
    ];
    assert(r@ =~= lit_data());
    r
}

/// The ASCII bytes of the body fragment `","from":"`.
pub open spec fn lit_from() -> Seq<u8> {
    seq![
        0x22u8, 0x2c, 0x22, 0x66, 0x72, 0x6f, 0x6d, 0x22, 0x3a, 0x22,
    ]
}

fn lit_from_vec() -> (r: Vec<u8>)
    ensures
        r@ == lit_from(),
{
    let r: Vec<u8> = vec![
        0x22u8, 0x2c, 0x22, 0x66, 0x72, 0x6f, 0x6d, 0x22, 0x3a, 0x22,
    ];
    assert(r@ =~= lit_from());
    r
}

/// The ASCII bytes of the body fragment `","metadata":"Merge positions","nonce":"`.
pub open spec fn lit_meta_nonce() -> Seq<u8> {
    seq![
        0x22u8, 0x2c, 0x22, 0x6d, 0x65, 0x74, 0x61, 0x64, 0x61, 0x74, 0x61, 0x22,
        0x3a, 0x22, 0x4d, 0x65, 0x72, 0x67, 0x65, 0x20, 0x70, 0x6f, 0x73, 0x69,
        0x74, 0x69, 0x6f, 0x6e, 0x73, 0x22, 0x2c, 0x22, 0x6e, 0x6f, 0x6e, 0x63,
        0x65, 0x22, 0x3a, 0x22,
    ]
}

fn lit_meta_nonce_vec() -> (r: Vec<u8>)
    ensures
        r@ == lit_meta_nonce(),
{
    let r: Vec<u8> = vec![
        0x22u8, 0x2c, 0x22, 0x6d, 0x65, 0x74, 0x61, 0x64, 0x61, 0x74, 0x61, 0x22,
        0x3a, 0x22, 0x4d, 0x65, 0x72, 0x67, 0x65, 0x20, 0x70, 0x6f, 0x73, 0x69,
        0x74, 0x69, 0x6f, 0x6e, 0x73, 0x22, 0x2c, 0x22, 0x6e, 0x6f, 0x6e, 0x63,
        0x65, 0x22, 0x3a, 0x22,
    ];
    assert(r@ =~= lit_meta_nonce());
    r
}

/// The ASCII bytes of the body fragment `","proxyWallet":"`.
pub open spec fn lit_proxy_wallet() -> Seq<u8> {
    seq![
        0x22u8, 0x2c, 0x22, 0x70, 0x72, 0x6f, 0x78, 0x79, 0x57, 0x61, 0x6c, 0x6c,
        0x65, 0x74, 0x22, 0x3a, 0x22,
    ]
}

fn lit_proxy_wallet_vec() -> (r: Vec<u8>)
    ensures
        r@ == lit_proxy_wallet(),
{
    let r: Vec<u8> = vec![
        0x22u8, 0x2c, 0x22, 0x70, 0x72, 0x6f, 0x78, 0x79, 0x57, 0x61, 0x6c, 0x6c,
        0x65, 0x74, 0x22, 0x3a, 0x22,
    ];
    assert(r@ =~= lit_proxy_wallet());
    r
}

/// The ASCII bytes of the body fragment `","signature":"`.
pub open spec fn lit_signature() -> Seq<u8> {
    seq![
        0x22u8, 0x2c, 0x22, 0x73, 0x69, 0x67, 0x6e, 0x61, 0x74, 0x75, 0x72, 0x65,
        0x22, 0x3a, 0x22,
    ]
}

fn lit_signature_vec() -> (r: Vec<u8>)
    ensures
        r@ == lit_signature(),
{
    let r: Vec<u8> = vec![
        0x22u8, 0x2c, 0x22, 0x73, 0x69, 0x67, 0x6e, 0x61, 0x74, 0x75, 0x72, 0x65,
        0x22, 0x3a, 0x22,
    ];
    assert(r@ =~= lit_signature());
    r
}

/// The ASCII bytes of the body fragment `","signatureParams":{"gasLimit":"`.
pub open spec fn lit_sig_params() -> Seq<u8> {
    seq![
        0x22u8, 0x2c, 0x22, 0x73, 0x69, 0x67, 0x6e, 0x61, 0x74, 0x75, 0x72, 0x65,
        0x50, 0x61, 0x72, 0x61, 0x6d, 0x73, 0x22, 0x3a, 0x7b, 0x22, 0x67, 0x61,
        0x73, 0x4c, 0x69, 0x6d, 0x69, 0x74, 0x22, 0x3a, 0x22,
    ]
}

fn lit_sig_params_vec() -> (r: Vec<u8>)
    ensures
        r@ == lit_sig_params(),
{
    let r: Vec<u8> = vec![
        0x22u8, 0x2c, 0x22, 0x73, 0x69, 0x67, 0x6e, 0x61, 0x74, 0x75, 0x72, 0x65,
        0x50, 0x61, 0x72, 0x61, 0x6d, 0x73, 0x22, 0x3a, 0x7b, 0x22, 0x67, 0x61,
        0x73, 0x4c, 0x69, 0x6d, 0x69, 0x74, 0x22, 0x3a, 0x22,
    ];
    assert(r@ =~= lit_sig_params());
    r
}

/// The ASCII bytes of the body fragment `","gasPrice":"0","relay":"`.
pub open spec fn lit_gas_price_relay() -> Seq<u8> {
    seq![
        0x22u8, 0x2c, 0x22, 0x67, 0x61, 0x73, 0x50, 0x72, 0x69, 0x63, 0x65, 0x22,
        0x3a, 0x22, 0x30, 0x22, 0x2c, 0x22, 0x72, 0x65, 0x6c, 0x61, 0x79, 0x22,
        0x3a, 0x22,
    ]
}

fn lit_gas_price_relay_vec() -> (r: Vec<u8>)
    ensures
        r@ == lit_gas_price_relay(),
{
    let r: Vec<u8> = vec![
        0x22u8, 0x2c, 0x22, 0x67, 0x61, 0x73, 0x50, 0x72, 0x69, 0x63, 0x65, 0x22,
        0x3a, 0x22, 0x30, 0x22, 0x2c, 0x22, 0x72, 0x65, 0x6c, 0x61, 0x79, 0x22,
        0x3a, 0x22,
    ];
    assert(r@ =~= lit_gas_price_relay());
    r
}

/// The ASCII bytes of the body fragment `","relayHub":"`.
pub open spec fn lit_relay_hub() -> Seq<u8> {
    seq![
        0x22u8, 0x2c, 0x22, 0x72, 0x65, 0x6c, 0x61, 0x79, 0x48, 0x75, 0x62, 0x22,
        0x3a, 0x22,
    ]
}

fn lit_relay_hub_vec() -> (r: Vec<u8>)
    ensures
        r@ == lit_relay_hub(),
{
    let r: Vec<u8> = vec![
        0x22u8, 0x2c, 0x22, 0x72, 0x65, 0x6c, 0x61, 0x79, 0x48, 0x75, 0x62, 0x22,
        0x3a, 0x22,
    ];
    assert(r@ =~= lit_relay_hub());
    r
}

/// The ASCII bytes of the body fragment `","relayerFee":"0"},"to":"`.
pub open spec fn lit_fee_to() -> Seq<u8> {
    seq![
        0x22u8, 0x2c, 0x22, 0x72, 0x65, 0x6c, 0x61, 0x79, 0x65, 0x72, 0x46, 0x65,
        0x65, 0x22, 0x3a, 0x22, 0x30, 0x22, 0x7d, 0x2c, 0x22, 0x74, 0x6f, 0x22,
        0x3a, 0x22,
    ]
}

fn lit_fee_to_vec() -> (r: Vec<u8>)
    ensures
        r@ == lit_fee_to(),
{
    let r: Vec<u8> = vec![
        0x22u8, 0x2c, 0x22, 0x72, 0x65, 0x6c, 0x61, 0x79, 0x65, 0x72, 0x46, 0x65,
        0x65, 0x22, 0x3a, 0x22, 0x30, 0x22, 0x7d, 0x2c, 0x22, 0x74, 0x6f, 0x22,
        0x3a, 0x22,
    ];
    assert(r@ =~= lit_fee_to());
    r
}

/// The ASCII bytes of the body fragment `","type":"PROXY"}`.
pub open spec fn lit_type_tail() -> Seq<u8> {
    seq![
        0x22u8, 0x2c, 0x22, 0x74, 0x79, 0x70, 0x65, 0x22, 0x3a, 0x22, 0x50, 0x52,
        0x4f, 0x58, 0x59, 0x22, 0x7d,
    ]
}

fn lit_type_tail_vec() -> (r: Vec<u8>)
    ensures
        r@ == lit_type_tail(),
{
    let r: Vec<u8> = vec![
        0x22u8, 0x2c, 0x22, 0x74, 0x79, 0x70, 0x65, 0x22, 0x3a, 0x22, 0x50, 0x52,
        0x4f, 0x58, 0x59, 0x22, 0x7d,
    ];
    assert(r@ =~= lit_type_tail());
    r
}

/// The submission body: fixed-shape JSON whose keys stand in sorted
/// order, exactly as the serializer writes it. Addresses and byte
/// strings are `0x` hex; the nonce is embedded escaped; gas price and
/// relayer fee are fixed to zero.
pub open spec fn submit_body_bytes(
    from: Seq<u8>,
    to: Seq<u8>,
    proxy_wallet: Seq<u8>,
    data: Seq<u8>,
    nonce: Seq<u8>,
    gas_limit: u64,
    relay_hub: Seq<u8>,
    relay: Seq<u8>,
    signature: Seq<u8>,
) -> Seq<u8> {
    lit_data() + hex_ascii_0x(data) + lit_from() + hex_ascii_0x(from) + lit_meta_nonce()
        + json_escaped(nonce) + lit_proxy_wallet() + hex_ascii_0x(proxy_wallet) + lit_signature()
        + hex_ascii_0x(signature) + lit_sig_params() + dec_ascii(gas_limit as nat)
        + lit_gas_price_relay() + hex_ascii_0x(relay) + lit_relay_hub() + hex_ascii_0x(relay_hub)
        + lit_fee_to() + hex_ascii_0x(to) + lit_type_tail()
}

/// Build the submission body.
pub fn build_submit_body(
    from: &Vec<u8>,
    to: &Vec<u8>,
    proxy_wallet: &Vec<u8>,
    data: &Vec<u8>,
    nonce: &Vec<u8>,
    gas_limit: u64,
    relay_hub: &Vec<u8>,
    relay: &Vec<u8>,
    signature: &Vec<u8>,
) -> (r: Vec<u8>)
    ensures
        r@ == submit_body_bytes(
            from@,
            to@,
            proxy_wallet@,
            data@,
            nonce@,
            gas_limit,
            relay_hub@,
            relay@,
            signature@,
        ),
{
    let mut out = lit_data_vec();
    let h_data = hex_bytes_0x(data);
    extend_bytes(&mut out, &h_data);
    let f2 = lit_from_vec();
    extend_bytes(&mut out, &f2);
    let h_from = hex_bytes_0x(from);
    extend_bytes(&mut out, &h_from);
    let f3 = lit_meta_nonce_vec();
    extend_bytes(&mut out, &f3);
    let esc_nonce = json_escape_bytes(nonce);
    extend_bytes(&mut out, &esc_nonce);
    let f4 = lit_proxy_wallet_vec();
    extend_bytes(&mut out, &f4);
    let h_pw = hex_bytes_0x(proxy_wallet);
    extend_bytes(&mut out, &h_pw);
    let f5 = lit_signature_vec();
    extend_bytes(&mut out, &f5);
    let h_sig = hex_bytes_0x(signature);
    extend_bytes(&mut out, &h_sig);
    let f6 = lit_sig_params_vec();
    extend_bytes(&mut out, &f6);
    let gl = u64_dec_bytes(gas_limit);
    extend_bytes(&mut out, &gl);
    let f7 = lit_gas_price_relay_vec();
    extend_bytes(&mut out, &f7);
    let h_relay = hex_bytes_0x(relay);
    extend_bytes(&mut out, &h_relay);
    let f8 = lit_relay_hub_vec();
    extend_bytes(&mut out, &f8);
    let h_hub = hex_bytes_0x(relay_hub);
    extend_bytes(&mut out, &h_hub);
    let f9 = lit_fee_to_vec();
    extend_bytes(&mut out, &f9);
    let h_to = hex_bytes_0x(to);
    extend_bytes(&mut out, &h_to);
    let f10 = lit_type_tail_vec();
    extend_bytes(&mut out, &f10);
    assert(out@ =~= submit_body_bytes(
        from@,
        to@,
        proxy_wallet@,
        data@,
        nonce@,
        gas_limit,
        relay_hub@,
        relay@,
        signature@,
    ));
    out
}


} // verus!
