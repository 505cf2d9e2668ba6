//! The relayer protocol: payload interpretation, secret handling, the
//! HMAC signature, and the exact submission body, cross-checked against
//! the real serializer and MAC.

use base64::Engine;
use hmac::{KeyInit, Mac};
use poly_settle::errors::{MergeError, RelayerFault};
use poly_settle::hexfmt::{parse_u64_dec, to_hex_0x};
use poly_settle::merge_plan::{
    build_submit_request, proxy_factory, relay_hub, relayer_hash_to_sign, RelayerCredentials,
};
use poly_settle::relayer::{
    interpret_submit_response,
    build_hmac_signature, build_submit_body, decode_relayer_secret, interpret_relay_payload,
    json_escape_bytes, parse_eth_address, trim_ascii,
};

#[test]
fn relay_payload_http_failure_is_surfaced_with_body() {
    let err = interpret_relay_payload(false, "boom").unwrap_err();
    match err {
        MergeError::RelayerRequestFailed { fault, body } => {
            assert_eq!(fault, RelayerFault::HttpStatus);
            assert_eq!(body, b"boom".to_vec());
        }
        other => panic!("expected a relayer failure, got {:?}", other),
    }
}

#[test]
fn relay_payload_rejects_bad_json_and_missing_address() {
    let err = interpret_relay_payload(true, "not json").unwrap_err();
    assert!(matches!(
        err,
        MergeError::RelayerRequestFailed { fault: RelayerFault::BadJson, .. }
    ));
    let err = interpret_relay_payload(true, "{\"nonce\":\"1\"}").unwrap_err();
    assert!(matches!(
        err,
        MergeError::RelayerRequestFailed { fault: RelayerFault::MissingRelayAddress, .. }
    ));
    let err = interpret_relay_payload(true, "{\"address\":7}").unwrap_err();
    assert!(matches!(
        err,
        MergeError::RelayerRequestFailed { fault: RelayerFault::MissingRelayAddress, .. }
    ));
    let err = interpret_relay_payload(true, "{\"address\":\"0x123\"}").unwrap_err();
    assert!(matches!(
        err,
        MergeError::RelayerRequestFailed { fault: RelayerFault::BadRelayAddress, .. }
    ));
}

#[test]
fn relay_payload_reads_address_and_nonce() {
    let body = "{\"address\": \" 0xD216153c06E857cD7f72665E0aF1d7D82172F494 \", \"nonce\": \"17\"}";
    let a = interpret_relay_payload(true, body).unwrap();
    assert_eq!(a.relay, relay_hub());
    assert_eq!(a.nonce, b"17".to_vec());
}

#[test]
fn relay_payload_nonce_defaults() {
    let with_number =
        interpret_relay_payload(true, "{\"address\":\"0x1111111111111111111111111111111111111111\",\"nonce\":23}")
            .unwrap();
    assert_eq!(with_number.nonce, b"23".to_vec());
    let absent =
        interpret_relay_payload(true, "{\"address\":\"0x1111111111111111111111111111111111111111\"}")
            .unwrap();
    assert_eq!(absent.nonce, b"0".to_vec());
    let odd_kind =
        interpret_relay_payload(true, "{\"address\":\"0x1111111111111111111111111111111111111111\",\"nonce\":true}")
            .unwrap();
    assert_eq!(odd_kind.nonce, b"0".to_vec());
}

#[test]
fn eth_address_parsing_accepts_both_cases_and_prefix() {
    let plain = parse_eth_address(&b"d216153c06e857cd7f72665e0af1d7d82172f494".to_vec()).unwrap();
    assert_eq!(plain, relay_hub());
    let upper = parse_eth_address(&b"0XD216153C06E857CD7F72665E0AF1D7D82172F494".to_vec()).unwrap();
    assert_eq!(upper, relay_hub());
    assert!(parse_eth_address(&b"0x123".to_vec()).is_none());
    assert!(parse_eth_address(&b"0xZ216153c06e857cd7f72665e0af1d7d82172f494".to_vec()).is_none());
}

#[test]
fn trim_removes_ascii_whitespace_only_at_the_ends() {
    assert_eq!(trim_ascii(&b" \t\r\na b \n".to_vec()), b"a b".to_vec());
    assert_eq!(trim_ascii(&b"   ".to_vec()), b"".to_vec());
    assert_eq!(trim_ascii(&b"x".to_vec()), b"x".to_vec());
}

#[test]
fn decimal_parse_matches_the_standard_library() {
    for text in ["0", "17", "+5", "18446744073709551615", "18446744073709551616", "", "+", "1x", "-3"]
    {
        let expected = text.parse::<u64>().ok();
        assert_eq!(parse_u64_dec(&text.as_bytes().to_vec()), expected, "on {:?}", text);
    }
}

#[test]
fn secret_decoding_accepts_both_alphabets() {
    let standard = decode_relayer_secret(&b"aGVsbG8=".to_vec()).unwrap();
    assert_eq!(standard, b"hello".to_vec());
    // 0xfb 0xef 0xbe encodes to "++++"; the URL-safe spelling must decode
    // to the same bytes.
    let urlsafe = decode_relayer_secret(&b"----".to_vec()).unwrap();
    assert_eq!(urlsafe, vec![0xfb, 0xef, 0xbe]);
    let direct = base64::engine::general_purpose::STANDARD.decode("++++").unwrap();
    assert_eq!(urlsafe, direct);
    let err = decode_relayer_secret(&b"!!".to_vec()).unwrap_err();
    assert!(matches!(err, MergeError::SecretDecodeFailed));
}

#[test]
fn json_escaping_matches_the_serializer() {
    let tricky = b"a\"b\\c\x08\x09\x0a\x0c\x0d\x1fplain".to_vec();
    let escaped = json_escape_bytes(&tricky);
    let direct = serde_json::to_string(std::str::from_utf8(&tricky).unwrap()).unwrap();
    let inner = &direct.as_bytes()[1..direct.len() - 1];
    assert_eq!(escaped, inner.to_vec());
}

#[test]
fn hmac_signature_matches_direct_computation() {
    let secret = b"0123456789abcdef".to_vec();
    let body = b"{\"x\":1}".to_vec();
    let out = build_hmac_signature(&secret, 1700000000123, &b"POST".to_vec(), &b"/submit".to_vec(), &body);

    let msg = format!("{}POST/submit{}", 1700000000123u64, "{\"x\":1}");
    let mut mac = hmac::Hmac::<sha2::Sha256>::new_from_slice(&secret).unwrap();
    mac.update(msg.as_bytes());
    let tag = mac.finalize().into_bytes();
    let expected = base64::engine::general_purpose::STANDARD
        .encode(tag)
        .replace('+', "-")
        .replace('/', "_");
    assert_eq!(String::from_utf8(out).unwrap(), expected);
}

#[test]
fn submit_body_matches_the_serializer() {
    let from = vec![0x01u8; 20];
    let to = proxy_factory();
    let proxy_wallet = vec![0x02u8; 20];
    let data = vec![0xde, 0xad, 0xbe, 0xef];
    let nonce = b"41".to_vec();
    let relay = vec![0x03u8; 20];
    let hub = relay_hub();
    let signature = vec![0x33u8; 65];
    let body = build_submit_body(
        &from,
        &to,
        &proxy_wallet,
        &data,
        &nonce,
        160_000,
        &hub,
        &relay,
        &signature,
    );

    let mut params = serde_json::Map::new();
    params.insert("gasPrice".to_string(), serde_json::Value::String("0".to_string()));
    params.insert("gasLimit".to_string(), serde_json::Value::String("160000".to_string()));
    params.insert("relayerFee".to_string(), serde_json::Value::String("0".to_string()));
    params.insert("relayHub".to_string(), serde_json::Value::String(to_hex_0x(&hub)));
    params.insert("relay".to_string(), serde_json::Value::String(to_hex_0x(&relay)));
    let mut top = serde_json::Map::new();
    top.insert("from".to_string(), serde_json::Value::String(to_hex_0x(&from)));
    top.insert("to".to_string(), serde_json::Value::String(to_hex_0x(&to)));
    top.insert("proxyWallet".to_string(), serde_json::Value::String(to_hex_0x(&proxy_wallet)));
    top.insert("data".to_string(), serde_json::Value::String(to_hex_0x(&data)));
    top.insert("nonce".to_string(), serde_json::Value::String("41".to_string()));
    top.insert("signature".to_string(), serde_json::Value::String(to_hex_0x(&signature)));
    top.insert("signatureParams".to_string(), serde_json::Value::Object(params));
    top.insert("type".to_string(), serde_json::Value::String("PROXY".to_string()));
    top.insert("metadata".to_string(), serde_json::Value::String("Merge positions".to_string()));
    let expected = serde_json::to_string(&serde_json::Value::Object(top)).unwrap();
    assert_eq!(String::from_utf8(body).unwrap(), expected);
}

#[test]
fn submit_request_carries_authentication() {
    let creds = RelayerCredentials {
        api_key: String::from("api-key"),
        secret: b"c2VjcmV0LWtleQ==".to_vec(),
        passphrase: String::from("phrase"),
    };
    let owner = vec![0x01u8; 20];
    let proxy_wallet = vec![0x02u8; 20];
    let data = vec![0xaa, 0xbb];
    let nonce = b"9".to_vec();
    let relay = vec![0x03u8; 20];
    let sig = vec![0x44u8; 65];
    let req = build_submit_request(
        creds,
        &owner,
        &proxy_wallet,
        &data,
        &nonce,
        160_000,
        &relay,
        &sig,
        1700000000000,
    )
    .unwrap();
    assert_eq!(req.path, b"/submit".to_vec());
    assert_eq!(req.timestamp, 1700000000000);
    assert_eq!(req.api_key, "api-key");
    assert_eq!(req.passphrase, "phrase");

    let key = base64::engine::general_purpose::STANDARD.decode("c2VjcmV0LWtleQ==").unwrap();
    let mut msg = b"1700000000000POST/submit".to_vec();
    msg.extend_from_slice(&req.body);
    let mut mac = hmac::Hmac::<sha2::Sha256>::new_from_slice(&key).unwrap();
    mac.update(&msg);
    let expected = base64::engine::general_purpose::STANDARD
        .encode(mac.finalize().into_bytes())
        .replace('+', "-")
        .replace('/', "_");
    assert_eq!(req.signature, expected);
}

#[test]
fn bad_secret_fails_the_submission_build() {
    let creds = RelayerCredentials {
        api_key: String::from("k"),
        secret: b"%%%".to_vec(),
        passphrase: String::from("p"),
    };
    let err = build_submit_request(
        creds,
        &vec![0x01u8; 20],
        &vec![0x02u8; 20],
        &vec![],
        &b"0".to_vec(),
        1,
        &vec![0x03u8; 20],
        &vec![],
        1,
    )
    .unwrap_err();
    assert!(matches!(err, MergeError::SecretDecodeFailed));
}

#[test]
fn relayer_hash_to_sign_is_the_framed_struct_hash() {
    let owner = vec![0x01u8; 20];
    let data = vec![0x11u8, 0x22];
    let relay = vec![0x03u8; 20];
    let nonce = b"12".to_vec();
    let out = relayer_hash_to_sign(&owner, &data, 160_000, &nonce, &relay);

    let be32 = |x: u64| {
        let mut w = vec![0u8; 24];
        w.extend_from_slice(&x.to_be_bytes());
        w
    };
    let mut buf = Vec::new();
    buf.extend_from_slice(b"rlx:");
    buf.extend_from_slice(&owner);
    buf.extend_from_slice(&proxy_factory());
    buf.extend_from_slice(&data);
    buf.extend_from_slice(&be32(0));
    buf.extend_from_slice(&be32(0));
    buf.extend_from_slice(&be32(160_000));
    buf.extend_from_slice(&be32(12));
    buf.extend_from_slice(&relay_hub());
    buf.extend_from_slice(&relay);
    let struct_hash = alloy::primitives::keccak256(&buf);
    let mut framed = b"\x19Ethereum Signed Message:\n32".to_vec();
    framed.extend_from_slice(struct_hash.as_slice());
    assert_eq!(out.as_slice(), alloy::primitives::keccak256(&framed).as_slice());
}

#[test]
fn submit_response_failure_keeps_the_body() {
    let err = interpret_submit_response(false, "denied").unwrap_err();
    match err {
        MergeError::RelayerRequestFailed { fault, body } => {
            assert_eq!(fault, RelayerFault::HttpStatus);
            assert_eq!(body, b"denied".to_vec());
        }
        other => panic!("expected a relayer failure, got {:?}", other),
    }
}

#[test]
fn submit_response_reads_the_transaction_hash() {
    let tx = interpret_submit_response(true, "{\"transactionHash\":\"0xabc\"}").unwrap();
    assert_eq!(tx, b"0xabc".to_vec());
    let tx = interpret_submit_response(true, "{\"transaction_hash\":\"0xdef\"}").unwrap();
    assert_eq!(tx, b"0xdef".to_vec());
    // A document without either field falls back to the raw body.
    let tx = interpret_submit_response(true, "{\"status\":\"ok\"}").unwrap();
    assert_eq!(tx, b"{\"status\":\"ok\"}".to_vec());
    // A present camel-case key that is not a string wins over the alias
    // and falls back to the raw body.
    let body = "{\"transactionHash\":7,\"transaction_hash\":\"0xdef\"}";
    let tx = interpret_submit_response(true, body).unwrap();
    assert_eq!(tx, body.as_bytes().to_vec());
}

#[test]
fn submit_response_rejects_a_body_that_is_not_json() {
    let err = interpret_submit_response(true, "plain text receipt").unwrap_err();
    assert!(matches!(
        err,
        MergeError::RelayerRequestFailed { fault: RelayerFault::BadJson, .. }
    ));
}
