//! Golden-vector tests of the byte-level encodings, cross-checked
//! against the real Keccak-256.

use poly_settle::codec::{
    derive_proxy_wallet, eip191_hash, encode_merge_calldata, encode_proxy_call, create_struct_hash,
    MergeRequest,
};
use poly_settle::merge_plan::{conditional_tokens, proxy_factory, relay_hub, usdc};

fn be32(x: u64) -> Vec<u8> {
    let mut w = vec![0u8; 24];
    w.extend_from_slice(&x.to_be_bytes());
    w
}

const MERGE_SIG: &[u8] = b"mergePositions(address,bytes32,bytes32,uint256[],uint256)";
const PROXY_SIG: &[u8] = b"proxy((uint8,address,uint256,bytes)[])";

#[test]
fn merge_selector_is_keccak_of_canonical_signature() {
    let req = MergeRequest::for_binary_market(usdc(), vec![0u8; 32], be32(1));
    let out = encode_merge_calldata(&req);
    let digest = alloy::primitives::keccak256(MERGE_SIG);
    assert_eq!(&out[..4], &digest[..4]);
    assert_eq!(&out[..4], &[0x9e, 0x72, 0x12, 0xad]);
}

#[test]
fn merge_calldata_golden_vector() {
    let mut condition = vec![0u8; 32];
    condition[31] = 0xaa;
    let amount = be32(30_000_000);
    let req = MergeRequest::for_binary_market(usdc(), condition.clone(), amount.clone());
    let out = encode_merge_calldata(&req);

    let mut expected = Vec::new();
    expected.extend_from_slice(&alloy::primitives::keccak256(MERGE_SIG)[..4]);
    expected.extend_from_slice(&[0u8; 12]);
    expected.extend_from_slice(&usdc());
    expected.extend_from_slice(&[0u8; 32]); // parent collection id
    expected.extend_from_slice(&condition);
    expected.extend_from_slice(&be32(160)); // offset of the partition array
    expected.extend_from_slice(&amount);
    expected.extend_from_slice(&be32(2)); // partition length
    expected.extend_from_slice(&be32(1));
    expected.extend_from_slice(&be32(2));
    assert_eq!(out, expected);
    assert_eq!(out.len(), 4 + 32 * 8);
}

#[test]
fn proxy_call_golden_vector() {
    let data = vec![0x11u8, 0x22, 0x33];
    let ctf = conditional_tokens();
    let out = encode_proxy_call(&ctf, &data);

    let mut expected = Vec::new();
    expected.extend_from_slice(&alloy::primitives::keccak256(PROXY_SIG)[..4]);
    expected.extend_from_slice(&be32(32)); // offset of the array
    expected.extend_from_slice(&be32(1)); // one call in the batch
    expected.extend_from_slice(&be32(32)); // offset of the tuple
    expected.extend_from_slice(&be32(1)); // type code
    expected.extend_from_slice(&[0u8; 12]);
    expected.extend_from_slice(&ctf);
    expected.extend_from_slice(&be32(0)); // value
    expected.extend_from_slice(&be32(128)); // offset of the data
    expected.extend_from_slice(&be32(3)); // data length
    expected.extend_from_slice(&data);
    expected.extend_from_slice(&[0u8; 29]); // padding to a whole word
    assert_eq!(out, expected);
}

#[test]
fn proxy_call_word_aligned_data_has_no_padding() {
    let data = vec![0x5au8; 64];
    let ctf = conditional_tokens();
    let out = encode_proxy_call(&ctf, &data);
    assert_eq!(out.len(), 4 + 32 * 8 + 64);
}

#[test]
fn derive_proxy_wallet_matches_direct_computation() {
    let owner = vec![0x17u8; 20];
    let factory = proxy_factory();
    let derived = derive_proxy_wallet(&owner, &factory);

    let salt = alloy::primitives::keccak256(&owner);
    let mut buf = Vec::new();
    buf.push(0xffu8);
    buf.extend_from_slice(&factory);
    buf.extend_from_slice(salt.as_slice());
    buf.extend_from_slice(&[
        0xd2, 0x1d, 0xf8, 0xdc, 0x65, 0x88, 0x0a, 0x86, 0x06, 0xf0, 0x9f, 0xe0, 0xce, 0x3d, 0xf9,
        0xb8, 0x86, 0x92, 0x87, 0xab, 0x0b, 0x05, 0x8b, 0xe0, 0x5a, 0xa9, 0xe8, 0xaf, 0x63, 0x30,
        0xa0, 0x0b,
    ]);
    let digest = alloy::primitives::keccak256(&buf);
    assert_eq!(derived.as_slice(), &digest.as_slice()[12..32]);
}

#[test]
fn derive_proxy_wallet_deterministic_and_owner_sensitive() {
    let factory = proxy_factory();
    let owner_a = vec![0x01u8; 20];
    let mut owner_b = owner_a.clone();
    owner_b[19] = 0x02;
    let first = derive_proxy_wallet(&owner_a, &factory);
    let again = derive_proxy_wallet(&owner_a, &factory);
    let other = derive_proxy_wallet(&owner_b, &factory);
    assert_eq!(first, again);
    assert_ne!(first, other);
    assert_eq!(first.len(), 20);
}

#[test]
fn struct_hash_matches_direct_computation() {
    let from = vec![0x01u8; 20];
    let to = proxy_factory();
    let data = vec![0xabu8, 0xcd];
    let hub = relay_hub();
    let relay = vec![0x02u8; 20];
    let nonce = b"41".to_vec();
    let out = create_struct_hash(&from, &to, &data, 0, 0, 160_000, &nonce, &hub, &relay);

    let mut buf = Vec::new();
    buf.extend_from_slice(b"rlx:");
    buf.extend_from_slice(&from);
    buf.extend_from_slice(&to);
    buf.extend_from_slice(&data);
    buf.extend_from_slice(&be32(0));
    buf.extend_from_slice(&be32(0));
    buf.extend_from_slice(&be32(160_000));
    buf.extend_from_slice(&be32(41));
    buf.extend_from_slice(&hub);
    buf.extend_from_slice(&relay);
    assert_eq!(out.as_slice(), alloy::primitives::keccak256(&buf).as_slice());
}

#[test]
fn struct_hash_unparsable_nonce_counts_as_zero() {
    let from = vec![0x01u8; 20];
    let to = proxy_factory();
    let hub = relay_hub();
    let relay = vec![0x02u8; 20];
    let data = vec![];
    let with_text = create_struct_hash(&from, &to, &data, 0, 0, 1, &b"xyz".to_vec(), &hub, &relay);
    let with_zero = create_struct_hash(&from, &to, &data, 0, 0, 1, &b"0".to_vec(), &hub, &relay);
    assert_eq!(with_text, with_zero);
}

#[test]
fn two_stage_hash_deterministic_and_order_sensitive() {
    let from = vec![0x01u8; 20];
    let to = proxy_factory();
    let data = vec![0x99u8; 7];
    let hub = relay_hub();
    let relay = vec![0x02u8; 20];
    let mut other_relay = relay.clone();
    other_relay[0] = 0x03;

    let base = create_struct_hash(&from, &to, &data, 0, 0, 7, &b"5".to_vec(), &hub, &relay);
    let same = create_struct_hash(&from, &to, &data, 0, 0, 7, &b"5".to_vec(), &hub, &relay);
    let other_nonce = create_struct_hash(&from, &to, &data, 0, 0, 7, &b"6".to_vec(), &hub, &relay);
    let other_gas = create_struct_hash(&from, &to, &data, 0, 0, 8, &b"5".to_vec(), &hub, &relay);
    let swapped_relay =
        create_struct_hash(&from, &to, &data, 0, 0, 7, &b"5".to_vec(), &hub, &other_relay);
    assert_eq!(base, same);
    assert_ne!(base, other_nonce);
    assert_ne!(base, other_gas);
    assert_ne!(base, swapped_relay);

    let signed_base = eip191_hash(&base);
    let signed_other = eip191_hash(&other_nonce);
    assert_ne!(signed_base, signed_other);

    let mut framed = b"\x19Ethereum Signed Message:\n32".to_vec();
    framed.extend_from_slice(&base);
    assert_eq!(signed_base.as_slice(), alloy::primitives::keccak256(&framed).as_slice());
}
