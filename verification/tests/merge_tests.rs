//! The merge attempt's decisions: amount, path selection, the
//! forwarding-proxy safety check, and signature normalization.

use poly_settle::codec::derive_proxy_wallet;
use poly_settle::errors::MergeError;
use poly_settle::merge_plan::{
    check_merge_amount, classify_proxy, classify_wallet_read_error, normalize_recovery_byte,
    plan_merge, proxy_factory, MergeConfig, MergePlan, ProxyKind, RelayerCredentials,
};

fn be32(x: u64) -> Vec<u8> {
    let mut w = vec![0u8; 24];
    w.extend_from_slice(&x.to_be_bytes());
    w
}

fn credentials() -> RelayerCredentials {
    RelayerCredentials {
        api_key: String::from("key"),
        secret: b"aGVsbG8=".to_vec(),
        passphrase: String::from("pass"),
    }
}

#[test]
fn merge_amount_is_minimum_of_balances() {
    let yes = be32(50);
    let no = be32(30);
    let amount = check_merge_amount(&yes, &no).unwrap();
    assert_eq!(amount, be32(30));
    let amount = check_merge_amount(&no, &yes).unwrap();
    assert_eq!(amount, be32(30));
}

#[test]
fn zero_minimum_is_nothing_to_merge() {
    let err = check_merge_amount(&be32(0), &be32(30)).unwrap_err();
    assert!(matches!(err, MergeError::NothingToMerge { .. }));
    let err = check_merge_amount(&be32(50), &be32(0)).unwrap_err();
    assert!(matches!(err, MergeError::NothingToMerge { .. }));
    let err = check_merge_amount(&be32(0), &be32(0)).unwrap_err();
    assert!(matches!(err, MergeError::NothingToMerge { .. }));
}

#[test]
fn merge_amount_compares_full_words() {
    // A larger high-order byte wins over larger low-order bytes.
    let mut big = vec![0u8; 32];
    big[0] = 1;
    let small = be32(u64::MAX);
    let amount = check_merge_amount(&big, &small).unwrap();
    assert_eq!(amount, small);
}

#[test]
fn proxy_kind_follows_bytecode_threshold() {
    assert!(matches!(classify_proxy(0), ProxyKind::ForwardingProxy));
    assert!(matches!(classify_proxy(149), ProxyKind::ForwardingProxy));
    assert!(matches!(classify_proxy(150), ProxyKind::DeployedMultisig));
    assert!(matches!(classify_proxy(4000), ProxyKind::DeployedMultisig));
}

#[test]
fn long_bytecode_takes_the_multisig_path() {
    let owner = vec![0x11u8; 20];
    let proxy = vec![0x22u8; 20];
    let config = MergeConfig { try_anyway: false, gas_limit: 160_000, credentials: None };
    let plan = plan_merge(&be32(50), &be32(30), 3000, &owner, &proxy, config).unwrap();
    match plan {
        MergePlan::Multisig { amount } => assert_eq!(amount, be32(30)),
        MergePlan::Relayer { .. } => panic!("expected the multisig path"),
    }
}

#[test]
fn mismatched_proxy_without_override_is_rejected_before_any_call() {
    let owner = vec![0x11u8; 20];
    let proxy = vec![0x22u8; 20]; // not the derived address
    let config =
        MergeConfig { try_anyway: false, gas_limit: 160_000, credentials: Some(credentials()) };
    let err = plan_merge(&be32(50), &be32(30), 0, &owner, &proxy, config).unwrap_err();
    match err {
        MergeError::ProxyKindMismatch { configured, derived } => {
            assert_eq!(configured, proxy);
            assert_eq!(derived, derive_proxy_wallet(&owner, &proxy_factory()));
        }
        other => panic!("expected a proxy mismatch, got {:?}", other),
    }
}

#[test]
fn mismatched_proxy_with_override_proceeds() {
    let owner = vec![0x11u8; 20];
    let proxy = vec![0x22u8; 20];
    let config =
        MergeConfig { try_anyway: true, gas_limit: 160_000, credentials: Some(credentials()) };
    let plan = plan_merge(&be32(50), &be32(30), 0, &owner, &proxy, config).unwrap();
    match plan {
        MergePlan::Relayer { amount, derived_matches, .. } => {
            assert_eq!(amount, be32(30));
            assert!(!derived_matches);
        }
        MergePlan::Multisig { .. } => panic!("expected the relayer path"),
    }
}

#[test]
fn matching_proxy_without_credentials_is_fatal() {
    let owner = vec![0x11u8; 20];
    let proxy = derive_proxy_wallet(&owner, &proxy_factory());
    let config = MergeConfig { try_anyway: false, gas_limit: 160_000, credentials: None };
    let err = plan_merge(&be32(50), &be32(30), 0, &owner, &proxy, config).unwrap_err();
    assert!(matches!(err, MergeError::MissingRelayerCredentials));
}

#[test]
fn matching_proxy_with_credentials_takes_the_relayer_path() {
    let owner = vec![0x11u8; 20];
    let proxy = derive_proxy_wallet(&owner, &proxy_factory());
    let config =
        MergeConfig { try_anyway: false, gas_limit: 160_000, credentials: Some(credentials()) };
    let plan = plan_merge(&be32(50), &be32(30), 0, &owner, &proxy, config).unwrap();
    match plan {
        MergePlan::Relayer { amount, derived_matches, credentials: creds } => {
            assert_eq!(amount, be32(30));
            assert!(derived_matches);
            assert_eq!(creds.api_key, "key");
        }
        MergePlan::Multisig { .. } => panic!("expected the relayer path"),
    }
}

#[test]
fn zero_balance_is_terminal_before_path_selection() {
    let owner = vec![0x11u8; 20];
    let proxy = vec![0x22u8; 20];
    let config = MergeConfig { try_anyway: false, gas_limit: 160_000, credentials: None };
    let err = plan_merge(&be32(0), &be32(30), 0, &owner, &proxy, config).unwrap_err();
    assert!(matches!(err, MergeError::NothingToMerge { .. }));
}

#[test]
fn recovery_byte_raw_values_are_lifted_to_convention() {
    let mut sig = vec![0x33u8; 65];
    sig[64] = 0;
    assert_eq!(normalize_recovery_byte(sig.clone())[64], 27);
    sig[64] = 1;
    assert_eq!(normalize_recovery_byte(sig.clone())[64], 28);
    sig[64] = 27;
    assert_eq!(normalize_recovery_byte(sig.clone())[64], 27);
    sig[64] = 28;
    assert_eq!(normalize_recovery_byte(sig.clone())[64], 28);
}

#[test]
fn recovery_byte_other_shapes_are_untouched() {
    let sig = vec![0x33u8; 64];
    assert_eq!(normalize_recovery_byte(sig.clone()), sig);
    let mut odd = vec![0x33u8; 65];
    odd[64] = 5;
    assert_eq!(normalize_recovery_byte(odd.clone()), odd);
}

#[test]
fn wallet_read_error_hints_on_revert() {
    let e = classify_wallet_read_error(b"execution reverted: no safe here".to_vec());
    match e {
        MergeError::WalletReadFailed { hint_not_multisig, .. } => assert!(hint_not_multisig),
        other => panic!("expected a wallet read failure, got {:?}", other),
    }
    let e = classify_wallet_read_error(b"connection refused".to_vec());
    match e {
        MergeError::WalletReadFailed { hint_not_multisig, .. } => assert!(!hint_not_multisig),
        other => panic!("expected a wallet read failure, got {:?}", other),
    }
}
