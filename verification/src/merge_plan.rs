//! The merge attempt's decisions.
//!
//! One attempt runs `balances read → amount computed (terminal if zero)
//! → path selected (multisig or forwarding proxy) → signed → submitted`.
//! Every decision on that line is here as a verified function over plain
//! values; the shell around it reads the chain, signs, and sends, and
//! hands each result back.

use vstd::prelude::*;
use crate::bytesutil::{be_val, contains_bytes, contains_seq, is_word32, word32_min};
use crate::codec::{
    derived_proxy_of, eip191_preimage, is_address, struct_hash_preimage, create_struct_hash,
    eip191_hash,
};
use crate::errors::MergeError;
use crate::ext::{b64_decode_of, b64_encode_of, hmac_sha256_of, keccak256_bytes, keccak_of};
use crate::hexfmt::{ascii_chars, numeral_value};
use crate::relayer::{
    build_hmac_signature, build_submit_body, decode_relayer_secret, hmac_message, normalized_secret,
    submit_body_bytes, urlsafe_b64,
};

verus! {

/// The bytecode-length threshold below which a wallet is treated as a
/// forwarding proxy: anything shorter holds no deployed multisig.
pub const PROXY_CODE_THRESHOLD: usize = 150;

/// The default gas limit handed to the relayer.
pub const PROXY_DEFAULT_GAS: u64 = 160000;

/// The collateral token's address (the quote currency on the home
/// chain).
pub open spec fn usdc_address() -> Seq<u8> {
    seq![
        0x27u8, 0x91, 0xbc, 0xa1, 0xf2, 0xde, 0x46, 0x61, 0xed, 0x88, 0xa3, 0x0c,
        0x99, 0xa7, 0xa9, 0x44, 0x9a, 0xa8, 0x41, 0x74,
    ]
}

pub fn usdc() -> (r: Vec<u8>)
    ensures
        r@ == usdc_address(),
        is_address(r@),
{
    let r: Vec<u8> = vec![
        0x27u8, 0x91, 0xbc, 0xa1, 0xf2, 0xde, 0x46, 0x61, 0xed, 0x88, 0xa3, 0x0c,
        0x99, 0xa7, 0xa9, 0x44, 0x9a, 0xa8, 0x41, 0x74,
    ];
    assert(r@ =~= usdc_address());
    r
}

/// The forwarding-proxy factory's address, fixed by the protocol.
pub open spec fn proxy_factory_address() -> Seq<u8> {
    seq![
        0xabu8, 0x45, 0xc5, 0xa4, 0xb0, 0xc9, 0x41, 0xa2, 0xf2, 0x31, 0xc0, 0x4c,
        0x3f, 0x49, 0x18, 0x2e, 0x1a, 0x25, 0x40, 0x52,
    ]
}

pub fn proxy_factory() -> (r: Vec<u8>)
    ensures
        r@ == proxy_factory_address(),
        is_address(r@),
{
    let r: Vec<u8> = vec![
        0xabu8, 0x45, 0xc5, 0xa4, 0xb0, 0xc9, 0x41, 0xa2, 0xf2, 0x31, 0xc0, 0x4c,
        0x3f, 0x49, 0x18, 0x2e, 0x1a, 0x25, 0x40, 0x52,
    ];
    assert(r@ =~= proxy_factory_address());
    r
}

/// The relay hub's address, fixed by the relayer network.
pub open spec fn relay_hub_address() -> Seq<u8> {
    seq![
        0xd2u8, 0x16, 0x15, 0x3c, 0x06, 0xe8, 0x57, 0xcd, 0x7f, 0x72, 0x66, 0x5e,
        0x0a, 0xf1, 0xd7, 0xd8, 0x21, 0x72, 0xf4, 0x94,
    ]
}

pub fn relay_hub() -> (r: Vec<u8>)
    ensures
        r@ == relay_hub_address(),
        is_address(r@),
{
    let r: Vec<u8> = vec![
        0xd2u8, 0x16, 0x15, 0x3c, 0x06, 0xe8, 0x57, 0xcd, 0x7f, 0x72, 0x66, 0x5e,
        0x0a, 0xf1, 0xd7, 0xd8, 0x21, 0x72, 0xf4, 0x94,
    ];
    assert(r@ =~= relay_hub_address());
    r
}

/// The conditional-token contract's address on the home chain.
pub open spec fn conditional_tokens_address() -> Seq<u8> {
    seq![
        0x4du8, 0x97, 0xdc, 0xd9, 0x7e, 0xc9, 0x45, 0xf4, 0x0c, 0xf6, 0x5f, 0x87,
        0x09, 0x7a, 0xce, 0x5e, 0xa0, 0x47, 0x60, 0x45,
    ]
}

pub fn conditional_tokens() -> (r: Vec<u8>)
    ensures
        r@ == conditional_tokens_address(),
        is_address(r@),
{
    let r: Vec<u8> = vec![
        0x4du8, 0x97, 0xdc, 0xd9, 0x7e, 0xc9, 0x45, 0xf4, 0x0c, 0xf6, 0x5f, 0x87,
        0x09, 0x7a, 0xce, 0x5e, 0xa0, 0x47, 0x60, 0x45,
    ];
    assert(r@ =~= conditional_tokens_address());
    r
}

/// The three credentials of the relayer's authenticated submission
/// endpoint. The secret is kept as bytes: it is normalized and decoded
/// before use.
#[derive(Debug)]
pub struct RelayerCredentials {
    pub api_key: String,
    pub secret: Vec<u8>,
    pub passphrase: String,
}

/// The configuration a merge attempt runs under.
#[derive(Debug)]
pub struct MergeConfig {
    /// Proceed on the forwarding-proxy path even when the derived
    /// address disagrees with the configured one.
    pub try_anyway: bool,
    /// The gas limit handed to the relayer.
    pub gas_limit: u64,
    /// The relayer credentials, when configured.
    pub credentials: Option<RelayerCredentials>,
}

/// The kind of proxy wallet an attempt talks to, decided once from the
/// wallet's on-chain bytecode length.
#[derive(PartialEq, Eq, Structural, Debug, Clone, Copy)]
pub enum ProxyKind {
    DeployedMultisig,
    ForwardingProxy,
}

/// Classify the proxy wallet by its bytecode length: anything below the
/// threshold is too short to be a deployed multisig and is treated as a
/// forwarding proxy.
pub fn classify_proxy(code_len: usize) -> (r: ProxyKind)
    ensures
        r == ProxyKind::ForwardingProxy <==> code_len < PROXY_CODE_THRESHOLD,
{
    if code_len < PROXY_CODE_THRESHOLD {
        ProxyKind::ForwardingProxy
    } else {
        ProxyKind::DeployedMultisig
    }
}

/// The amount a merge converts: the minimum of the two balances. A zero
/// minimum is the terminal nothing-to-merge condition, not retried.
pub fn check_merge_amount(yes: &Vec<u8>, no: &Vec<u8>) -> (r: Result<Vec<u8>, MergeError>)
    requires
        is_word32(yes@),
        is_word32(no@),
    ensures
        r is Ok <==> be_val(yes@) > 0 && be_val(no@) > 0,
        r matches Ok(a) ==> {
            &&& is_word32(a@)
            &&& be_val(a@) == if be_val(yes@) <= be_val(no@) {
                be_val(yes@)
            } else {
                be_val(no@)
            }
            &&& (a@ == yes@ || a@ == no@)
        },
        r matches Err(e) ==> (e matches MergeError::NothingToMerge { yes: y, no: n } && y@ == yes@
            && n@ == no@),
{
    let amount = word32_min(yes, no);
    if crate::bytesutil::word32_is_zero(&amount) {
        return Err(
            MergeError::NothingToMerge {
                yes: crate::bytesutil::clone_bytes(yes),
                no: crate::bytesutil::clone_bytes(no),
            },
        );
    }
    Ok(amount)
}

/// The plan one attempt commits to before any signing or submission.
#[derive(Debug)]
pub enum MergePlan {
    /// Execute through the deployed multisig with this amount.
    Multisig { amount: Vec<u8> },
    /// Sign for the relayer with this amount and these credentials;
    /// `derived_matches` records whether the derived address agreed with
    /// the configured one (an override may have let a mismatch pass).
    Relayer { amount: Vec<u8>, credentials: RelayerCredentials, derived_matches: bool },
}

/// Decide one merge attempt from the balances, the wallet's bytecode
/// length, the signer, the configured proxy, and the configuration:
/// the amount is the minimum of the balances and zero is terminal; a
/// short bytecode selects the forwarding-proxy path, which demands that
/// the derived address match the configured one (unless overridden) and
/// that credentials be present; anything else selects the multisig
/// path.
pub fn plan_merge(
    yes_balance: &Vec<u8>,
    no_balance: &Vec<u8>,
    code_len: usize,
    owner: &Vec<u8>,
    proxy_wallet: &Vec<u8>,
    config: MergeConfig,
) -> (r: Result<MergePlan, MergeError>)
    requires
        is_word32(yes_balance@),
        is_word32(no_balance@),
        is_address(owner@),
        is_address(proxy_wallet@),
    ensures
        ({
            let m = if be_val(yes_balance@) <= be_val(no_balance@) {
                be_val(yes_balance@)
            } else {
                be_val(no_balance@)
            };
            let derived = derived_proxy_of(owner@, proxy_factory_address());
            let mismatch = derived != proxy_wallet@;
            &&& (m == 0 <==> r matches Err(MergeError::NothingToMerge { .. }))
            &&& (m > 0 && code_len >= PROXY_CODE_THRESHOLD <==> (r matches Ok(p) && p matches
                MergePlan::Multisig { amount } && is_word32(amount@) && be_val(amount@) == m))
            &&& (m > 0 && code_len < PROXY_CODE_THRESHOLD && mismatch && !config.try_anyway <==> (
            r matches Err(MergeError::ProxyKindMismatch { configured, derived: d }) && configured@
                == proxy_wallet@ && d@ == derived))
            &&& (m > 0 && code_len < PROXY_CODE_THRESHOLD && (!mismatch || config.try_anyway)
                && config.credentials is None <==> r matches Err(
                MergeError::MissingRelayerCredentials,
            ))
            &&& ((m > 0 && code_len < PROXY_CODE_THRESHOLD && (!mismatch || config.try_anyway)
                && config.credentials is Some) <==> (r matches Ok(p) && p matches
                MergePlan::Relayer { amount, credentials, derived_matches } && is_word32(amount@)
                && be_val(amount@) == m && derived_matches == !mismatch && (
                config.credentials matches Some(c) && credentials == c)))
        }),
{
    let amount = match check_merge_amount(yes_balance, no_balance) {
        Ok(a) => a,
        Err(e) => {
            return Err(e);
        },
    };
    match classify_proxy(code_len) {
        ProxyKind::DeployedMultisig => Ok(MergePlan::Multisig { amount }),
        ProxyKind::ForwardingProxy => {
            let factory = proxy_factory();
            let derived = crate::codec::derive_proxy_wallet(owner, &factory);
            let matches_config = crate::bytesutil::bytes_eq(&derived, proxy_wallet);
            if !matches_config && !config.try_anyway {
                return Err(
                    MergeError::ProxyKindMismatch {
                        configured: crate::bytesutil::clone_bytes(proxy_wallet),
                        derived,
                    },
                );
            }
            match config.credentials {
                None => Err(MergeError::MissingRelayerCredentials),
                Some(credentials) => Ok(
                    MergePlan::Relayer { amount, credentials, derived_matches: matches_config },
                ),
            }
        },
    }
}

/// A signature with its recovery byte moved to the 27/28 convention: a
/// 65-byte signature ending in a raw 0 or 1 has 27 added to that byte;
/// anything else is untouched.
pub open spec fn normalized_sig(s: Seq<u8>) -> Seq<u8> {
    if s.len() == 65 && (s[64] == 0u8 || s[64] == 1u8) {
        s.update(64, (s[64] + 27) as u8)
    } else {
        s
    }
}

/// Normalize a signature's recovery byte to the 27/28 convention.
pub fn normalize_recovery_byte(sig: Vec<u8>) -> (r: Vec<u8>)
    ensures
        r@ == normalized_sig(sig@),
{
    let mut s = sig;
    let ghost orig = s@;
    if s.len() == 65 {
        let v = s[64];
        if v == 0 || v == 1 {
            let _last = s.pop();
            s.push(v + 27);
            assert(s@ =~= orig.update(64, (orig[64] + 27) as u8));
            return s;
        }
    }
    s
}

/// Law: a signature whose recovery byte arrives in either convention —
/// raw 0/1 or already 27/28 — always leaves normalization with 27 or
/// 28, never 0 or 1.
pub proof fn lemma_recovery_byte_convention(s: Seq<u8>)
    requires
        s.len() == 65,
        s[64] == 0u8 || s[64] == 1u8 || s[64] == 27u8 || s[64] == 28u8,
    ensures
        normalized_sig(s).len() == 65,
        normalized_sig(s)[64] == 27u8 || normalized_sig(s)[64] == 28u8,
{
}

/// The multisig transaction hash to sign: the hash of the canonical
/// encoding the wallet contract itself returned. Nothing is re-derived
/// locally.
pub fn multisig_tx_hash(encoded: &Vec<u8>) -> (r: Vec<u8>)
    ensures
        r@ == keccak_of(encoded@),
        r@.len() == 32,
{
    keccak256_bytes(encoded)
}

/// Classify a failed multisig read: a revert suggests the address is
/// not a multisig wallet at all (path selection is a heuristic).
pub fn classify_wallet_read_error(message: Vec<u8>) -> (r: MergeError)
    ensures
        r matches MergeError::WalletReadFailed { hint_not_multisig, message: m } && m@ == message@
            && hint_not_multisig == contains_seq(message@, seq![0x72u8, 0x65, 0x76, 0x65, 0x72, 0x74]),
{
    let needle: Vec<u8> = vec![0x72u8, 0x65, 0x76, 0x65, 0x72, 0x74];
    assert(needle@ =~= seq![0x72u8, 0x65, 0x76, 0x65, 0x72, 0x74]);
    let hint = contains_bytes(&message, &needle);
    MergeError::WalletReadFailed { hint_not_multisig: hint, message }
}

/// What the owner signs on the relayer path: the struct hash of the
/// forwarded call, wrapped in the personal-message framing.
pub fn relayer_hash_to_sign(
    owner: &Vec<u8>,
    proxy_data: &Vec<u8>,
    gas_limit: u64,
    nonce: &Vec<u8>,
    relay: &Vec<u8>,
) -> (r: Vec<u8>)
    requires
        is_address(owner@),
        is_address(relay@),
    ensures
        r@ == keccak_of(
            eip191_preimage(
                keccak_of(
                    struct_hash_preimage(
                        owner@,
                        proxy_factory_address(),
                        proxy_data@,
                        0,
                        0,
                        gas_limit,
                        numeral_value(nonce@),
                        relay_hub_address(),
                        relay@,
                    ),
                ),
            ),
        ),
        r@.len() == 32,
{
    let factory = proxy_factory();
    let hub = relay_hub();
    let struct_hash = create_struct_hash(
        owner,
        &factory,
        proxy_data,
        0,
        0,
        gas_limit,
        nonce,
        &hub,
        relay,
    );
    eip191_hash(&struct_hash)
}

/// A submission ready for the relayer's endpoint: the path, the body,
/// and the four authentication header values (the timestamp is sent in
/// decimal; the signature is the URL-safe HMAC tag).
#[derive(Debug)]
pub struct SubmitRequest {
    pub path: Vec<u8>,
    pub body: Vec<u8>,
    pub timestamp: u64,
    pub api_key: String,
    pub passphrase: String,
    pub signature: String,
}

/// The ASCII bytes of the submission path, `/submit`.
pub open spec fn submit_path() -> Seq<u8> {
    seq![0x2fu8, 0x73, 0x75, 0x62, 0x6d, 0x69, 0x74]
}

/// The ASCII bytes of the method, `POST`.
pub open spec fn method_post() -> Seq<u8> {
    seq![0x50u8, 0x4f, 0x53, 0x54]
}

/// The ASCII bytes of the relay-payload path, `/relay-payload`.
pub open spec fn relay_payload_path() -> Seq<u8> {
    seq![0x2fu8, 0x72, 0x65, 0x6c, 0x61, 0x79, 0x2d, 0x70, 0x61, 0x79, 0x6c, 0x6f, 0x61, 0x64]
}

pub fn relay_payload_path_vec() -> (r: Vec<u8>)
    ensures
        r@ == relay_payload_path(),
{
    let r: Vec<u8> = vec![
        0x2fu8, 0x72, 0x65, 0x6c, 0x61, 0x79, 0x2d, 0x70, 0x61, 0x79, 0x6c, 0x6f, 0x61, 0x64,
    ];
    assert(r@ =~= relay_payload_path());
    r
}

/// Assemble the authenticated relayer submission: the fixed-shape body
/// over the signed call, and the HMAC signature over
/// `timestamp ++ POST ++ /submit ++ body` under the decoded secret.
/// Fails only when the secret does not decode.
pub fn build_submit_request(
    credentials: RelayerCredentials,
    owner: &Vec<u8>,
    proxy_wallet: &Vec<u8>,
    proxy_data: &Vec<u8>,
    nonce: &Vec<u8>,
    gas_limit: u64,
    relay: &Vec<u8>,
    signature: &Vec<u8>,
    timestamp: u64,
) -> (r: Result<SubmitRequest, MergeError>)
    requires
        is_address(owner@),
        is_address(proxy_wallet@),
        is_address(relay@),
    ensures
        r is Err <==> b64_decode_of(normalized_secret(credentials.secret@)) is None,
        r matches Err(e) ==> e is SecretDecodeFailed,
        r matches Ok(req) ==> {
            &&& req.path@ == submit_path()
            &&& req.timestamp == timestamp
            &&& req.api_key@ == credentials.api_key@
            &&& req.passphrase@ == credentials.passphrase@
            &&& req.body@ == submit_body_bytes(
                owner@,
                proxy_factory_address(),
                proxy_wallet@,
                proxy_data@,
                nonce@,
                gas_limit,
                relay_hub_address(),
                relay@,
                signature@,
            )
            &&& b64_decode_of(normalized_secret(credentials.secret@)) matches Some(key)
                && req.signature@ == ascii_chars(
                urlsafe_b64(
                    b64_encode_of(
                        hmac_sha256_of(
                            key,
                            hmac_message(timestamp, method_post(), submit_path(), req.body@),
                        ),
                    ),
                ),
            )
        },
{
    let key = match decode_relayer_secret(&credentials.secret) {
        Ok(k) => k,
        Err(e) => {
            return Err(e);
        },
    };
    let factory = proxy_factory();
    let hub = relay_hub();
    let body = build_submit_body(
        owner,
        &factory,
        proxy_wallet,
        proxy_data,
        nonce,
        gas_limit,
        &hub,
        relay,
        signature,
    );
    let method: Vec<u8> = vec![0x50u8, 0x4f, 0x53, 0x54];
    assert(method@ =~= method_post());
    let path: Vec<u8> = vec![0x2fu8, 0x73, 0x75, 0x62, 0x6d, 0x69, 0x74];
    assert(path@ =~= submit_path());
    let sig_bytes = build_hmac_signature(&key, timestamp, &method, &path, &body);
    let signature_header = crate::ext::ascii_to_string(sig_bytes);
    Ok(
        SubmitRequest {
            path,
            body,
            timestamp,
            api_key: credentials.api_key,
            passphrase: credentials.passphrase,
            signature: signature_header,
        },
    )
}

} // verus!
