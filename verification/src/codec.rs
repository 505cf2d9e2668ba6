//! Byte-level protocol encodings.
//!
//! The merge call and the batched proxy call use the contract ABI's
//! head/tail layout; the wallet address is derived with a CREATE2-style
//! hash; the relayer's authorization hash is a bespoke two-stage scheme
//! (a tagged struct hash wrapped in a personal-message hash). Every
//! encoding is given as a spec function over byte strings and each
//! executable encoder is proved to produce it; the hash itself is the
//! outside Keccak-256, named `keccak_of`.

use vstd::prelude::*;
use crate::bytesutil::{extend_bytes, is_word32, u64_be32, u64_to_be32};
use crate::ext::{keccak256_bytes, keccak_of};
use crate::hexfmt::{numeral_value, parse_u64_dec};

verus! {

/// A 20-byte account address.
pub open spec fn is_address(s: Seq<u8>) -> bool {
    s.len() == 20
}

/// The ASCII bytes of the merge call's canonical signature,
/// `mergePositions(address,bytes32,bytes32,uint256[],uint256)`.
pub open spec fn merge_call_sig() -> Seq<u8> {
    seq![
        0x6du8, 0x65, 0x72, 0x67, 0x65, 0x50, 0x6f, 0x73, 0x69, 0x74, 0x69, 0x6f,
        0x6e, 0x73, 0x28, 0x61, 0x64, 0x64, 0x72, 0x65, 0x73, 0x73, 0x2c, 0x62,
        0x79, 0x74, 0x65, 0x73, 0x33, 0x32, 0x2c, 0x62, 0x79, 0x74, 0x65, 0x73,
        0x33, 0x32, 0x2c, 0x75, 0x69, 0x6e, 0x74, 0x32, 0x35, 0x36, 0x5b, 0x5d,
        0x2c, 0x75, 0x69, 0x6e, 0x74, 0x32, 0x35, 0x36, 0x29,
    ]
}

fn merge_call_sig_vec() -> (r: Vec<u8>)
    ensures
        r@ == merge_call_sig(),
{
    let r: Vec<u8> = vec![
        0x6du8, 0x65, 0x72, 0x67, 0x65, 0x50, 0x6f, 0x73, 0x69, 0x74, 0x69, 0x6f,
        0x6e, 0x73, 0x28, 0x61, 0x64, 0x64, 0x72, 0x65, 0x73, 0x73, 0x2c, 0x62,
        0x79, 0x74, 0x65, 0x73, 0x33, 0x32, 0x2c, 0x62, 0x79, 0x74, 0x65, 0x73,
        0x33, 0x32, 0x2c, 0x75, 0x69, 0x6e, 0x74, 0x32, 0x35, 0x36, 0x5b, 0x5d,
        0x2c, 0x75, 0x69, 0x6e, 0x74, 0x32, 0x35, 0x36, 0x29,
    ];
    assert(r@ =~= merge_call_sig());
    r
}

/// The ASCII bytes of the batched proxy call's canonical signature,
/// `proxy((uint8,address,uint256,bytes)[])`.
pub open spec fn proxy_call_sig() -> Seq<u8> {
    seq![
        0x70u8, 0x72, 0x6f, 0x78, 0x79, 0x28, 0x28, 0x75, 0x69, 0x6e, 0x74, 0x38,
        0x2c, 0x61, 0x64, 0x64, 0x72, 0x65, 0x73, 0x73, 0x2c, 0x75, 0x69, 0x6e,
        0x74, 0x32, 0x35, 0x36, 0x2c, 0x62, 0x79, 0x74, 0x65, 0x73, 0x29, 0x5b,
        0x5d, 0x29,
    ]
}

fn proxy_call_sig_vec() -> (r: Vec<u8>)
    ensures
        r@ == proxy_call_sig(),
{
    let r: Vec<u8> = vec![
        0x70u8, 0x72, 0x6f, 0x78, 0x79, 0x28, 0x28, 0x75, 0x69, 0x6e, 0x74, 0x38,
        0x2c, 0x61, 0x64, 0x64, 0x72, 0x65, 0x73, 0x73, 0x2c, 0x75, 0x69, 0x6e,
        0x74, 0x32, 0x35, 0x36, 0x2c, 0x62, 0x79, 0x74, 0x65, 0x73, 0x29, 0x5b,
        0x5d, 0x29,
    ];
    assert(r@ =~= proxy_call_sig());
    r
}

/// The domain tag of the relayer's struct hash, the ASCII bytes `rlx:`.
pub open spec fn rlx_tag() -> Seq<u8> {
    seq![0x72u8, 0x6c, 0x78, 0x3a]
}

/// The personal-message framing prefix, the ASCII bytes
/// `\x19Ethereum Signed Message:\n32`.
pub open spec fn eip191_prefix() -> Seq<u8> {
    seq![
        0x19u8, 0x45, 0x74, 0x68, 0x65, 0x72, 0x65, 0x75, 0x6d, 0x20, 0x53, 0x69,
        0x67, 0x6e, 0x65, 0x64, 0x20, 0x4d, 0x65, 0x73, 0x73, 0x61, 0x67, 0x65,
        0x3a, 0x0a, 0x33, 0x32,
    ]
}

/// The init-code hash of the forwarding-proxy factory's deployments,
/// fixed by the factory contract.
pub open spec fn proxy_init_code_hash() -> Seq<u8> {
    seq![
        0xd2u8, 0x1d, 0xf8, 0xdc, 0x65, 0x88, 0x0a, 0x86, 0x06, 0xf0, 0x9f, 0xe0,
        0xce, 0x3d, 0xf9, 0xb8, 0x86, 0x92, 0x87, 0xab, 0x0b, 0x05, 0x8b, 0xe0,
        0x5a, 0xa9, 0xe8, 0xaf, 0x63, 0x30, 0xa0, 0x0b,
    ]
}

fn proxy_init_code_hash_vec() -> (r: Vec<u8>)
    ensures
        r@ == proxy_init_code_hash(),
{
    let r: Vec<u8> = vec![
        0xd2u8, 0x1d, 0xf8, 0xdc, 0x65, 0x88, 0x0a, 0x86, 0x06, 0xf0, 0x9f, 0xe0,
        0xce, 0x3d, 0xf9, 0xb8, 0x86, 0x92, 0x87, 0xab, 0x0b, 0x05, 0x8b, 0xe0,
        0x5a, 0xa9, 0xe8, 0xaf, 0x63, 0x30, 0xa0, 0x0b,
    ];
    assert(r@ =~= proxy_init_code_hash());
    r
}

/// Twelve zero bytes: the padding that widens an address to a 32-byte
/// word.
pub open spec fn addr_pad() -> Seq<u8> {
    Seq::new(12, |i: int| 0u8)
}

fn push_addr_pad(out: &mut Vec<u8>)
    ensures
        final(out)@ == old(out)@ + addr_pad(),
{
    let mut i: usize = 0;
    while i < 12
        invariant
            i <= 12,
            out@ =~= old(out)@ + addr_pad().take(i as int),
        decreases 12 - i,
    {
        out.push(0u8);
        i += 1;
    }
    assert(out@ =~= old(out)@ + addr_pad());
}

/// A merge call to be encoded: the collateral token, the parent
/// collection, the market's condition, the partition's index sets, and
/// the amount to merge.
pub struct MergeRequest {
    pub collateral_token: Vec<u8>,
    pub parent_collection_id: Vec<u8>,
    pub condition_id: Vec<u8>,
    pub partition: Vec<u64>,
    pub amount: Vec<u8>,
}

impl MergeRequest {
    /// Shapes are fixed by the contract: a 20-byte token address,
    /// 32-byte identifiers, a 32-byte big-endian amount.
    pub open spec fn wf(&self) -> bool {
        &&& is_address(self.collateral_token@)
        &&& is_word32(self.parent_collection_id@)
        &&& is_word32(self.condition_id@)
        &&& is_word32(self.amount@)
        &&& self.partition@.len() <= 16
    }

    /// The merge request for a binary market: no parent collection and
    /// the fixed two-set partition `{1, 2}`.
    pub fn for_binary_market(
        collateral_token: Vec<u8>,
        condition_id: Vec<u8>,
        amount: Vec<u8>,
    ) -> (r: MergeRequest)
        requires
            is_address(collateral_token@),
            is_word32(condition_id@),
            is_word32(amount@),
        ensures
            r.wf(),
            r.collateral_token@ == collateral_token@,
            r.parent_collection_id@ == Seq::new(32, |i: int| 0u8),
            r.condition_id@ == condition_id@,
            r.partition@ == seq![1u64, 2u64],
            r.amount@ == amount@,
    {
        let mut parent: Vec<u8> = Vec::new();
        let mut i: usize = 0;
        while i < 32
            invariant
                i <= 32,
                parent@ =~= Seq::new(i as nat, |j: int| 0u8),
            decreases 32 - i,
        {
            parent.push(0u8);
            i += 1;
        }
        let partition: Vec<u64> = vec![1u64, 2u64];
        assert(partition@ =~= seq![1u64, 2u64]);
        assert(parent@ =~= Seq::new(32, |i: int| 0u8));
        MergeRequest {
            collateral_token,
            parent_collection_id: parent,
            condition_id,
            partition,
            amount,
        }
    }
}

/// Each partition element as a 32-byte big-endian word, in order.
pub open spec fn partition_words(p: Seq<u64>) -> Seq<u8>
    decreases p.len(),
{
    if p.len() == 0 {
        Seq::<u8>::empty()
    } else {
        partition_words(p.drop_last()) + u64_be32(p.last())
    }
}

/// The calldata of the merge call: the four-byte selector, the three
/// fixed words (padded collateral address, parent collection id,
/// condition id), the offset word to the partition array, the amount
/// word, and then the array's length and elements.
pub open spec fn merge_calldata_bytes(req: &MergeRequest) -> Seq<u8> {
    keccak_of(merge_call_sig()).take(4) + addr_pad() + req.collateral_token@
        + req.parent_collection_id@ + req.condition_id@ + u64_be32(160) + req.amount@ + u64_be32(
        req.partition@.len() as u64,
    ) + partition_words(req.partition@)
}

/// Encode the merge call.
pub fn encode_merge_calldata(req: &MergeRequest) -> (r: Vec<u8>)
    requires
        req.wf(),
    ensures
        r@ == merge_calldata_bytes(req),
{
    let sig = merge_call_sig_vec();
    let digest = keccak256_bytes(&sig);
    let mut out: Vec<u8> = Vec::new();
    out.push(digest[0]);
    out.push(digest[1]);
    out.push(digest[2]);
    out.push(digest[3]);
    assert(out@ =~= keccak_of(merge_call_sig()).take(4));
    push_addr_pad(&mut out);
    extend_bytes(&mut out, &req.collateral_token);
    extend_bytes(&mut out, &req.parent_collection_id);
    extend_bytes(&mut out, &req.condition_id);
    let off = u64_to_be32(160);
    extend_bytes(&mut out, &off);
    extend_bytes(&mut out, &req.amount);
    let len_word = u64_to_be32(req.partition.len() as u64);
    extend_bytes(&mut out, &len_word);
    let ghost head = out@;
    let n = req.partition.len();
    let mut i: usize = 0;
    while i < n
        invariant
            n == req.partition.len(),
            i <= n,
            out@ =~= head + partition_words(req.partition@.take(i as int)),
        decreases n - i,
    {
        let w = u64_to_be32(req.partition[i]);
        extend_bytes(&mut out, &w);
        proof {
            assert(req.partition@.take(i + 1).drop_last() =~= req.partition@.take(i as int));
            assert(req.partition@.take(i + 1).last() == req.partition@[i as int]);
        }
        i += 1;
    }
    proof {
        assert(req.partition@.take(n as int) =~= req.partition@);
        assert(out@ =~= merge_calldata_bytes(req));
    }
    out
}

/// The CREATE2-style preimage of the forwarding proxy's address: the
/// `0xff` marker, the factory's address, the hash of the owner's
/// address as the salt, and the factory's init-code hash.
pub open spec fn create2_preimage(owner: Seq<u8>, factory: Seq<u8>) -> Seq<u8> {
    seq![0xffu8] + factory + keccak_of(owner) + proxy_init_code_hash()
}

/// The derived forwarding-proxy address: the low 20 bytes of the hash
/// of the CREATE2 preimage.
pub open spec fn derived_proxy_of(owner: Seq<u8>, factory: Seq<u8>) -> Seq<u8> {
    keccak_of(create2_preimage(owner, factory)).skip(12)
}

/// Derive the forwarding-proxy wallet address owned by an account.
pub fn derive_proxy_wallet(owner: &Vec<u8>, factory: &Vec<u8>) -> (r: Vec<u8>)
    requires
        is_address(owner@),
        is_address(factory@),
    ensures
        r@ == derived_proxy_of(owner@, factory@),
        is_address(r@),
{
    let salt = keccak256_bytes(owner);
    let mut buf: Vec<u8> = Vec::new();
    buf.push(0xff);
    assert(buf@ =~= seq![0xffu8]);
    extend_bytes(&mut buf, factory);
    extend_bytes(&mut buf, &salt);
    let init_hash = proxy_init_code_hash_vec();
    extend_bytes(&mut buf, &init_hash);
    assert(buf@ =~= create2_preimage(owner@, factory@));
    let digest = keccak256_bytes(&buf);
    let mut out: Vec<u8> = Vec::new();
    let mut i: usize = 12;
    while i < 32
        invariant
            12 <= i <= 32,
            digest@.len() == 32,
            out@ =~= digest@.subrange(12, i as int),
        decreases 32 - i,
    {
        out.push(digest[i]);
        i += 1;
    }
    assert(out@ =~= derived_proxy_of(owner@, factory@));
    out
}

/// Zero bytes that pad a byte string out to a whole number of 32-byte
/// words.
pub open spec fn pad32(n: nat) -> Seq<u8> {
    Seq::new(((32 - (n % 32)) % 32) as nat, |i: int| 0u8)
}

/// The calldata of the single-call batch wrapper: the selector of the
/// batched proxy call, the offset word to the array, the array length
/// (one), the offset word to the tuple, and the tuple itself — type
/// code one, the padded target address, a zero value word, the offset
/// word to the data, and the length-prefixed, zero-padded data.
pub open spec fn proxy_call_bytes(to: Seq<u8>, data: Seq<u8>) -> Seq<u8> {
    keccak_of(proxy_call_sig()).take(4) + u64_be32(32) + u64_be32(1) + u64_be32(32) + u64_be32(1)
        + addr_pad() + to + u64_be32(0) + u64_be32(128) + u64_be32(data.len() as u64) + data
        + pad32(data.len())
}

/// Encode a call routed through the forwarding proxy as a single-call
/// batch.
pub fn encode_proxy_call(to: &Vec<u8>, data: &Vec<u8>) -> (r: Vec<u8>)
    requires
        is_address(to@),
    ensures
        r@ == proxy_call_bytes(to@, data@),
{
    let sig = proxy_call_sig_vec();
    let digest = keccak256_bytes(&sig);
    let mut out: Vec<u8> = Vec::new();
    out.push(digest[0]);
    out.push(digest[1]);
    out.push(digest[2]);
    out.push(digest[3]);
    assert(out@ =~= keccak_of(proxy_call_sig()).take(4));
    let w32 = u64_to_be32(32);
    let w1 = u64_to_be32(1);
    extend_bytes(&mut out, &w32);
    extend_bytes(&mut out, &w1);
    extend_bytes(&mut out, &w32);
    extend_bytes(&mut out, &w1);
    push_addr_pad(&mut out);
    extend_bytes(&mut out, to);
    let w0 = u64_to_be32(0);
    extend_bytes(&mut out, &w0);
    let w128 = u64_to_be32(128);
    extend_bytes(&mut out, &w128);
    let wlen = u64_to_be32(data.len() as u64);
    extend_bytes(&mut out, &wlen);
    extend_bytes(&mut out, data);
    let ghost head = out@;
    let pad = (32 - data.len() % 32) % 32;
    let mut i: usize = 0;
    while i < pad
        invariant
            i <= pad,
            out@ =~= head + Seq::new(i as nat, |j: int| 0u8),
        decreases pad - i,
    {
        out.push(0u8);
        i += 1;
    }
    proof {
        assert(Seq::new(pad as nat, |j: int| 0u8) =~= pad32(data@.len()));
        assert(out@ =~= proxy_call_bytes(to@, data@));
    }
    out
}

/// The preimage of the relayer's struct hash: the `rlx:` tag, sender,
/// target, calldata, then the fee, gas-price, gas-limit and nonce words,
/// and the relay-hub and relay addresses.
pub open spec fn struct_hash_preimage(
    from: Seq<u8>,
    to: Seq<u8>,
    data: Seq<u8>,
    tx_fee: u64,
    gas_price: u64,
    gas_limit: u64,
    nonce: u64,
    relay_hub: Seq<u8>,
    relay: Seq<u8>,
) -> Seq<u8> {
    rlx_tag() + from + to + data + u64_be32(tx_fee) + u64_be32(gas_price) + u64_be32(gas_limit)
        + u64_be32(nonce) + relay_hub + relay
}

/// Build the relayer's struct hash. The nonce arrives as decimal text;
/// text that is not a 64-bit numeral counts as zero.
pub fn create_struct_hash(
    from: &Vec<u8>,
    to: &Vec<u8>,
    data: &Vec<u8>,
    tx_fee: u64,
    gas_price: u64,
    gas_limit: u64,
    nonce_text: &Vec<u8>,
    relay_hub: &Vec<u8>,
    relay: &Vec<u8>,
) -> (r: Vec<u8>)
    requires
        is_address(from@),
        is_address(to@),
        is_address(relay_hub@),
        is_address(relay@),
    ensures
        r@ == keccak_of(
            struct_hash_preimage(
                from@,
                to@,
                data@,
                tx_fee,
                gas_price,
                gas_limit,
                numeral_value(nonce_text@),
                relay_hub@,
                relay@,
            ),
        ),
        r@.len() == 32,
{
    let nonce = parse_u64_dec(nonce_text).unwrap_or(0);
    let mut buf: Vec<u8> = Vec::new();
    buf.push(0x72);
    buf.push(0x6c);
    buf.push(0x78);
    buf.push(0x3a);
    assert(buf@ =~= rlx_tag());
    extend_bytes(&mut buf, from);
    extend_bytes(&mut buf, to);
    extend_bytes(&mut buf, data);
    let wf = u64_to_be32(tx_fee);
    extend_bytes(&mut buf, &wf);
    let wg = u64_to_be32(gas_price);
    extend_bytes(&mut buf, &wg);
    let wl = u64_to_be32(gas_limit);
    extend_bytes(&mut buf, &wl);
    let wn = u64_to_be32(nonce);
    extend_bytes(&mut buf, &wn);
    extend_bytes(&mut buf, relay_hub);
    extend_bytes(&mut buf, relay);
    assert(buf@ =~= struct_hash_preimage(
        from@,
        to@,
        data@,
        tx_fee,
        gas_price,
        gas_limit,
        numeral_value(nonce_text@),
        relay_hub@,
        relay@,
    ));
    keccak256_bytes(&buf)
}

/// The personal-message preimage that wraps a struct hash for signing.
pub open spec fn eip191_preimage(struct_hash: Seq<u8>) -> Seq<u8> {
    eip191_prefix() + struct_hash
}

/// Wrap a 32-byte hash in the personal-message framing and hash again;
/// the result is what the owner signs.
pub fn eip191_hash(struct_hash: &Vec<u8>) -> (r: Vec<u8>)
    requires
        is_word32(struct_hash@),
    ensures
        r@ == keccak_of(eip191_preimage(struct_hash@)),
        r@.len() == 32,
{
    let mut buf: Vec<u8> = vec![
        0x19u8, 0x45, 0x74, 0x68, 0x65, 0x72, 0x65, 0x75, 0x6d, 0x20, 0x53, 0x69,
        0x67, 0x6e, 0x65, 0x64, 0x20, 0x4d, 0x65, 0x73, 0x73, 0x61, 0x67, 0x65,
        0x3a, 0x0a, 0x33, 0x32,
    ];
    assert(buf@ =~= eip191_prefix());
    extend_bytes(&mut buf, struct_hash);
    assert(buf@ =~= eip191_preimage(struct_hash@));
    keccak256_bytes(&buf)
}


/// Law: address derivation is deterministic — it depends on the owner
/// and factory bytes alone, so equal owners derive equal addresses.
pub proof fn lemma_derive_deterministic(o1: Seq<u8>, o2: Seq<u8>, f: Seq<u8>)
    requires
        o1 == o2,
    ensures
        derived_proxy_of(o1, f) == derived_proxy_of(o2, f),
{
}

/// Law: the struct hash is nonce-sensitive — two calls that differ only
/// in the nonce hash different preimages.
pub proof fn lemma_struct_hash_nonce_sensitive(
    from: Seq<u8>,
    to: Seq<u8>,
    data: Seq<u8>,
    tx_fee: u64,
    gas_price: u64,
    gas_limit: u64,
    n1: u64,
    n2: u64,
    relay_hub: Seq<u8>,
    relay: Seq<u8>,
)
    requires
        n1 != n2,
    ensures
        struct_hash_preimage(from, to, data, tx_fee, gas_price, gas_limit, n1, relay_hub, relay)
            != struct_hash_preimage(
            from,
            to,
            data,
            tx_fee,
            gas_price,
            gas_limit,
            n2,
            relay_hub,
            relay,
        ),
{
    let a = rlx_tag() + from + to + data + u64_be32(tx_fee) + u64_be32(gas_price) + u64_be32(
        gas_limit,
    );
    let b = relay_hub + relay;
    crate::bytesutil::lemma_u64_be32_injective(n1, n2);
    crate::bytesutil::lemma_concat_mid_neq(a, u64_be32(n1), u64_be32(n2), b);
    assert(struct_hash_preimage(from, to, data, tx_fee, gas_price, gas_limit, n1, relay_hub, relay)
        =~= a + u64_be32(n1) + b);
    assert(struct_hash_preimage(from, to, data, tx_fee, gas_price, gas_limit, n2, relay_hub, relay)
        =~= a + u64_be32(n2) + b);
}

/// Law: the struct hash is gas-limit-sensitive — two calls that differ
/// only in the gas limit hash different preimages.
pub proof fn lemma_struct_hash_gas_sensitive(
    from: Seq<u8>,
    to: Seq<u8>,
    data: Seq<u8>,
    tx_fee: u64,
    gas_price: u64,
    g1: u64,
    g2: u64,
    nonce: u64,
    relay_hub: Seq<u8>,
    relay: Seq<u8>,
)
    requires
        g1 != g2,
    ensures
        struct_hash_preimage(from, to, data, tx_fee, gas_price, g1, nonce, relay_hub, relay)
            != struct_hash_preimage(from, to, data, tx_fee, gas_price, g2, nonce, relay_hub, relay),
{
    let a = rlx_tag() + from + to + data + u64_be32(tx_fee) + u64_be32(gas_price);
    let b = u64_be32(nonce) + relay_hub + relay;
    crate::bytesutil::lemma_u64_be32_injective(g1, g2);
    crate::bytesutil::lemma_concat_mid_neq(a, u64_be32(g1), u64_be32(g2), b);
    assert(struct_hash_preimage(from, to, data, tx_fee, gas_price, g1, nonce, relay_hub, relay)
        =~= a + u64_be32(g1) + b);
    assert(struct_hash_preimage(from, to, data, tx_fee, gas_price, g2, nonce, relay_hub, relay)
        =~= a + u64_be32(g2) + b);
}

/// Law: the struct hash is relay-sensitive — two calls that differ only
/// in the assigned relay hash different preimages.
pub proof fn lemma_struct_hash_relay_sensitive(
    from: Seq<u8>,
    to: Seq<u8>,
    data: Seq<u8>,
    tx_fee: u64,
    gas_price: u64,
    gas_limit: u64,
    nonce: u64,
    relay_hub: Seq<u8>,
    r1: Seq<u8>,
    r2: Seq<u8>,
)
    requires
        r1.len() == r2.len(),
        r1 != r2,
    ensures
        struct_hash_preimage(from, to, data, tx_fee, gas_price, gas_limit, nonce, relay_hub, r1)
            != struct_hash_preimage(
            from,
            to,
            data,
            tx_fee,
            gas_price,
            gas_limit,
            nonce,
            relay_hub,
            r2,
        ),
{
    let a = rlx_tag() + from + to + data + u64_be32(tx_fee) + u64_be32(gas_price) + u64_be32(
        gas_limit,
    ) + u64_be32(nonce) + relay_hub;
    let b = Seq::<u8>::empty();
    crate::bytesutil::lemma_concat_mid_neq(a, r1, r2, b);
    assert(struct_hash_preimage(from, to, data, tx_fee, gas_price, gas_limit, nonce, relay_hub, r1)
        =~= a + r1 + b);
    assert(struct_hash_preimage(from, to, data, tx_fee, gas_price, gas_limit, nonce, relay_hub, r2)
        =~= a + r2 + b);
}

} // verus!
