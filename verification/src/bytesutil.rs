//! Big-endian byte-string arithmetic.
//!
//! Balances, token amounts and hash words are 256-bit unsigned integers
//! carried as 32-byte big-endian strings. This module gives them a
//! mathematical value (`be_val`) and the few operations the settlement
//! logic needs: equality, zero test, minimum, and widening a `u64`.

use vstd::prelude::*;

verus! {

/// 256 to the power `n`.
pub open spec fn pow256(n: nat) -> nat
    decreases n,
{
    if n == 0 {
        1
    } else {
        256 * pow256((n - 1) as nat)
    }
}

/// The unsigned value of a big-endian byte string.
pub open spec fn be_val(s: Seq<u8>) -> nat
    decreases s.len(),
{
    if s.len() == 0 {
        0
    } else {
        (s.first() * pow256((s.len() - 1) as nat) + be_val(s.drop_first())) as nat
    }
}

/// A 256-bit word: exactly 32 bytes.
pub open spec fn is_word32(s: Seq<u8>) -> bool {
    s.len() == 32
}

pub proof fn lemma_pow256_pos(n: nat)
    ensures
        pow256(n) >= 1,
    decreases n,
{
    if n > 0 {
        lemma_pow256_pos((n - 1) as nat);
    }
}

/// Every big-endian value is below 256^length.
pub proof fn lemma_be_val_bound(s: Seq<u8>)
    ensures
        be_val(s) < pow256(s.len()),
    decreases s.len(),
{
    if s.len() == 0 {
    } else {
        let p = pow256((s.len() - 1) as nat);
        lemma_be_val_bound(s.drop_first());
        lemma_pow256_pos((s.len() - 1) as nat);
        assert(s.first() * p <= 255 * p) by (nonlinear_arith)
            requires
                s.first() <= 255,
                p >= 1,
        ;
        assert(255 * p + p == 256 * p);
    }
}

/// A big-endian value is zero only when every byte is zero.
pub proof fn lemma_be_val_zero_iff(s: Seq<u8>)
    ensures
        be_val(s) == 0 <==> (forall|i: int| 0 <= i < s.len() ==> s[i] == 0u8),
    decreases s.len(),
{
    if s.len() == 0 {
    } else {
        lemma_be_val_zero_iff(s.drop_first());
        lemma_pow256_pos((s.len() - 1) as nat);
        if s.first() != 0u8 {
            assert(s.first() * pow256((s.len() - 1) as nat) >= 1) by (nonlinear_arith)
                requires
                    s.first() >= 1,
                    pow256((s.len() - 1) as nat) >= 1,
            ;
            assert(be_val(s) > 0);
            assert(s[0] != 0u8);
        } else {
            if be_val(s) == 0 {
                assert(forall|i: int| 0 <= i < s.drop_first().len() ==> s.drop_first()[i] == 0u8);
                assert(forall|i: int| 1 <= i < s.len() ==> s[i] == s.drop_first()[i - 1]);
            } else {
                assert(be_val(s.drop_first()) != 0);
                let j = choose|j: int| 0 <= j < s.drop_first().len() && s.drop_first()[j] != 0u8;
                assert(s[j + 1] != 0u8);
            }
        }
    }
}

/// Two equal-length big-endian strings that agree up to position `i`,
/// where the first holds the smaller byte, order as their values do.
pub proof fn lemma_be_val_lt(a: Seq<u8>, b: Seq<u8>, i: int)
    requires
        a.len() == b.len(),
        0 <= i < a.len(),
        forall|j: int| 0 <= j < i ==> a[j] == b[j],
        a[i] < b[i],
    ensures
        be_val(a) < be_val(b),
    decreases i,
{
    let p = pow256((a.len() - 1) as nat);
    if i == 0 {
        lemma_be_val_bound(a.drop_first());
        lemma_pow256_pos((a.len() - 1) as nat);
        assert(a.first() * p + p <= b.first() * p) by (nonlinear_arith)
            requires
                a.first() < b.first(),
                p >= 1,
        ;
        assert(be_val(a) < a.first() * p + p);
        assert(be_val(b) >= b.first() * p);
    } else {
        assert(forall|j: int| 0 <= j < i - 1 ==> a.drop_first()[j] == b.drop_first()[j]);
        assert(a.drop_first()[i - 1] == a[i]);
        assert(b.drop_first()[i - 1] == b[i]);
        lemma_be_val_lt(a.drop_first(), b.drop_first(), i - 1);
        assert(a.first() == b.first());
    }
}

/// Equal-length big-endian strings with equal values are equal byte for
/// byte.
pub proof fn lemma_be_val_injective(a: Seq<u8>, b: Seq<u8>)
    requires
        a.len() == b.len(),
        be_val(a) == be_val(b),
    ensures
        a =~= b,
{
    if !(a =~= b) {
        let i = choose|i: int| 0 <= i < a.len() && a[i] != b[i] && (forall|j: int|
            0 <= j < i ==> a[j] == b[j]);
        assert(exists|i: int|
            0 <= i < a.len() && a[i] != b[i] && (forall|j: int| 0 <= j < i ==> a[j] == b[j])) by {
            lemma_first_difference(a, b);
        }
        if a[i] < b[i] {
            lemma_be_val_lt(a, b, i);
        } else {
            lemma_be_val_lt(b, a, i);
        }
    }
}

/// Two unequal same-length strings have a first position of difference.
proof fn lemma_first_difference(a: Seq<u8>, b: Seq<u8>)
    requires
        a.len() == b.len(),
        !(a =~= b),
    ensures
        exists|i: int|
            0 <= i < a.len() && a[i] != b[i] && (forall|j: int| 0 <= j < i ==> a[j] == b[j]),
    decreases a.len(),
{
    if a.len() > 0 {
        if a[0] != b[0] {
            assert(0 <= 0 < a.len() && a[0] != b[0] && (forall|j: int| 0 <= j < 0 ==> a[j] == b[j]));
        } else {
            assert(!(a.drop_first() =~= b.drop_first())) by {
                if a.drop_first() =~= b.drop_first() {
                    assert(forall|i: int| 1 <= i < a.len() ==> a[i] == a.drop_first()[i - 1]);
                    assert(forall|i: int| 1 <= i < b.len() ==> b[i] == b.drop_first()[i - 1]);
                    assert(a =~= b);
                }
            }
            lemma_first_difference(a.drop_first(), b.drop_first());
            let i = choose|i: int|
                0 <= i < a.drop_first().len() && a.drop_first()[i] != b.drop_first()[i] && (
                forall|j: int| 0 <= j < i ==> a.drop_first()[j] == b.drop_first()[j]);
            assert(a[i + 1] != b[i + 1]);
            assert(forall|j: int| 0 <= j < i + 1 ==> a[j] == b[j]) by {
                assert(forall|j: int| 1 <= j < i + 1 ==> a[j] == a.drop_first()[j - 1]);
                assert(forall|j: int| 1 <= j < i + 1 ==> b[j] == b.drop_first()[j - 1]);
            }
        }
    }
}

/// Byte-for-byte equality of two byte vectors.
pub fn bytes_eq(a: &Vec<u8>, b: &Vec<u8>) -> (r: bool)
    ensures
        r == (a@ == b@),
{
    if a.len() != b.len() {
        assert(!(a@ =~= b@));
        return false;
    }
    let n = a.len();
    let mut i: usize = 0;
    while i < n
        invariant
            n == a.len() == b.len(),
            i <= n,
            forall|j: int| 0 <= j < i ==> a@[j] == b@[j],
        decreases n - i,
    {
        if a[i] != b[i] {
            assert(!(a@ =~= b@));
            return false;
        }
        i += 1;
    }
    assert(a@ =~= b@);
    true
}

/// True when every byte of a 256-bit word is zero, that is, when its
/// value is zero.
pub fn word32_is_zero(a: &Vec<u8>) -> (r: bool)
    requires
        is_word32(a@),
    ensures
        r == (be_val(a@) == 0),
{
    let n = a.len();
    let mut i: usize = 0;
    while i < n
        invariant
            n == a.len(),
            i <= n,
            forall|j: int| 0 <= j < i ==> a@[j] == 0u8,
        decreases n - i,
    {
        if a[i] != 0u8 {
            proof {
                lemma_be_val_zero_iff(a@);
            }
            return false;
        }
        i += 1;
    }
    proof {
        lemma_be_val_zero_iff(a@);
    }
    true
}

/// The numerically smaller of two 256-bit words, as a fresh copy.
///
/// The result is one of the inputs, and its value is the minimum of the
/// two values.
pub fn word32_min(a: &Vec<u8>, b: &Vec<u8>) -> (r: Vec<u8>)
    requires
        is_word32(a@),
        is_word32(b@),
    ensures
        is_word32(r@),
        r@ == a@ || r@ == b@,
        be_val(r@) == if be_val(a@) <= be_val(b@) {
            be_val(a@)
        } else {
            be_val(b@)
        },
{
    let n = a.len();
    let mut i: usize = 0;
    while i < n
        invariant
            n == a.len() == b.len(),
            n == 32,
            i <= n,
            forall|j: int| 0 <= j < i ==> a@[j] == b@[j],
        decreases n - i,
    {
        if a[i] < b[i] {
            proof {
                lemma_be_val_lt(a@, b@, i as int);
            }
            return clone_bytes(a);
        }
        if b[i] < a[i] {
            proof {
                lemma_be_val_lt(b@, a@, i as int);
            }
            return clone_bytes(b);
        }
        i += 1;
    }
    assert(a@ =~= b@);
    clone_bytes(a)
}

/// A fresh copy of a byte vector.
pub fn clone_bytes(a: &Vec<u8>) -> (r: Vec<u8>)
    ensures
        r@ == a@,
{
    let mut out: Vec<u8> = Vec::new();
    let n = a.len();
    let mut i: usize = 0;
    while i < n
        invariant
            n == a.len(),
            i <= n,
            out@ =~= a@.take(i as int),
        decreases n - i,
    {
        out.push(a[i]);
        i += 1;
    }
    assert(out@ =~= a@);
    out
}

/// Append one byte vector to another.
pub fn extend_bytes(out: &mut Vec<u8>, tail: &Vec<u8>)
    ensures
        final(out)@ == old(out)@ + tail@,
{
    let n = tail.len();
    let mut i: usize = 0;
    while i < n
        invariant
            n == tail.len(),
            i <= n,
            out@ =~= old(out)@ + tail@.take(i as int),
        decreases n - i,
    {
        out.push(tail[i]);
        i += 1;
    }
    assert(out@ =~= old(out)@ + tail@);
}

/// The 32-byte big-endian form of a 64-bit value: 24 zero bytes, then
/// the value's eight bytes, most significant first.
pub open spec fn u64_be32(x: u64) -> Seq<u8> {
    Seq::new(32, |i: int| u64_be32_byte(x, i))
}

pub open spec fn u64_be32_byte(x: u64, i: int) -> u8 {
    if i < 24 {
        0u8
    } else {
        (((x as nat) / pow256((31 - i) as nat)) % 256) as u8
    }
}

/// Build the 32-byte big-endian form of a 64-bit value.
pub fn u64_to_be32(x: u64) -> (r: Vec<u8>)
    ensures
        r@ =~= u64_be32(x),
        is_word32(r@),
{
    let mut out: Vec<u8> = Vec::new();
    let mut i: usize = 0;
    while i < 24
        invariant
            i <= 24,
            out@.len() == i,
            forall|j: int| 0 <= j < i ==> out@[j] == 0u8,
        decreases 24 - i,
    {
        out.push(0u8);
        i += 1;
    }
    // Collect the eight value bytes least significant first, then append
    // them in reverse.
    let mut lsb: Vec<u8> = Vec::new();
    let mut rest: u64 = x;
    proof {
        vstd::arithmetic::div_mod::lemma_div_basics(x as int);
    }
    let mut k: usize = 0;
    while k < 8
        invariant
            k <= 8,
            lsb@.len() == k,
            rest as nat == (x as nat) / pow256(k as nat),
            forall|j: int| 0 <= j < k ==> lsb@[j] == (((x as nat) / pow256(j as nat)) % 256) as u8,
        decreases 8 - k,
    {
        let b = (rest % 256) as u8;
        proof {
            assert((x as nat) / pow256(k as nat) / 256 == (x as nat) / (pow256(k as nat) * 256))
                by {
                lemma_pow256_pos(k as nat);
                vstd::arithmetic::div_mod::lemma_div_denominator(
                    x as int,
                    pow256(k as nat) as int,
                    256,
                );
            }
            assert(pow256(k as nat) * 256 == pow256((k + 1) as nat)) by {
                lemma_pow256_mul_one(k as nat);
            }
        }
        lsb.push(b);
        rest = rest / 256;
        k += 1;
    }
    let mut m: usize = 0;
    while m < 8
        invariant
            m <= 8,
            lsb@.len() == 8,
            out@.len() == 24 + m,
            forall|j: int| 0 <= j < 24 ==> out@[j] == 0u8,
            forall|j: int| 0 <= j < 8 ==> lsb@[j] == (((x as nat) / pow256(j as nat)) % 256) as u8,
            forall|j: int| 24 <= j < 24 + m ==> out@[j] == lsb@[31 - j],
        decreases 8 - m,
    {
        out.push(lsb[7 - m]);
        m += 1;
    }
    assert forall|i: int| 0 <= i < 32 implies out@[i] == u64_be32_byte(x, i) by {
        if i >= 24 {
            assert(out@[i] == lsb@[31 - i]);
        }
    }
    out
}

proof fn lemma_pow256_mul_one(k: nat)
    ensures
        pow256(k) * 256 == pow256(k + 1),
{
    assert(pow256(k + 1) == 256 * pow256(k));
}

/// Recover the value of a 64-bit big-endian form: the encoding loses
/// nothing.
pub proof fn lemma_u64_be32_val(x: u64)
    ensures
        be_val(u64_be32(x)) == x,
{
    lemma_be_digits_val(x as nat, 8);
    assert(u64_be32(x).skip(24) =~= Seq::new(8, |i: int| be_digit(x as nat, 8, i)));
    lemma_be_val_skip_zeros(u64_be32(x), 24);
    lemma_pow256_8();
    assert((x as nat) % pow256(8) == x) by {
        vstd::arithmetic::div_mod::lemma_small_mod(x as nat, pow256(8));
    }
}

/// Digit `i` (from the left) of `v` written in `n` base-256 digits.
pub open spec fn be_digit(v: nat, n: nat, i: int) -> u8 {
    ((v / pow256((n - 1 - i) as nat)) % 256) as u8
}

proof fn lemma_pow256_8()
    ensures
        pow256(8) == 0x1_0000_0000_0000_0000,
{
    reveal_with_fuel(pow256, 9);
}

/// The value of the `n`-digit base-256 rendering of `v` is `v` modulo
/// 256^n.
proof fn lemma_be_digits_val(v: nat, n: nat)
    ensures
        be_val(Seq::new(n, |i: int| be_digit(v, n, i))) == v % pow256(n),
    decreases n,
{
    let s = Seq::new(n, |i: int| be_digit(v, n, i));
    if n == 0 {
        assert(v % 1 == 0) by {
            vstd::arithmetic::div_mod::lemma_mod_division_less_than_divisor(v as int, 1int);
        }
    } else {
        let p = pow256((n - 1) as nat);
        lemma_pow256_pos((n - 1) as nat);
        lemma_be_digits_val(v, (n - 1) as nat);
        assert(s.drop_first() =~= Seq::new((n - 1) as nat, |i: int| be_digit(v, (n - 1) as nat, i)));
        assert(s.first() == ((v / p) % 256) as u8);
        assert(be_val(s) == ((v / p) % 256) * p + v % p);
        lemma_pow256_mul_one((n - 1) as nat);
        assert(v % (p * 256) == ((v / p) % 256) * p + v % p) by {
            vstd::arithmetic::div_mod::lemma_breakdown(v as int, p as int, 256);
        }
    }
}

/// Leading zero bytes do not change a big-endian value.
proof fn lemma_be_val_skip_zeros(s: Seq<u8>, k: int)
    requires
        0 <= k <= s.len(),
        forall|i: int| 0 <= i < k ==> s[i] == 0u8,
    ensures
        be_val(s) == be_val(s.skip(k)),
    decreases k,
{
    if k == 0 {
        assert(s.skip(0) =~= s);
    } else {
        assert(s.first() == 0u8);
        assert(s.first() * pow256((s.len() - 1) as nat) == 0) by (nonlinear_arith)
            requires
                s.first() == 0u8,
        ;
        assert(be_val(s) == be_val(s.drop_first()));
        assert(forall|i: int| 0 <= i < k - 1 ==> s.drop_first()[i] == s[i + 1]);
        lemma_be_val_skip_zeros(s.drop_first(), k - 1);
        assert(s.drop_first().skip(k - 1) =~= s.skip(k));
    }
}


/// Two middles of equal length that differ keep differing inside the
/// same surroundings.
pub proof fn lemma_concat_mid_neq(a: Seq<u8>, x: Seq<u8>, y: Seq<u8>, b: Seq<u8>)
    requires
        x.len() == y.len(),
        x != y,
    ensures
        a + x + b != a + y + b,
{
    assert(!(x =~= y));
    let j = choose|j: int| 0 <= j < x.len() && x[j] != y[j];
    assert((a + x + b)[a.len() + j] == x[j]);
    assert((a + y + b)[a.len() + j] == y[j]);
}

/// Distinct 64-bit values have distinct 32-byte big-endian forms.
pub proof fn lemma_u64_be32_injective(x: u64, y: u64)
    requires
        x != y,
    ensures
        u64_be32(x) != u64_be32(y),
{
    if u64_be32(x) == u64_be32(y) {
        lemma_u64_be32_val(x);
        lemma_u64_be32_val(y);
    }
}

/// A byte string that holds another one as a contiguous run.
pub open spec fn contains_seq(h: Seq<u8>, n: Seq<u8>) -> bool {
    exists|k: int| 0 <= k <= h.len() - n.len() && #[trigger] h.subrange(k, k + n.len() as int) == n
}

/// Substring search: does the haystack hold the needle anywhere?
pub fn contains_bytes(h: &Vec<u8>, n: &Vec<u8>) -> (r: bool)
    ensures
        r == contains_seq(h@, n@),
{
    let hn = h.len();
    let nn = n.len();
    if nn > hn {
        return false;
    }
    if nn == 0 {
        assert(h@.subrange(0, 0 + n@.len() as int) =~= n@);
        return true;
    }
    let mut k: usize = 0;
    while k <= hn - nn
        invariant
            hn == h@.len(),
            nn == n@.len(),
            0 < nn <= hn,
            k <= hn - nn + 1,
            forall|kk: int| 0 <= kk < k ==> #[trigger] h@.subrange(kk, kk + nn as int) != n@,
        decreases hn - nn + 1 - k,
    {
        let mut j: usize = 0;
        let mut matched = true;
        while j < nn
            invariant
                hn == h@.len(),
                nn == n@.len(),
                0 < nn <= hn,
                k <= hn - nn,
                j <= nn,
                matched ==> forall|jj: int| 0 <= jj < j ==> h@[k + jj] == n@[jj],
                !matched ==> h@.subrange(k as int, k + nn) != n@,
            decreases nn - j,
        {
            if h[k + j] != n[j] {
                proof {
                    assert(h@.subrange(k as int, k + nn)[j as int] == h@[k + j]);
                }
                matched = false;
                j = nn;
            } else {
                j += 1;
            }
        }
        if matched {
            proof {
                assert(h@.subrange(k as int, k + nn) =~= n@);
            }
            return true;
        }
        k += 1;
    }
    proof {
        assert forall|kk: int| 0 <= kk <= h@.len() - n@.len() implies #[trigger] h@.subrange(
            kk,
            kk + n@.len() as int,
        ) != n@ by {
            assert(kk < k);
        }
    }
    false
}

} // verus!
