//! Hexadecimal and decimal text.
//!
//! The protocol speaks in `0x`-prefixed lowercase hex and in decimal
//! numerals carried as text. Everything here is byte-exact: the hex and
//! decimal renderings are given as spec functions and the executable
//! functions are proved to produce them.

use vstd::prelude::*;
use vstd::string::*;

verus! {

/// ASCII code of the lowercase hex digit for a nibble.
pub open spec fn hex_digit(n: u8) -> u8
    recommends
        n < 16,
{
    if n < 10 {
        (0x30 + n) as u8
    } else {
        (0x57 + n) as u8
    }
}

/// Lowercase hex rendering of a byte string, two ASCII digits per byte.
pub open spec fn hex_ascii(b: Seq<u8>) -> Seq<u8> {
    Seq::new(
        2 * b.len(),
        |i: int|
            if i % 2 == 0 {
                hex_digit(b[i / 2] / 16)
            } else {
                hex_digit(b[i / 2] % 16)
            },
    )
}

/// `0x` followed by the lowercase hex rendering, as ASCII bytes.
pub open spec fn hex_ascii_0x(b: Seq<u8>) -> Seq<u8> {
    seq![0x30u8, 0x78u8] + hex_ascii(b)
}

/// Render a byte string as `0x`-prefixed lowercase hex, in ASCII bytes.
pub fn hex_bytes_0x(b: &Vec<u8>) -> (r: Vec<u8>)
    ensures
        r@ == hex_ascii_0x(b@),
{
    let mut out: Vec<u8> = Vec::new();
    out.push(0x30);
    out.push(0x78);
    let n = b.len();
    let mut i: usize = 0;
    while i < n
        invariant
            n == b.len(),
            i <= n,
            out@ =~= seq![0x30u8, 0x78u8] + hex_ascii(b@.take(i as int)),
        decreases n - i,
    {
        let x = b[i];
        let hi = x / 16;
        let lo = x % 16;
        out.push(if hi < 10 {
            0x30 + hi
        } else {
            0x57 + hi
        });
        out.push(if lo < 10 {
            0x30 + lo
        } else {
            0x57 + lo
        });
        i += 1;
        proof {
            assert(out@ =~= seq![0x30u8, 0x78u8] + hex_ascii(b@.take(i as int)));
        }
    }
    assert(b@.take(n as int) =~= b@);
    assert(out@ =~= hex_ascii_0x(b@));
    out
}

/// The characters an ASCII byte string stands for, one per byte.
pub open spec fn ascii_chars(s: Seq<u8>) -> Seq<char> {
    Seq::new(s.len(), |i: int| s[i] as char)
}

/// Render a byte string as `0x`-prefixed lowercase hex.
pub fn to_hex_0x(b: &Vec<u8>) -> (r: String)
    ensures
        r@ == ascii_chars(hex_ascii_0x(b@)),
{
    let bytes = hex_bytes_0x(b);
    assert forall|i: int| 0 <= i < bytes@.len() implies bytes@[i] < 128 by {
        assert(bytes@[i] == hex_ascii_0x(b@)[i]);
    }
    let s = crate::ext::ascii_to_string(bytes);
    assert(s@ =~= ascii_chars(hex_ascii_0x(b@)));
    s
}

/// Decimal rendering of a number, as ASCII digit bytes with no sign and
/// no leading zero.
pub open spec fn dec_ascii(n: nat) -> Seq<u8>
    decreases n,
{
    if n < 10 {
        seq![(0x30 + n) as u8]
    } else {
        dec_ascii(n / 10) + seq![(0x30 + n % 10) as u8]
    }
}

/// Render a 64-bit value in decimal, as ASCII bytes.
pub fn u64_dec_bytes(n: u64) -> (r: Vec<u8>)
    ensures
        r@ == dec_ascii(n as nat),
    decreases n,
{
    if n < 10 {
        let mut out: Vec<u8> = Vec::new();
        out.push(0x30 + (n as u8));
        assert(out@ =~= dec_ascii(n as nat));
        out
    } else {
        proof {
            vstd::arithmetic::div_mod::lemma_div_is_strictly_smaller(n as int, 10int);
        }
        let mut out = u64_dec_bytes(n / 10);
        out.push(0x30 + ((n % 10) as u8));
        assert(out@ =~= dec_ascii(n as nat));
        out
    }
}

/// A decimal digit byte.
pub open spec fn is_dec_digit(b: u8) -> bool {
    0x30 <= b && b <= 0x39
}

/// The value of a string of decimal digit bytes.
pub open spec fn dec_val(s: Seq<u8>) -> int
    decreases s.len(),
{
    if s.len() == 0 {
        0
    } else {
        dec_val(s.drop_last()) * 10 + (s.last() - 0x30)
    }
}

/// The digit part of a decimal numeral: an optional leading `+` is not
/// part of it.
pub open spec fn dec_digits_part(s: Seq<u8>) -> Seq<u8> {
    if s.len() > 0 && s[0] == 0x2bu8 {
        s.skip(1)
    } else {
        s
    }
}

/// A well-formed decimal numeral: an optional `+`, then one or more
/// digits.
pub open spec fn is_dec_numeral(s: Seq<u8>) -> bool {
    let d = dec_digits_part(s);
    d.len() > 0 && forall|i: int| 0 <= i < d.len() ==> is_dec_digit(#[trigger] d[i])
}

/// The value a decimal numeral stands for, with anything else — or a
/// value over 64 bits — counting as zero.
pub open spec fn numeral_value(s: Seq<u8>) -> u64 {
    if is_dec_numeral(s) && dec_val(dec_digits_part(s)) < 0x1_0000_0000_0000_0000 {
        dec_val(dec_digits_part(s)) as u64
    } else {
        0u64
    }
}

proof fn lemma_dec_val_nonneg(s: Seq<u8>)
    requires
        forall|i: int| 0 <= i < s.len() ==> is_dec_digit(#[trigger] s[i]),
    ensures
        dec_val(s) >= 0,
    decreases s.len(),
{
    if s.len() > 0 {
        lemma_dec_val_nonneg(s.drop_last());
    }
}

/// A digit string's value never shrinks as digits are appended.
proof fn lemma_dec_val_prefix(s: Seq<u8>, k: int)
    requires
        forall|i: int| 0 <= i < s.len() ==> is_dec_digit(#[trigger] s[i]),
        0 <= k <= s.len(),
    ensures
        dec_val(s.take(k)) <= dec_val(s),
    decreases s.len() - k,
{
    if k < s.len() {
        lemma_dec_val_prefix(s, k + 1);
        let t = s.take(k + 1);
        assert(t.drop_last() =~= s.take(k));
        assert(t.last() == s[k]);
        lemma_dec_val_nonneg(s.take(k));
        assert(dec_val(s.take(k)) * 10 >= dec_val(s.take(k))) by (nonlinear_arith)
            requires
                dec_val(s.take(k)) >= 0,
        ;
    } else {
        assert(s.take(k) =~= s);
    }
}

/// Parse a decimal numeral as the standard library does for `u64`: an
/// optional leading `+`, then one or more ASCII digits, whose value must
/// fit in 64 bits. Anything else is rejected.
pub fn parse_u64_dec(s: &Vec<u8>) -> (r: Option<u64>)
    ensures
        r is Some <==> is_dec_numeral(s@) && dec_val(dec_digits_part(s@)) < 0x1_0000_0000_0000_0000,
        r matches Some(v) ==> v as int == dec_val(dec_digits_part(s@)),
        r matches Some(v) ==> v == numeral_value(s@),
{
    let n = s.len();
    let start: usize = if n > 0 && s[0] == 0x2bu8 {
        1
    } else {
        0
    };
    let ghost d = dec_digits_part(s@);
    proof {
        assert(d =~= s@.skip(start as int));
    }
    if n == start {
        assert(d.len() == 0);
        return None;
    }
    let mut acc: u64 = 0;
    let mut i: usize = start;
    while i < n
        invariant
            start <= i <= n,
            n == s@.len(),
            d == dec_digits_part(s@),
            d == s@.skip(start as int),
            forall|j: int| 0 <= j < i - start ==> is_dec_digit(#[trigger] d[j]),
            acc as int == dec_val(d.take(i - start)),
        decreases n - i,
    {
        let c = s[i];
        if !(0x30 <= c && c <= 0x39) {
            assert(!is_dec_digit(d[i - start]));
            return None;
        }
        let digit = (c - 0x30) as u64;
        assert(digit < 10);
        if acc > (0xffff_ffff_ffff_ffffu64 - digit) / 10 {
            proof {
                let k = i - start + 1;
                assert(d.take(k).drop_last() =~= d.take(k - 1));
                assert(d.take(k).last() == d[k - 1]);
                assert(dec_val(d.take(k)) == acc * 10 + digit);
                assert(acc * 10 + digit > 0xffff_ffff_ffff_ffff) by (nonlinear_arith)
                    requires
                        acc > (0xffff_ffff_ffff_ffffu64 - digit) / 10,
                        digit < 10,
                ;
                assert(forall|j: int| 0 <= j < k ==> is_dec_digit(#[trigger] d.take(k)[j]));
                lemma_dec_val_prefix_general(d, k);
            }
            return None;
        }
        proof {
            let k = i - start + 1;
            assert(d.take(k).drop_last() =~= d.take(k - 1));
            assert(d.take(k).last() == d[k - 1]);
            assert(acc * 10 + digit <= 0xffff_ffff_ffff_ffff) by (nonlinear_arith)
                requires
                    acc <= (0xffff_ffff_ffff_ffffu64 - digit) / 10,
                    digit < 10,
            ;
        }
        acc = acc * 10 + digit;
        i += 1;
    }
    assert(d.take(i - start) =~= d);
    Some(acc)
}

/// If a prefix of a digit string already exceeds a bound, so does the
/// whole string; stated for strings whose examined prefix is all digits
/// even when what follows is unknown.
proof fn lemma_dec_val_prefix_general(s: Seq<u8>, k: int)
    requires
        0 <= k <= s.len(),
        forall|i: int| 0 <= i < k ==> is_dec_digit(#[trigger] s[i]),
    ensures
        (forall|i: int| 0 <= i < s.len() ==> is_dec_digit(#[trigger] s[i])) ==> dec_val(s.take(k))
            <= dec_val(s),
{
    if forall|i: int| 0 <= i < s.len() ==> is_dec_digit(#[trigger] s[i]) {
        lemma_dec_val_prefix(s, k);
    }
}

/// Shorten a long hex string for display: `0x`, the first eight digits,
/// `..`, and the last six. A string of fourteen digits or fewer only
/// gains the `0x` prefix; an existing prefix is not doubled.
pub open spec fn short_hex_chars(s: Seq<char>) -> Seq<char> {
    let hex = if s.len() >= 2 && s[0] == '0' && s[1] == 'x' {
        s.skip(2)
    } else {
        s
    };
    if hex.len() > 14 {
        seq!['0', 'x'] + hex.take(8) + seq!['.', '.'] + hex.skip(hex.len() - 6)
    } else {
        seq!['0', 'x'] + hex
    }
}

/// Shorten a long hex string for logs: `0x` + first eight + `..` + last
/// six digits.
pub fn short_hex(s: &str) -> (r: String)
    ensures
        r@ == short_hex_chars(s@),
{
    let n = s.unicode_len();
    let skip: usize = if n >= 2 && s.get_char(0) == '0' && s.get_char(1) == 'x' {
        2
    } else {
        0
    };
    let hex_len = n - skip;
    let ghost hex = if s@.len() >= 2 && s@[0] == '0' && s@[1] == 'x' {
        s@.skip(2)
    } else {
        s@
    };
    proof {
        assert(hex =~= s@.skip(skip as int));
    }
    let mut out = String::from_str("0x");
    proof {
        reveal_strlit("0x");
        reveal_strlit("..");
    }
    if hex_len > 14 {
        let head = s.substring_char(skip, skip + 8);
        out.append(head);
        out.append("..");
        let tail = s.substring_char(n - 6, n);
        out.append(tail);
        proof {
            assert(head@ =~= hex.take(8));
            assert(tail@ =~= hex.skip(hex.len() - 6));
            assert(out@ =~= short_hex_chars(s@));
        }
    } else {
        let rest = s.substring_char(skip, n);
        out.append(rest);
        proof {
            assert(rest@ =~= hex);
            assert(out@ =~= short_hex_chars(s@));
        }
    }
    out
}

} // verus!
