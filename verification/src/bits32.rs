//! Bit-level view of the host's 32-bit numeric payload.
//!
//! The host stores every number as an IEEE-754 single-precision value. The
//! verified library never computes with such numbers; it only needs to
//! compare them by the host's equality rule (NaN compares unequal even to
//! itself, the two zeroes compare equal) and to move small natural numbers
//! (list lengths, indices) in and out of that representation. Both are pure
//! functions of the 32 payload bits, defined and verified here.

use vstd::arithmetic::div_mod::{
    lemma_fundamental_div_mod_converse, lemma_div_by_multiple, lemma_mod_multiples_basic,
};
use vstd::arithmetic::power2::{lemma_pow2_adds, lemma_pow2_pos, lemma_pow2_strictly_increases, pow2};
use vstd::prelude::*;

verus! {

/// Payload bits with the sign bit cleared.
pub open spec fn abs_bits(bits: u32) -> u32 {
    if bits >= 0x8000_0000 {
        (bits - 0x8000_0000) as u32
    } else {
        bits
    }
}

/// The payload encodes a NaN: exponent all ones, fraction nonzero.
pub open spec fn is_nan_bits(bits: u32) -> bool {
    abs_bits(bits) > 0x7f80_0000
}

/// The payload encodes positive or negative zero.
pub open spec fn is_zero_bits(bits: u32) -> bool {
    abs_bits(bits) == 0
}

/// The host's equality rule on numeric payloads: IEEE-754 equality.
/// NaN is never equal, the two zeroes are always equal, and every other
/// value is equal exactly to its own bit pattern.
pub open spec fn ieee_eq_bits(a: u32, b: u32) -> bool {
    &&& !is_nan_bits(a)
    &&& !is_nan_bits(b)
    &&& (a == b || (is_zero_bits(a) && is_zero_bits(b)))
}

/// Runtime check for [`is_nan_bits`].
pub fn nan_bits(bits: u32) -> (r: bool)
    ensures
        r == is_nan_bits(bits),
{
    let a = if bits >= 0x8000_0000 { bits - 0x8000_0000 } else { bits };
    a > 0x7f80_0000
}

/// Runtime check for [`ieee_eq_bits`].
pub fn eq_bits(a: u32, b: u32) -> (r: bool)
    ensures
        r == ieee_eq_bits(a, b),
{
    let aa = if a >= 0x8000_0000 { a - 0x8000_0000 } else { a };
    let ab = if b >= 0x8000_0000 { b - 0x8000_0000 } else { b };
    if aa > 0x7f80_0000 || ab > 0x7f80_0000 {
        false
    } else {
        a == b || (aa == 0 && ab == 0)
    }
}

/// Base-two logarithm, rounded down.
pub open spec fn log2(n: nat) -> nat
    decreases n,
{
    if n < 2 {
        0
    } else {
        1 + log2(n / 2)
    }
}

/// For n at least 1, `log2(n)` is the unique k with `pow2(k) <= n < pow2(k + 1)`.
pub proof fn lemma_log2_unique(n: nat, k: nat)
    requires
        pow2(k) <= n < pow2(k + 1),
    ensures
        log2(n) == k,
    decreases k,
{
    if k == 0 {
        assert(pow2(0) == 1 && pow2(1) == 2) by {
            lemma_pow2_unfold_small();
        }
    } else {
        assert(pow2(k) == 2 * pow2((k - 1) as nat) && pow2(k + 1) == 2 * pow2(k)) by {
            lemma_pow2_adds(1, (k - 1) as nat);
            lemma_pow2_adds(1, k);
            lemma_pow2_unfold_small();
        }
        assert(pow2((k - 1) as nat) <= n / 2 < pow2(k));
        lemma_log2_unique(n / 2, (k - 1) as nat);
        assert(n >= 2) by {
            lemma_pow2_pos((k - 1) as nat);
        }
    }
}

proof fn lemma_pow2_unfold_small()
    ensures
        pow2(0) == 1,
        pow2(1) == 2,
{
    vstd::arithmetic::power2::lemma2_to64();
}

/// The IEEE-754 single-precision bit pattern of a natural number below 2^24.
/// Every such number is exactly representable.
pub open spec fn bits_of_u24(n: u32) -> u32
    recommends
        n < 0x0100_0000,
{
    if n == 0 {
        0u32
    } else {
        let k = log2(n as nat);
        (((127 + k) * 0x80_0000 + (n - pow2(k)) * pow2((23 - k) as nat)) as u32)
    }
}

/// Reads a bit pattern back as a natural number below 2^24, if it is the
/// IEEE-754 single-precision encoding of one.
pub open spec fn u24_of_bits(bits: u32) -> Option<u32> {
    if bits == 0 {
        Some(0u32)
    } else {
        let e = bits as nat / 0x80_0000;
        let f = bits as nat % 0x80_0000;
        if e < 127 || e > 150 {
            None
        } else {
            let k = (e - 127) as nat;
            let q = pow2((23 - k) as nat);
            if f % q != 0 {
                None
            } else {
                Some(((pow2(k) + f / q) as u32))
            }
        }
    }
}

/// Encodes a natural number below 2^24 as its IEEE-754 bit pattern.
pub fn encode_u24(n: u32) -> (bits: u32)
    requires
        n < 0x0100_0000,
    ensures
        bits == bits_of_u24(n),
{
    if n == 0 {
        return 0;
    }
    let mut k: u32 = 0;
    let mut p: u32 = 1;
    proof {
        lemma_pow2_unfold_small();
    }
    while p * 2 <= n
        invariant
            1 <= n < 0x0100_0000,
            p == pow2(k as nat),
            1 <= p <= n,
            k <= 23,
        decreases n - p,
    {
        proof {
            lemma_pow2_adds(1, k as nat);
            lemma_pow2_unfold_small();
            vstd::arithmetic::power2::lemma2_to64();
            if k + 1 > 24 {
                lemma_pow2_strictly_increases(24, (k + 1) as nat);
            }
        }
        p = p * 2;
        k = k + 1;
    }
    proof {
        lemma_pow2_adds(1, k as nat);
        lemma_pow2_unfold_small();
        lemma_log2_unique(n as nat, k as nat);
    }
    let mut q: u32 = 1;
    let mut j: u32 = 0;
    proof {
        lemma_pow2_unfold_small();
    }
    while j < 23 - k
        invariant
            k <= 23,
            j <= 23 - k,
            q == pow2(j as nat),
        decreases 23 - k - j,
    {
        proof {
            lemma_pow2_adds(1, j as nat);
            lemma_pow2_unfold_small();
            lemma_pow2_le_24(j as nat + 1);
        }
        q = q * 2;
        j = j + 1;
    }
    proof {
        lemma_pow2_adds(k as nat, (23 - k) as nat);
        assert(pow2(23) == 0x80_0000) by {
            vstd::arithmetic::power2::lemma2_to64();
        }
        lemma_pow2_pos((23 - k) as nat);
        assert((n - p) * q < p * q) by {
            vstd::arithmetic::mul::lemma_mul_strict_inequality((n - p) as int, p as int, q as int);
        }
    }
    (127 + k) * 0x80_0000 + (n - p) * q
}

proof fn lemma_pow2_le_24(e: nat)
    requires
        e <= 24,
    ensures
        pow2(e) <= 0x0100_0000,
{
    if e < 24 {
        lemma_pow2_strictly_increases(e, 24);
    }
    assert(pow2(24) == 0x0100_0000) by {
        vstd::arithmetic::power2::lemma2_to64();
    }
}

/// Decodes an IEEE-754 bit pattern into the natural number below 2^24 it
/// encodes, if any.
pub fn decode_u24(bits: u32) -> (r: Option<u32>)
    ensures
        r == u24_of_bits(bits),
{
    if bits == 0 {
        return Some(0);
    }
    let e = bits / 0x80_0000;
    let f = bits % 0x80_0000;
    if e < 127 || e > 150 {
        return None;
    }
    let k = e - 127;
    let mut q: u32 = 1;
    let mut j: u32 = 0;
    proof {
        lemma_pow2_unfold_small();
    }
    while j < 23 - k
        invariant
            k <= 23,
            j <= 23 - k,
            q == pow2(j as nat),
        decreases 23 - k - j,
    {
        proof {
            lemma_pow2_adds(1, j as nat);
            lemma_pow2_unfold_small();
            lemma_pow2_le_24(j as nat + 1);
        }
        q = q * 2;
        j = j + 1;
    }
    proof {
        lemma_pow2_pos((23 - k) as nat);
    }
    if f % q != 0 {
        return None;
    }
    let mut p: u32 = 1;
    let mut i: u32 = 0;
    proof {
        lemma_pow2_unfold_small();
    }
    while i < k
        invariant
            k <= 23,
            i <= k,
            p == pow2(i as nat),
        decreases k - i,
    {
        proof {
            lemma_pow2_adds(1, i as nat);
            lemma_pow2_unfold_small();
            lemma_pow2_le_24(i as nat + 1);
        }
        p = p * 2;
        i = i + 1;
    }
    proof {
        lemma_pow2_le_24(k as nat);
        assert(f / q < 0x80_0000) by {
            vstd::arithmetic::div_mod::lemma_div_nonincreasing(f as int, q as int);
        }
    }
    Some(p + f / q)
}

/// Round trip: decoding the encoding of a small natural number yields it back.
pub proof fn lemma_u24_roundtrip(n: u32)
    requires
        n < 0x0100_0000,
    ensures
        u24_of_bits(bits_of_u24(n)) == Some(n),
{
    if n != 0 {
        let k = log2(n as nat);
        lemma_pow2_log2_bounds(n as nat);
        let p: int = pow2(k) as int;
        let q: int = pow2((23 - k) as nat) as int;
        let m: int = (n - p) * q;
        lemma_pow2_adds(k, (23 - k) as nat);
        assert(pow2(23) == 0x80_0000) by {
            vstd::arithmetic::power2::lemma2_to64();
        }
        lemma_pow2_pos((23 - k) as nat);
        assert(n - p < p) by {
            lemma_pow2_adds(1, k);
            lemma_pow2_unfold_small();
        }
        assert(m < 0x80_0000) by {
            vstd::arithmetic::mul::lemma_mul_strict_inequality(n - p, p, q);
        }
        let bits = bits_of_u24(n);
        assert(bits == (127 + k) * 0x80_0000 + m);
        assert(bits != 0) by {
            vstd::arithmetic::mul::lemma_mul_increases(0x80_0000int, (127 + k) as int);
        }
        lemma_fundamental_div_mod_converse(bits as int, 0x80_0000, (127 + k) as int, m);
        assert(bits as nat / 0x80_0000 == 127 + k);
        assert(bits as nat % 0x80_0000 == m);
        lemma_mod_multiples_basic(n - p, q);
        lemma_div_by_multiple(n - p, q);
        assert(m % q == 0 && m / q == n - p);
    }
}

/// For n at least 1, n lies between `pow2(log2(n))` and `pow2(log2(n) + 1)`,
/// and below 2^24 the logarithm stays at most 23.
pub proof fn lemma_pow2_log2_bounds(n: nat)
    requires
        1 <= n,
    ensures
        pow2(log2(n)) <= n < pow2(log2(n) + 1),
        n < 0x0100_0000 ==> log2(n) <= 23,
    decreases n,
{
    if n < 2 {
        lemma_pow2_unfold_small();
    } else {
        lemma_pow2_log2_bounds(n / 2);
        lemma_pow2_adds(1, log2(n / 2));
        lemma_pow2_adds(1, log2(n / 2) + 1);
        lemma_pow2_unfold_small();
        if n < 0x0100_0000 && log2(n) > 23 {
            lemma_pow2_le_24(24);
            lemma_pow2_strictly_increases(23, log2(n));
            assert(pow2(23) == 0x80_0000) by {
                vstd::arithmetic::power2::lemma2_to64();
            }
        }
    }
}

/// An encoded small natural number is a finite, non-NaN payload, and it is
/// the zero payload exactly for zero.
pub proof fn lemma_u24_bits_plain(n: u32)
    requires
        n < 0x0100_0000,
    ensures
        !is_nan_bits(bits_of_u24(n)),
        is_zero_bits(bits_of_u24(n)) <==> n == 0,
        n != 0 ==> bits_of_u24(n) != 0,
{
    if n != 0 {
        let k = log2(n as nat);
        lemma_pow2_log2_bounds(n as nat);
        let p: int = pow2(k) as int;
        let q: int = pow2((23 - k) as nat) as int;
        let m: int = (n - p) * q;
        lemma_pow2_adds(k, (23 - k) as nat);
        assert(pow2(23) == 0x80_0000) by {
            vstd::arithmetic::power2::lemma2_to64();
        }
        lemma_pow2_pos((23 - k) as nat);
        assert(n - p < p) by {
            lemma_pow2_adds(1, k);
            lemma_pow2_unfold_small();
        }
        assert(m < 0x80_0000) by {
            vstd::arithmetic::mul::lemma_mul_strict_inequality(n - p, p, q);
        }
        assert((127 + k) * 0x80_0000 <= 150 * 0x80_0000) by {
            vstd::arithmetic::mul::lemma_mul_inequality((127 + k) as int, 150, 0x80_0000);
        }
        assert(bits_of_u24(n) != 0) by {
            vstd::arithmetic::mul::lemma_mul_increases(0x80_0000int, (127 + k) as int);
        }
    }
}

} // verus!
