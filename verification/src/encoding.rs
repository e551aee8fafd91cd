//! Byte-level encodings shared by the geometry and uniform modules.
//!
//! The shader wire contract stores the working dimensions and the quad's
//! coordinates as IEEE 754 single-precision values. The library never
//! computes with such values; it only needs their bit patterns, and only for
//! exact integers of small magnitude, where the pattern is a simple
//! function of the integer: a biased exponent and a left-aligned mantissa.
//! That function is defined and computed here over plain integers.

use vstd::arithmetic::power2::{lemma2_to64, lemma_pow2_adds, lemma_pow2_strictly_increases, pow2};
use vstd::prelude::*;

verus! {

/// Floor of the base-two logarithm of `v` (0 for `v == 0`).
pub open spec fn log2(v: nat) -> nat
    decreases v,
{
    if v < 2 {
        0
    } else {
        1 + log2(v / 2)
    }
}

/// `pow2(log2(v)) <= v < pow2(log2(v) + 1)` for positive `v`.
proof fn lemma_log2_bounds(v: nat)
    requires
        v >= 1,
    ensures
        pow2(log2(v)) <= v < pow2(log2(v) + 1),
    decreases v,
{
    if v < 2 {
        lemma2_to64();
    } else {
        lemma_log2_bounds(v / 2);
        assert(pow2(log2(v)) == 2 * pow2(log2(v / 2))) by {
            lemma_pow2_adds(1, log2(v / 2));
            lemma2_to64();
        }
        assert(pow2(log2(v) + 1) == 2 * pow2(log2(v / 2) + 1)) by {
            lemma_pow2_adds(1, log2(v / 2) + 1);
            lemma2_to64();
        }
    }
}

/// `log2` is at most `b` whenever `v` lies below `pow2(b + 1)`.
proof fn lemma_log2_below(v: nat, b: nat)
    requires
        v < pow2(b + 1),
    ensures
        log2(v) <= b,
{
    if v >= 1 {
        lemma_log2_bounds(v);
        if log2(v) > b {
            lemma_pow2_strictly_increases(b + 1, log2(v) + 1);
            assert(pow2(b + 1) <= pow2(log2(v))) by {
                if b + 1 < log2(v) {
                    lemma_pow2_strictly_increases(b + 1, log2(v));
                }
            }
        }
    }
}

/// The IEEE 754 single-precision bit pattern of the exact nonnegative
/// integer `v`, as a mathematical integer. Meaningful for `v < pow2(24)`,
/// the range in which every integer is exactly representable: the biased
/// exponent `127 + log2(v)` sits above a 23-bit mantissa holding the bits
/// of `v` below its leading one.
pub open spec fn float_bits(v: nat) -> nat {
    if v == 0 {
        0
    } else {
        (126 + log2(v)) * pow2(23) + v * pow2((23 - log2(v)) as nat)
    }
}

/// The bit pattern of the exact integer `c` with its sign: negative values
/// carry the sign bit above the pattern of their magnitude.
pub open spec fn float_bits_signed(c: int) -> nat {
    if c >= 0 {
        float_bits(c as nat)
    } else {
        0x8000_0000 + float_bits((-c) as nat)
    }
}

/// The pattern of a magnitude below `pow2(24)` fits in 31 bits, leaving
/// room for the sign bit.
pub proof fn lemma_float_bits_in_range(v: nat)
    requires
        v < 0x100_0000,
    ensures
        float_bits(v) < 0x8000_0000,
{
    lemma2_to64();
    if v > 0 {
        let e = log2(v);
        lemma_log2_below(v, 23);
        lemma_log2_bounds(v);
        assert(v * pow2((23 - e) as nat) < pow2(24)) by {
            lemma_pow2_adds(e + 1, (23 - e) as nat);
            vstd::arithmetic::mul::lemma_mul_inequality(
                (v + 1) as int,
                pow2(e + 1) as int,
                pow2((23 - e) as nat) as int,
            );
            vstd::arithmetic::mul::lemma_mul_is_distributive_add_other_way(
                pow2((23 - e) as nat) as int,
                v as int,
                1,
            );
            vstd::arithmetic::power2::lemma_pow2_pos((23 - e) as nat);
        }
        assert((126 + e) * pow2(23) <= 149 * pow2(23)) by {
            vstd::arithmetic::mul::lemma_mul_inequality((126 + e) as int, 149, pow2(23) as int);
        }
    }
}

/// `pow2` for word-sized exponents.
pub fn pow2_u32(e: u32) -> (r: u32)
    requires
        e <= 31,
    ensures
        r == pow2(e as nat),
{
    proof {
        lemma2_to64();
    }
    let mut i: u32 = 0;
    let mut r: u32 = 1;
    while i < e
        invariant
            i <= e <= 31,
            r == pow2(i as nat),
        decreases e - i,
    {
        proof {
            if (i as nat) + 1 < 32 {
                lemma_pow2_strictly_increases((i + 1) as nat, 32);
            }
            lemma_pow2_adds(i as nat, 1);
            lemma2_to64();
        }
        r = r * 2;
        i = i + 1;
    }
    r
}

/// Computes the single-precision bit pattern of the exact integer `v`.
/// The bound keeps `v` inside the exactly representable range.
pub fn float_bits_of(v: u32) -> (r: u32)
    requires
        v < 0x100_0000,
    ensures
        r == float_bits(v as nat),
        r < 0x8000_0000,
{
    proof {
        lemma_float_bits_in_range(v as nat);
    }
    if v == 0 {
        return 0;
    }
    proof {
        lemma2_to64();
        lemma_log2_below(v as nat, 23);
    }
    let mut e: u32 = 0;
    let mut m: u32 = v;
    while m >= 2
        invariant
            m >= 1,
            log2(v as nat) == e + log2(m as nat),
            e <= log2(v as nat) <= 23,
        decreases m,
    {
        proof {
            assert(log2(m as nat) >= 1);
        }
        m = m / 2;
        e = e + 1;
    }
    assert(e == log2(v as nat));
    proof {
        lemma_log2_bounds(v as nat);
        lemma2_to64();
        assert(v * pow2((23 - e) as nat) < pow2(24)) by {
            lemma_pow2_adds((e + 1) as nat, (23 - e) as nat);
            vstd::arithmetic::mul::lemma_mul_inequality(
                (v + 1) as int,
                pow2((e + 1) as nat) as int,
                pow2((23 - e) as nat) as int,
            );
            vstd::arithmetic::mul::lemma_mul_is_distributive_add_other_way(
                pow2((23 - e) as nat) as int,
                v as int,
                1,
            );
            vstd::arithmetic::power2::lemma_pow2_pos((23 - e) as nat);
        }
        assert((126 + e) * pow2(23) <= 149 * pow2(23)) by {
            vstd::arithmetic::mul::lemma_mul_inequality((126 + e) as int, 149, pow2(23) as int);
        }
    }
    let exponent_part: u32 = (126 + e) * 0x80_0000;
    let mantissa_part: u32 = v * pow2_u32(23 - e);
    exponent_part + mantissa_part
}

/// Computes the signed single-precision bit pattern of the exact integer
/// `c`; the bound keeps the magnitude exactly representable.
pub fn float_bits_of_signed(c: i32) -> (r: u32)
    requires
        -0x100_0000 < c < 0x100_0000,
    ensures
        r == float_bits_signed(c as int),
{
    if c >= 0 {
        float_bits_of(c as u32)
    } else {
        let magnitude: u32 = (-c) as u32;
        0x8000_0000u32 + float_bits_of(magnitude)
    }
}

/// The four little-endian bytes of a 32-bit word.
pub open spec fn le_bytes_u32(x: u32) -> Seq<u8> {
    seq![
        (x & 0xff) as u8,
        ((x >> 8) & 0xff) as u8,
        ((x >> 16) & 0xff) as u8,
        ((x >> 24) & 0xff) as u8,
    ]
}

/// Appends the little-endian bytes of `x` to `out`.
pub fn push_le_bytes_u32(out: &mut Vec<u8>, x: u32)
    ensures
        final(out)@ == old(out)@ + le_bytes_u32(x),
{
    proof {
        assert((x & 0xff) < 256 && ((x >> 8) & 0xff) < 256 && ((x >> 16) & 0xff) < 256 && ((x
            >> 24) & 0xff) < 256) by (bit_vector);
    }
    out.push((x & 0xff) as u8);
    out.push(((x >> 8) & 0xff) as u8);
    out.push(((x >> 16) & 0xff) as u8);
    out.push(((x >> 24) & 0xff) as u8);
    proof {
        assert(out@ =~= old(out)@ + le_bytes_u32(x));
    }
}

} // verus!
