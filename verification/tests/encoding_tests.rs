//! The integer-only bit-pattern computations against real floating point.

use pixelsort::encoding::{float_bits_of, float_bits_of_signed, pow2_u32};

#[test]
fn float_bits_of_matches_hardware() {
    for v in [0u32, 1, 2, 3, 7, 64, 100, 255, 1920, 1080, 65535, 0xFF_FFFF] {
        assert_eq!(float_bits_of(v), (v as f32).to_bits(), "bits of {}", v);
    }
}

#[test]
fn float_bits_of_signed_matches_hardware() {
    for c in [-0xFF_FFFF, -1920, -64, -1, 0, 1, 2, 100, 0xFF_FFFF] {
        assert_eq!(float_bits_of_signed(c), (c as f32).to_bits(), "bits of {}", c);
    }
}

#[test]
fn float_bits_of_one_is_not_the_integer() {
    // The encoding really transforms its input: 1 maps to the pattern of
    // 1.0f32, not to 1.
    assert_eq!(float_bits_of(1), 0x3F80_0000);
    assert_ne!(float_bits_of(1), 1);
}

#[test]
fn pow2_u32_matches_shifts() {
    for e in 0..32u32 {
        assert_eq!(pow2_u32(e), 1u32 << e);
    }
}
