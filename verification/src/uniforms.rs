//! The per-frame uniform block and its wire format.

use crate::encoding::{float_bits, float_bits_of, le_bytes_u32, lemma_float_bits_in_range, push_le_bytes_u32};
use vstd::prelude::*;

verus! {

/// The uniform block read by every shader. Field order and width are part
/// of the wire contract with the shaders: an unsigned 32-bit word, then the
/// working width and height, sent as single-precision values. The block is
/// rebuilt from the current dimensions and the toggling iteration counter
/// every tick.
#[derive(Debug, Clone, Copy, PartialEq, Eq, Structural)]
pub struct Uniforms {
    /// Toggles between 0 and 1 every tick.
    pub iteration: u32,
    /// Working width in pixels.
    pub width: u32,
    /// Working height in pixels.
    pub height: u32,
}

/// Builds the block for one tick.
pub fn create_uniforms(width: u32, height: u32, iteration: u32) -> (u: Uniforms)
    ensures
        u == (Uniforms { iteration, width, height }),
{
    Uniforms { width, height, iteration }
}

/// The twelve wire bytes of the block: `iteration` little-endian, then the
/// single-precision patterns of `width` and `height`.
pub open spec fn uniforms_repr(u: Uniforms) -> Seq<u8> {
    le_bytes_u32(u.iteration) + le_bytes_u32(float_bits(u.width as nat) as u32) + le_bytes_u32(
        float_bits(u.height as nat) as u32,
    )
}

/// Serializes the block for upload into a staging buffer. The bound keeps
/// both dimensions in the exactly representable single-precision range.
pub fn uniforms_as_bytes(uniforms: &Uniforms) -> (r: Vec<u8>)
    requires
        uniforms.width < 0x100_0000,
        uniforms.height < 0x100_0000,
    ensures
        r@ == uniforms_repr(*uniforms),
        r@.len() == 12,
{
    proof {
        lemma_float_bits_in_range(uniforms.width as nat);
        lemma_float_bits_in_range(uniforms.height as nat);
    }
    let mut r: Vec<u8> = Vec::new();
    push_le_bytes_u32(&mut r, uniforms.iteration);
    push_le_bytes_u32(&mut r, float_bits_of(uniforms.width));
    push_le_bytes_u32(&mut r, float_bits_of(uniforms.height));
    r
}

/// The iteration value used by tick `n`.
pub open spec fn iteration_of(n: u64) -> u32 {
    (n % 2) as u32
}

/// Law: the iteration counter is a strict two-state oscillation. At tick
/// `n` it equals `n mod 2`, and the value of the next tick is the current
/// value with its lowest bit flipped.
pub proof fn lemma_iteration_oscillates(n: u64)
    requires
        n < u64::MAX,
    ensures
        iteration_of(n) == n % 2,
        iteration_of((n + 1) as u64) == iteration_of(n) ^ 1u32,
{
    assert(n % 2 == 0 || n % 2 == 1);
    if n % 2 == 0 {
        assert((n + 1) % 2 == 1);
        assert(0u32 ^ 1u32 == 1u32) by (bit_vector);
    } else {
        assert((n + 1) % 2 == 0);
        assert(1u32 ^ 1u32 == 0u32) by (bit_vector);
    }
}

} // verus!
