//! The fixed full-screen quad shared by every pass.

use crate::encoding::{float_bits_of_signed, float_bits_signed, le_bytes_u32, lemma_float_bits_in_range, push_le_bytes_u32};
use vstd::prelude::*;

verus! {

/// A point of the quad. The coordinates are exact integers in normalized
/// device space; the wire format sends them as single-precision values, so
/// only magnitudes below `pow2(24)` serialize exactly.
#[derive(Debug, Clone, Copy, PartialEq, Eq, Structural)]
pub struct Vertex {
    /// Position in normalized device coordinates.
    pub x: i32,
    /// Position in normalized device coordinates.
    pub y: i32,
}

/// Both coordinates serialize exactly.
pub open spec fn vertex_in_range(v: Vertex) -> bool {
    &&& -0x100_0000 < v.x < 0x100_0000
    &&& -0x100_0000 < v.y < 0x100_0000
}

/// The eight wire bytes of one vertex: the little-endian single-precision
/// patterns of `x` then `y`.
pub open spec fn vertex_repr(v: Vertex) -> Seq<u8> {
    le_bytes_u32(float_bits_signed(v.x as int) as u32) + le_bytes_u32(
        float_bits_signed(v.y as int) as u32,
    )
}

/// The wire bytes of a vertex sequence, in order.
pub open spec fn vertices_repr(vs: Seq<Vertex>) -> Seq<u8>
    decreases vs.len(),
{
    if vs.len() == 0 {
        Seq::empty()
    } else {
        vertices_repr(vs.drop_last()) + vertex_repr(vs.last())
    }
}

/// The four corners of the quad, in triangle-strip order, spanning the
/// whole normalized device area.
pub open spec fn quad() -> Seq<Vertex> {
    seq![
        Vertex { x: -1i32, y: 1i32 },
        Vertex { x: -1i32, y: -1i32 },
        Vertex { x: 1i32, y: 1i32 },
        Vertex { x: 1i32, y: -1i32 },
    ]
}

/// Builds the quad. It is created once at startup and shared read-only by
/// every pass.
pub fn quad_vertices() -> (r: Vec<Vertex>)
    ensures
        r@ == quad(),
{
    let mut r: Vec<Vertex> = Vec::new();
    r.push(Vertex { x: -1, y: 1 });
    r.push(Vertex { x: -1, y: -1 });
    r.push(Vertex { x: 1, y: 1 });
    r.push(Vertex { x: 1, y: -1 });
    proof {
        assert(r@ =~= quad());
    }
    r
}

/// Serializes vertices for upload into a vertex buffer: each as two
/// little-endian single-precision words.
pub fn vertices_as_bytes(data: &[Vertex]) -> (r: Vec<u8>)
    requires
        forall|i: int| 0 <= i < data@.len() ==> vertex_in_range(#[trigger] data@[i]),
    ensures
        r@ == vertices_repr(data@),
{
    let mut r: Vec<u8> = Vec::new();
    let mut i: usize = 0;
    while i < data.len()
        invariant
            i <= data@.len(),
            forall|j: int| 0 <= j < data@.len() ==> vertex_in_range(#[trigger] data@[j]),
            r@ == vertices_repr(data@.take(i as int)),
        decreases data@.len() - i,
    {
        let v = data[i];
        proof {
            if v.x < 0 {
                lemma_float_bits_in_range((-v.x) as nat);
            } else {
                lemma_float_bits_in_range(v.x as nat);
            }
            if v.y < 0 {
                lemma_float_bits_in_range((-v.y) as nat);
            } else {
                lemma_float_bits_in_range(v.y as nat);
            }
        }
        let xbits = float_bits_of_signed(v.x);
        let ybits = float_bits_of_signed(v.y);
        push_le_bytes_u32(&mut r, xbits);
        push_le_bytes_u32(&mut r, ybits);
        proof {
            assert(data@.take(i + 1).drop_last() =~= data@.take(i as int));
            assert(data@.take(i + 1).last() == v);
        }
        i = i + 1;
    }
    proof {
        assert(data@.take(data@.len() as int) =~= data@);
    }
    r
}

} // verus!
