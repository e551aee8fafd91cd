//! Wire formats of the quad and of the uniform block.

use pixelsort::geometry::{quad_vertices, vertices_as_bytes, Vertex};
use pixelsort::uniforms::{create_uniforms, uniforms_as_bytes};

#[test]
fn quad_is_a_triangle_strip_over_the_whole_area() {
    let vs = quad_vertices();
    assert_eq!(vs.len(), 4);
    assert_eq!((vs[0].x, vs[0].y), (-1, 1));
    assert_eq!((vs[1].x, vs[1].y), (-1, -1));
    assert_eq!((vs[2].x, vs[2].y), (1, 1));
    assert_eq!((vs[3].x, vs[3].y), (1, -1));
}

#[test]
fn quad_bytes_are_the_single_precision_pairs() {
    let vs = quad_vertices();
    let bytes = vertices_as_bytes(vs.as_slice());
    let mut expected: Vec<u8> = Vec::new();
    for (x, y) in [(-1.0f32, 1.0f32), (-1.0, -1.0), (1.0, 1.0), (1.0, -1.0)] {
        expected.extend_from_slice(&x.to_bits().to_le_bytes());
        expected.extend_from_slice(&y.to_bits().to_le_bytes());
    }
    assert_eq!(bytes, expected);
}

#[test]
fn vertices_as_bytes_of_arbitrary_vertices() {
    let vs = vec![Vertex { x: 5, y: -320 }, Vertex { x: 0, y: 77 }];
    let bytes = vertices_as_bytes(vs.as_slice());
    let mut expected: Vec<u8> = Vec::new();
    for c in [5.0f32, -320.0, 0.0, 77.0] {
        expected.extend_from_slice(&c.to_bits().to_le_bytes());
    }
    assert_eq!(bytes, expected);
}

#[test]
fn uniforms_wire_format_is_iteration_width_height() {
    let u = create_uniforms(64, 48, 1);
    assert_eq!(u.iteration, 1);
    assert_eq!(u.width, 64);
    assert_eq!(u.height, 48);
    let bytes = uniforms_as_bytes(&u);
    let mut expected: Vec<u8> = Vec::new();
    expected.extend_from_slice(&1u32.to_le_bytes());
    expected.extend_from_slice(&(64.0f32).to_bits().to_le_bytes());
    expected.extend_from_slice(&(48.0f32).to_bits().to_le_bytes());
    assert_eq!(bytes, expected);
}

#[test]
fn uniforms_dimensions_are_sent_as_floats_not_integers() {
    // The width bytes are the pattern of 64.0f32, not the integer 64.
    let u = create_uniforms(64, 64, 0);
    let bytes = uniforms_as_bytes(&u);
    assert_eq!(&bytes[4..8], &(64.0f32).to_bits().to_le_bytes());
    assert_ne!(&bytes[4..8], &64u32.to_le_bytes());
}
