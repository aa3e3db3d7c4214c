use canvas_control::command::Command;
use canvas_control::geometry::{
    quad, triangle, GeometryBuffer, Vertex, COMPONENTS_PER_VERTEX, VERTICES_PER_TRIANGLE,
};
use canvas_control::scalar::{
    Rgba, Scalar, MINUS_ONE_BITS, ONE_BITS, SEVEN_TENTHS_BITS, ZERO_BITS,
};
use canvas_control::shader::AttributeHandle;

fn vertex(x: f32, y: f32, z: f32) -> Vertex {
    Vertex::new(
        Scalar::from_bits(x.to_bits()),
        Scalar::from_bits(y.to_bits()),
        Scalar::from_bits(z.to_bits()),
    )
}

#[test]
fn scalar_patterns_are_those_of_the_numbers() {
    assert_eq!(ZERO_BITS, 0.0f32.to_bits());
    assert_eq!(ONE_BITS, 1.0f32.to_bits());
    assert_eq!(MINUS_ONE_BITS, (-1.0f32).to_bits());
    assert_eq!(SEVEN_TENTHS_BITS, 0.7f32.to_bits());
    assert_eq!(f32::from_bits(Scalar::zero().to_bits()), 0.0);
    assert_eq!(f32::from_bits(Scalar::one().to_bits()), 1.0);
    assert_eq!(f32::from_bits(Scalar::minus_one().to_bits()), -1.0);
    assert_eq!(Scalar::from_bits(0x4049_0FDB).to_bits(), 0x4049_0FDB);
}

#[test]
fn backdrop_is_opaque_green() {
    let colour = Rgba::backdrop();
    assert_eq!(f32::from_bits(colour.red.bits), 0.0);
    assert_eq!(f32::from_bits(colour.green.bits), 0.7);
    assert_eq!(f32::from_bits(colour.blue.bits), 0.0);
    assert_eq!(f32::from_bits(colour.alpha.bits), 1.0);
}

#[test]
fn quad_is_two_triangles_over_the_surface() {
    let expected = vec![
        vertex(-1.0, -1.0, 0.0),
        vertex(1.0, -1.0, 0.0),
        vertex(1.0, 1.0, 0.0),
        vertex(-1.0, -1.0, 0.0),
        vertex(-1.0, 1.0, 0.0),
        vertex(1.0, 1.0, 0.0),
    ];
    assert_eq!(quad(), expected);
}

#[test]
fn triangle_is_the_first_half_of_the_quad() {
    let expected =
        vec![vertex(-1.0, -1.0, 0.0), vertex(1.0, -1.0, 0.0), vertex(1.0, 1.0, 0.0)];
    assert_eq!(triangle(), expected);
    assert_eq!(triangle()[..], quad()[..3]);
}

#[test]
fn upload_of_the_quad_yields_two_triangles() {
    let mut buffer = GeometryBuffer::new();
    let command = buffer.upload(&quad());
    assert_eq!(command, Command::UploadVertices { count: 6 });
    assert_eq!(buffer.vertex_count(), 6);
    assert_eq!(buffer.triangle_count(), 2);
    assert_eq!(buffer.vertices(), &quad());
}

#[test]
fn new_buffer_is_empty() {
    let buffer = GeometryBuffer::new();
    assert_eq!(buffer.vertex_count(), 0);
    assert_eq!(buffer.triangle_count(), 0);
    assert!(buffer.vertices().is_empty());
}

#[test]
fn triangle_count_is_a_third_of_the_vertices_rounded_down() {
    assert_eq!(VERTICES_PER_TRIANGLE, 3);
    let mut vertices: Vec<Vertex> = Vec::new();
    let mut buffer = GeometryBuffer::new();
    for n in 0..20usize {
        let command = buffer.upload(&vertices);
        assert_eq!(command, Command::UploadVertices { count: n });
        assert_eq!(buffer.vertex_count(), n);
        assert_eq!(buffer.triangle_count(), n / 3);
        vertices.push(vertex(n as f32, 0.5, -2.0));
    }
}

#[test]
fn upload_again_replaces_the_vertices() {
    let mut buffer = GeometryBuffer::new();
    buffer.upload(&quad());
    let command = buffer.upload(&triangle());
    assert_eq!(command, Command::UploadVertices { count: 3 });
    assert_eq!(buffer.vertices(), &triangle());
    assert_eq!(buffer.triangle_count(), 1);
    let command = buffer.upload(&Vec::new());
    assert_eq!(command, Command::UploadVertices { count: 0 });
    assert_eq!(buffer.triangle_count(), 0);
}

#[test]
fn upload_keeps_the_order_and_the_values() {
    let vertices = vec![
        vertex(0.25, -0.5, 3.0),
        vertex(f32::MAX, f32::MIN_POSITIVE, -0.0),
        vertex(f32::INFINITY, f32::NEG_INFINITY, 1e-20),
    ];
    let mut buffer = GeometryBuffer::new();
    buffer.upload(&vertices);
    assert_eq!(buffer.vertices(), &vertices);
    assert_eq!(f32::from_bits(buffer.vertices()[0].y.to_bits()), -0.5);
}

#[test]
fn bind_as_attribute_wires_three_components() {
    assert_eq!(COMPONENTS_PER_VERTEX, 3);
    let mut buffer = GeometryBuffer::new();
    buffer.upload(&quad());
    let command = buffer.bind_as_attribute(AttributeHandle { program: 4, slot: 2 });
    assert_eq!(command, Command::BindAttribute { program: 4, slot: 2, components: 3 });
}
