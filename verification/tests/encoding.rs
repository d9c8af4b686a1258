use mesh_renderer::render::buffer::BufferUsage;
use mesh_renderer::render::encoding::{encode_words, push_word, read_word, write_word, write_words};
use mesh_renderer::render::mesh_storage::{
    index_buffer_data, is_valid_mesh, vertex_buffer_data, Position,
};
use mesh_renderer::render::transform::Transform;

fn position(x: f32, y: f32, z: f32) -> Position {
    Position { bits: [x.to_bits(), y.to_bits(), z.to_bits()] }
}

#[test]
fn word_is_written_least_significant_byte_first() {
    let mut out = vec![0xaau8; 8];
    write_word(&mut out, 2, 0x1122_3344);
    assert_eq!(out, vec![0xaa, 0xaa, 0x44, 0x33, 0x22, 0x11, 0xaa, 0xaa]);
}

#[test]
fn write_word_matches_the_host_conversion() {
    for word in [0u32, 1, 0xff, 0x100, 0x8000_0000, 0xdead_beef, u32::MAX] {
        let mut out = vec![0u8; 4];
        write_word(&mut out, 0, word);
        assert_eq!(out, word.to_le_bytes().to_vec());
    }
}

#[test]
fn push_word_appends_four_bytes() {
    let mut out = vec![7u8];
    push_word(&mut out, 0x0102_0304);
    assert_eq!(out, vec![7, 4, 3, 2, 1]);
}

#[test]
fn write_words_leaves_the_rest_alone() {
    let mut out: Vec<u8> = (0u8..16).collect();
    write_words(&mut out, 4, &[0xa1a2_a3a4, 0xb1b2_b3b4]);
    assert_eq!(
        out,
        vec![0, 1, 2, 3, 0xa4, 0xa3, 0xa2, 0xa1, 0xb4, 0xb3, 0xb2, 0xb1, 12, 13, 14, 15]
    );
}

#[test]
fn write_words_with_nothing_to_write_changes_nothing() {
    let mut out = vec![9u8; 4];
    write_words(&mut out, 4, &[]);
    assert_eq!(out, vec![9u8; 4]);
}

#[test]
fn read_word_undoes_write_word() {
    for word in [0u32, 0x7fc0_0001, 0x8000_0000, 0x0000_0001, 0xffff_ffff, 0x1234_5678] {
        let mut out = vec![0u8; 12];
        write_word(&mut out, 5, word);
        assert_eq!(read_word(&out, 5), word);
    }
}

#[test]
fn read_word_assembles_little_endian() {
    assert_eq!(read_word(&[0x78, 0x56, 0x34, 0x12], 0), 0x1234_5678);
    assert_eq!(read_word(&[0, 0xff, 0, 0, 0x80], 1), 0x8000_00ff);
}

#[test]
fn encode_words_concatenates() {
    assert_eq!(encode_words(&[]), Vec::<u8>::new());
    assert_eq!(encode_words(&[1, 0x0200]), vec![1, 0, 0, 0, 0, 2, 0, 0]);
}

#[test]
fn index_buffer_holds_each_index_as_a_word() {
    let data = index_buffer_data(&[0, 1, 2]);
    assert_eq!(data.usage, BufferUsage::index());
    assert_eq!(data.contents, vec![0, 0, 0, 0, 1, 0, 0, 0, 2, 0, 0, 0]);
}

#[test]
fn index_buffer_usage_is_index_only() {
    let usage = index_buffer_data(&[5]).usage;
    assert!(usage.index);
    assert!(!usage.vertex && !usage.uniform && !usage.copy_src && !usage.copy_dst);
}

#[test]
fn vertex_buffer_holds_three_words_per_position() {
    let vertices = [position(0.0, 1.0, -2.0), position(0.5, f32::MIN_POSITIVE, f32::INFINITY)];
    let data = vertex_buffer_data(&vertices);
    assert_eq!(data.usage, BufferUsage::vertex());
    let mut expected = Vec::new();
    for coordinate in [0.0f32, 1.0, -2.0, 0.5, f32::MIN_POSITIVE, f32::INFINITY] {
        expected.extend_from_slice(&coordinate.to_le_bytes());
    }
    assert_eq!(data.contents, expected);
    assert_eq!(data.contents.len(), 24);
}

#[test]
fn vertex_buffer_usage_is_vertex_only() {
    let usage = vertex_buffer_data(&[position(0.0, 0.0, 0.0)]).usage;
    assert!(usage.vertex);
    assert!(!usage.index && !usage.uniform && !usage.copy_src && !usage.copy_dst);
}

#[test]
fn vertex_buffer_of_nothing_is_empty() {
    assert_eq!(vertex_buffer_data(&[]).contents, Vec::<u8>::new());
}

#[test]
fn one_is_the_bit_pattern_of_the_float() {
    assert_eq!(Transform::ONE, 1.0f32.to_bits());
}

#[test]
fn transform_bytes_are_the_floats_in_order() {
    let mut bits = [0u32; 16];
    let mut expected = Vec::new();
    for (i, word) in bits.iter_mut().enumerate() {
        let element = i as f32 * 1.5 - 4.0;
        *word = element.to_bits();
        expected.extend_from_slice(&element.to_le_bytes());
    }
    let bytes = Transform::from_bits(bits).to_bytes();
    assert_eq!(bytes.len(), 64);
    assert_eq!(bytes, expected);
}

#[test]
fn triangle_is_a_valid_mesh() {
    let vertices = [position(0.0, 0.0, 0.0), position(1.0, 0.0, 0.0), position(0.0, 1.0, 0.0)];
    assert!(is_valid_mesh(&vertices, &[0, 1, 2]));
    assert!(is_valid_mesh(&vertices, &[2, 2, 0, 1]));
}

#[test]
fn empty_geometry_is_not_a_valid_mesh() {
    let vertices = [position(0.0, 0.0, 0.0)];
    assert!(!is_valid_mesh(&[], &[0]));
    assert!(!is_valid_mesh(&vertices, &[]));
    assert!(!is_valid_mesh(&[], &[]));
}

#[test]
fn index_past_the_last_vertex_is_not_valid() {
    let vertices = [position(0.0, 0.0, 0.0), position(1.0, 0.0, 0.0), position(0.0, 1.0, 0.0)];
    assert!(!is_valid_mesh(&vertices, &[0, 1, 3]));
    assert!(!is_valid_mesh(&vertices, &[u32::MAX]));
    assert!(is_valid_mesh(&vertices, &[2]));
}
