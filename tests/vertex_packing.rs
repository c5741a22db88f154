use mesh_render::vertex::{
    interleaved_layout, pack_interleaved, read_vertex, VertexBits, VertexFormat, VERTEX_STRIDE,
};

fn vertex(p: [f32; 3], n: [f32; 3], uv: [f32; 2]) -> VertexBits {
    VertexBits {
        position: p.map(f32::to_bits),
        normal: n.map(f32::to_bits),
        uv: uv.map(f32::to_bits),
    }
}

#[test]
fn packed_record_reads_back_bit_for_bit() {
    let vs = vec![
        vertex([-0.5, -0.5, 0.5], [0.0, 0.0, 1.0], [0.0, 1.0]),
        vertex([0.5, f32::NAN, -0.0], [1.5e-40, -1.0, 0.25], [0.75, 0.125]),
        vertex([3.0, 2.0, 1.0], [0.0, 1.0, 0.0], [1.0, 0.0]),
    ];
    let bytes = pack_interleaved(&vs);
    assert_eq!(bytes.len(), 3 * VERTEX_STRIDE);
    for (i, v) in vs.iter().enumerate() {
        assert_eq!(read_vertex(&bytes, i), Some(*v));
    }
    assert_eq!(read_vertex(&bytes, 3), None);
}

#[test]
fn packed_layout_is_little_endian_interleaved() {
    let vs = vec![vertex([1.0, 2.0, 3.0], [4.0, 5.0, 6.0], [7.0, 8.0])];
    let bytes = pack_interleaved(&vs);
    assert_eq!(&bytes[0..4], &1.0f32.to_le_bytes());
    assert_eq!(&bytes[12..16], &4.0f32.to_le_bytes());
    assert_eq!(&bytes[24..28], &7.0f32.to_le_bytes());
    assert_eq!(&bytes[28..32], &8.0f32.to_le_bytes());
}

#[test]
fn empty_vertex_list_packs_to_nothing() {
    let bytes = pack_interleaved(&Vec::new());
    assert!(bytes.is_empty());
    assert_eq!(read_vertex(&bytes, 0), None);
}

#[test]
fn interleaved_layout_offsets() {
    let l = interleaved_layout();
    assert_eq!(l.stride, 32);
    assert_eq!(l.buffer_index, 1);
    assert_eq!(l.step_rate, 1);
    assert_eq!(l.attributes.len(), 3);
    assert_eq!(l.attributes[0].format, VertexFormat::Float3);
    assert_eq!(l.attributes[0].offset, 0);
    assert_eq!(l.attributes[1].format, VertexFormat::Float3);
    assert_eq!(l.attributes[1].offset, 12);
    assert_eq!(l.attributes[2].format, VertexFormat::Float2);
    assert_eq!(l.attributes[2].offset, 24);
    assert!(l.attributes.iter().all(|a| a.buffer_index == 1));
}
