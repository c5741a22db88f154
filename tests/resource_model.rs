use mesh_render::resource::{
    buffer_size, Buffer, BufferKind, GpuResourceHandle, IndexBuffer, Mesh, ResourceError, Topology,
};

fn h(id: u64) -> GpuResourceHandle {
    GpuResourceHandle { id }
}

#[test]
fn buffer_size_is_count_times_stride() {
    assert_eq!(buffer_size(3, 32), Ok(96));
    assert_eq!(buffer_size(0, 32), Ok(0));
    assert_eq!(buffer_size(usize::MAX, 2), Err(ResourceError::SizeOverflow));
}

#[test]
fn buffer_new_records_layout() {
    let b = Buffer::new(h(7), 4, 12, BufferKind::UV).unwrap();
    assert_eq!(b.buffer, h(7));
    assert_eq!(b.element_count, 4);
    assert_eq!(b.element_stride, 12);
    assert_eq!(b.binding, BufferKind::UV);
    assert_eq!(b.size_bytes(), 48);
    assert_eq!(
        Buffer::new(h(7), usize::MAX, 12, BufferKind::UV),
        Err(ResourceError::SizeOverflow)
    );
}

#[test]
fn binding_slots() {
    assert_eq!(BufferKind::POSITIONS.slot(), 1);
    assert_eq!(BufferKind::UV.slot(), 2);
    assert_eq!(BufferKind::NORMALS.slot(), 3);
}

#[test]
fn mesh_rejects_index_count_beyond_buffer() {
    let ib = IndexBuffer { buffer: h(2), index_total: 3 };
    let r = Mesh::new(Vec::new(), ib, None, 4, Topology::Triangle, [0; 16]);
    assert!(matches!(r, Err(ResourceError::IndexCountExceedsBuffer)));
    let m = Mesh::new(Vec::new(), ib, Some(h(5)), 3, Topology::Triangle, [1; 16]).unwrap();
    assert_eq!(m.index_count, 3);
    assert_eq!(m.materials, Some(h(5)));
    assert_eq!(m.model, [1; 16]);
}
