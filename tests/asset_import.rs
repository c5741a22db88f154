use mesh_render::import::{
    import_asset, import_primitive, widen_indices, ImportConfig, ImportError, IndexData,
    PrimitiveSource, TextureSource,
};
use mesh_render::resource::{BufferKind, GpuResourceHandle, Topology};
use mesh_render::vertex::read_vertex;

const TEXTURED: ImportConfig = ImportConfig { include_normals: true, textured: true };
const PLAIN: ImportConfig = ImportConfig { include_normals: false, textured: false };

fn bits3(v: [f32; 3]) -> [u32; 3] {
    v.map(f32::to_bits)
}

fn triangle() -> PrimitiveSource {
    PrimitiveSource {
        positions: Some(vec![
            bits3([0.0, 0.5, 0.0]),
            bits3([-0.5, -0.5, 0.0]),
            bits3([0.5, -0.5, 0.0]),
        ]),
        normals: Some(vec![bits3([0.0, 0.0, 1.0]); 3]),
        uvs: Some(vec![[0, 0], [0, 1.0f32.to_bits()], [1.0f32.to_bits(), 1.0f32.to_bits()]]),
        indices: Some(IndexData::U16(vec![0, 1, 2])),
        texture: TextureSource::File(String::from("textures/base.png")),
        model: [0; 16],
    }
}

#[test]
fn widen_keeps_values_and_order() {
    assert_eq!(widen_indices(IndexData::U8(vec![2, 0, 255])), vec![2, 0, 255]);
    assert_eq!(widen_indices(IndexData::U16(vec![65535, 1])), vec![65535, 1]);
    assert_eq!(widen_indices(IndexData::U32(vec![7, 7, 7])), vec![7, 7, 7]);
}

#[test]
fn imports_triangle() {
    let m = import_primitive(triangle(), TEXTURED).unwrap();
    assert_eq!(m.vertex_count, 3);
    assert_eq!(m.vertices.len(), 96);
    assert_eq!(m.indices, vec![0, 1, 2]);
    assert_eq!(m.index_count, 3);
    assert_eq!(m.texture, Some(String::from("textures/base.png")));
    let v1 = read_vertex(&m.vertices, 1).unwrap();
    assert_eq!(v1.position, bits3([-0.5, -0.5, 0.0]));
    assert_eq!(v1.normal, bits3([0.0, 0.0, 1.0]));
    assert_eq!(v1.uv, [0, 1.0f32.to_bits()]);
}

#[test]
fn untextured_import_zeroes_left_out_normals_and_drops_texture() {
    let mut src = triangle();
    src.uvs = None;
    let m = import_primitive(src, PLAIN).unwrap();
    assert_eq!(m.texture, None);
    let v0 = read_vertex(&m.vertices, 0).unwrap();
    assert_eq!(v0.normal, [0, 0, 0]);
    assert_eq!(v0.uv, [0, 0]);
}

#[test]
fn embedded_texture_imports_without_texture() {
    let mut src = triangle();
    src.texture = TextureSource::Embedded;
    let m = import_primitive(src, TEXTURED).unwrap();
    assert_eq!(m.texture, None);
}

#[test]
fn import_errors() {
    let mut s = triangle();
    s.positions = None;
    assert!(matches!(import_primitive(s, TEXTURED), Err(ImportError::MissingPositions)));
    let mut s = triangle();
    s.indices = None;
    assert!(matches!(import_primitive(s, TEXTURED), Err(ImportError::MissingIndices)));
    let mut s = triangle();
    s.uvs = None;
    assert!(matches!(import_primitive(s, TEXTURED), Err(ImportError::MissingUvs)));
    let mut s = triangle();
    s.normals = Some(vec![[0, 0, 0]; 2]);
    assert!(matches!(import_primitive(s, TEXTURED), Err(ImportError::AttributeCountMismatch)));
    let mut s = triangle();
    s.uvs = Some(vec![[0, 0]; 4]);
    assert!(matches!(import_primitive(s, PLAIN), Err(ImportError::AttributeCountMismatch)));
    let mut s = triangle();
    s.indices = Some(IndexData::U32(vec![0, 1, 3]));
    assert!(matches!(import_primitive(s, TEXTURED), Err(ImportError::IndexOutOfRange)));
}

#[test]
fn imported_asset_stays_in_bounds() {
    let mut second = triangle();
    second.indices = Some(IndexData::U8(vec![2, 1, 0, 0, 2, 1]));
    let a = import_asset(String::from("scene"), vec![triangle(), second], TEXTURED).unwrap();
    assert_eq!(a.name, "scene");
    assert_eq!(a.meshes.len(), 2);
    for m in &a.meshes {
        assert!(m.index_count <= m.indices.len());
        assert!(m.indices.iter().all(|&i| (i as usize) < m.vertex_count));
    }
    assert_eq!(a.meshes[1].index_count, 6);
}

#[test]
fn asset_import_fails_on_first_bad_primitive() {
    let mut bad = triangle();
    bad.indices = Some(IndexData::U32(vec![5]));
    let mut worse = triangle();
    worse.positions = None;
    let r = import_asset(String::from("scene"), vec![triangle(), bad, worse], TEXTURED);
    assert!(matches!(r, Err(ImportError::IndexOutOfRange)));
    let empty = import_asset(String::from("none"), Vec::new(), TEXTURED).unwrap();
    assert!(empty.meshes.is_empty());
}

#[test]
fn imported_mesh_becomes_gpu_mesh() {
    let m = import_primitive(triangle(), TEXTURED).unwrap();
    let tex = Some(GpuResourceHandle { id: 9 });
    let g = m.to_mesh(GpuResourceHandle { id: 1 }, GpuResourceHandle { id: 2 }, tex);
    assert_eq!(g.buffers.len(), 1);
    assert_eq!(g.buffers[0].buffer.id, 1);
    assert_eq!(g.buffers[0].element_count, 3);
    assert_eq!(g.buffers[0].element_stride, 32);
    assert_eq!(g.buffers[0].binding, BufferKind::POSITIONS);
    assert_eq!(g.index_buffer.buffer.id, 2);
    assert_eq!(g.index_buffer.index_total, 3);
    assert_eq!(g.index_count, 3);
    assert_eq!(g.primitive, Topology::Triangle);
    assert_eq!(g.materials, tex);
}
