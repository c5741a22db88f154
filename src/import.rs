use vstd::prelude::*;

use crate::resource::{Buffer, BufferKind, GpuResourceHandle, IndexBuffer, MatrixBits, Mesh, Topology};
use crate::vertex::{pack_interleaved, packed, VertexBits, VERTEX_STRIDE};

verus! {

/// Triangle indices as a scene document stores them, in one of three widths.
pub enum IndexData {
    U8(Vec<u8>),
    U16(Vec<u16>),
    U32(Vec<u32>),
}

/// The indices widened to 32 bits, in order.
pub open spec fn index_values(d: IndexData) -> Seq<u32> {
    match d {
        IndexData::U8(v) => v@.map_values(|x: u8| x as u32),
        IndexData::U16(v) => v@.map_values(|x: u16| x as u32),
        IndexData::U32(v) => v@,
    }
}

/// Widens indices to 32 bits without reordering or deduplicating them.
pub fn widen_indices(d: IndexData) -> (r: Vec<u32>)
    ensures
        r@ == index_values(d),
{
    match d {
        IndexData::U8(v) => {
            let mut out: Vec<u32> = Vec::new();
            let mut i: usize = 0;
            while i < v.len()
                invariant
                    i <= v@.len(),
                    out@ == v@.subrange(0, i as int).map_values(|x: u8| x as u32),
                decreases v@.len() - i,
            {
                out.push(v[i] as u32);
                proof {
                    assert(v@.subrange(0, i + 1).map_values(|x: u8| x as u32)
                        =~= v@.subrange(0, i as int).map_values(|x: u8| x as u32).push(v@[i as int] as u32));
                }
                i = i + 1;
            }
            assert(v@.subrange(0, v@.len() as int) =~= v@);
            out
        },
        IndexData::U16(v) => {
            let mut out: Vec<u32> = Vec::new();
            let mut i: usize = 0;
            while i < v.len()
                invariant
                    i <= v@.len(),
                    out@ == v@.subrange(0, i as int).map_values(|x: u16| x as u32),
                decreases v@.len() - i,
            {
                out.push(v[i] as u32);
                proof {
                    assert(v@.subrange(0, i + 1).map_values(|x: u16| x as u32)
                        =~= v@.subrange(0, i as int).map_values(|x: u16| x as u32).push(v@[i as int] as u32));
                }
                i = i + 1;
            }
            assert(v@.subrange(0, v@.len() as int) =~= v@);
            out
        },
        IndexData::U32(v) => v,
    }
}

/// Where a primitive's base-color texture comes from.
pub enum TextureSource {
    /// The material names no texture.
    Absent,
    /// A file, by a path relative to the asset's root directory.
    File(String),
    /// Data embedded in the scene document.
    Embedded,
}

/// Which attributes an import packs.
#[derive(Debug, Copy, Clone, PartialEq, Eq, Structural)]
pub struct ImportConfig {
    /// Pack the source normals (otherwise every normal is zero).
    pub include_normals: bool,
    /// Meshes carry a texture: texture coordinates are then required.
    pub textured: bool,
}

/// One primitive group of a parsed scene document. Each `f32` is held as its
/// bit pattern.
pub struct PrimitiveSource {
    pub positions: Option<Vec<[u32; 3]>>,
    pub normals: Option<Vec<[u32; 3]>>,
    pub uvs: Option<Vec<[u32; 2]>>,
    pub indices: Option<IndexData>,
    pub texture: TextureSource,
    /// Local transform of the resulting mesh.
    pub model: MatrixBits,
}

/// Why a primitive could not be imported.
#[derive(Debug, Copy, Clone, PartialEq, Eq, Structural)]
pub enum ImportError {
    MissingPositions,
    MissingIndices,
    /// Texture coordinates are required by a textured import.
    MissingUvs,
    /// Normals or texture coordinates do not match the positions one for one.
    AttributeCountMismatch,
    /// An index names a vertex that does not exist.
    IndexOutOfRange,
}

/// A primitive ready to be uploaded: the image of its interleaved vertex
/// buffer, its 32-bit indices, and the file of its texture.
pub struct ImportedMesh {
    pub vertices: Vec<u8>,
    pub vertex_count: usize,
    pub indices: Vec<u32>,
    pub index_count: usize,
    pub texture: Option<String>,
    pub model: MatrixBits,
}

impl ImportedMesh {
    /// Draws stay inside both buffers: `index_count` indices are present, and
    /// each names one of `vertex_count` vertices.
    pub open spec fn wf(&self) -> bool {
        &&& self.vertices@.len() == VERTEX_STRIDE * self.vertex_count
        &&& self.index_count <= self.indices@.len()
        &&& forall|k: int| 0 <= k < self.indices@.len() ==> (#[trigger] self.indices@[k]) < self.vertex_count
    }
}

/// The vertex count of a primitive: the number of its positions.
pub open spec fn source_vertex_count(src: PrimitiveSource) -> int {
    src.positions->Some_0@.len() as int
}

/// Vertex `i` of a primitive as packed: missing normals (or normals left out
/// by `config`) and missing texture coordinates are zero.
pub open spec fn source_vertex(src: PrimitiveSource, config: ImportConfig, i: int) -> VertexBits {
    VertexBits {
        position: src.positions->Some_0@[i],
        normal: if config.include_normals && src.normals is Some {
            src.normals->Some_0@[i]
        } else {
            [0u32, 0u32, 0u32]
        },
        uv: if src.uvs is Some {
            src.uvs->Some_0@[i]
        } else {
            [0u32, 0u32]
        },
    }
}

/// All vertices of a primitive, in source order.
pub open spec fn source_vertices(src: PrimitiveSource, config: ImportConfig) -> Seq<VertexBits> {
    Seq::new(source_vertex_count(src) as nat, |i: int| source_vertex(src, config, i))
}

/// The first check that a primitive fails, if any.
pub open spec fn import_error(src: PrimitiveSource, config: ImportConfig) -> Option<ImportError> {
    if src.positions is None {
        Some(ImportError::MissingPositions)
    } else if src.indices is None {
        Some(ImportError::MissingIndices)
    } else if config.textured && src.uvs is None {
        Some(ImportError::MissingUvs)
    } else if (config.include_normals && src.normals is Some && src.normals->Some_0@.len() != source_vertex_count(src))
        || (src.uvs is Some && src.uvs->Some_0@.len() != source_vertex_count(src)) {
        Some(ImportError::AttributeCountMismatch)
    } else if exists|k: int|
        0 <= k < index_values(src.indices->Some_0).len() && #[trigger] index_values(src.indices->Some_0)[k]
            >= source_vertex_count(src) {
        Some(ImportError::IndexOutOfRange)
    } else {
        None
    }
}

/// The texture file a primitive keeps. Embedded texture data is not
/// supported: such a primitive is imported without a texture, as is every
/// primitive of an untextured import.
pub open spec fn imported_texture(src: PrimitiveSource, config: ImportConfig) -> Option<String> {
    match src.texture {
        TextureSource::File(path) => if config.textured {
            Some(path)
        } else {
            None
        },
        _ => None,
    }
}

/// Whether every index is below `n`.
fn indices_below(indices: &Vec<u32>, n: usize) -> (r: bool)
    ensures
        r == forall|k: int| 0 <= k < indices@.len() ==> #[trigger] indices@[k] < n,
{
    let mut i: usize = 0;
    while i < indices.len()
        invariant
            i <= indices@.len(),
            forall|k: int| 0 <= k < i ==> #[trigger] indices@[k] < n,
        decreases indices@.len() - i,
    {
        if indices[i] as usize >= n {
            assert(indices@[i as int] >= n);
            return false;
        }
        i = i + 1;
    }
    true
}

/// `m` is what importing `src` under `config` gives.
pub open spec fn imports_as(src: PrimitiveSource, config: ImportConfig, m: ImportedMesh) -> bool {
    &&& m.wf()
    &&& m.vertex_count == source_vertex_count(src)
    &&& m.vertices@ == packed(source_vertices(src, config))
    &&& m.indices@ == index_values(src.indices->Some_0)
    &&& m.index_count == m.indices@.len()
    &&& m.texture == imported_texture(src, config)
    &&& m.model == src.model
}

/// Imports one primitive group: checks its attributes, packs its vertices
/// interleaved and widens its indices, which are kept as the document gives
/// them.
pub fn import_primitive(src: PrimitiveSource, config: ImportConfig) -> (r: Result<ImportedMesh, ImportError>)
    ensures
        import_error(src, config) is Some <==> r is Err,
        r is Err ==> import_error(src, config) == Some(r->Err_0),
        r is Ok ==> imports_as(src, config, r->Ok_0),
{
    let ghost s = src;
    let PrimitiveSource { positions, normals, uvs, indices, texture, model } = src;
    let positions = match positions {
        Some(p) => p,
        None => return Err(ImportError::MissingPositions),
    };
    let indices = match indices {
        Some(d) => d,
        None => return Err(ImportError::MissingIndices),
    };
    let n = positions.len();
    let (has_normals, normals) = match normals {
        Some(v) => (config.include_normals, v),
        None => (false, Vec::new()),
    };
    let (has_uvs, uvs) = match uvs {
        Some(v) => (true, v),
        None => {
            if config.textured {
                return Err(ImportError::MissingUvs);
            }
            (false, Vec::new())
        },
    };
    if (has_normals && normals.len() != n) || (has_uvs && uvs.len() != n) {
        return Err(ImportError::AttributeCountMismatch);
    }
    let ghost idx = index_values(indices);
    let indices = widen_indices(indices);
    if !indices_below(&indices, n) {
        proof {
            let k = choose|k: int| 0 <= k < idx.len() && !(idx[k] < n);
            assert(index_values(s.indices->Some_0)[k] >= source_vertex_count(s));
        }
        return Err(ImportError::IndexOutOfRange);
    }
    let mut vertices: Vec<VertexBits> = Vec::new();
    let mut i: usize = 0;
    while i < n
        invariant
            n == positions@.len(),
            s.positions == Some(positions),
            has_normals ==> normals@.len() == n,
            has_uvs ==> uvs@.len() == n,
            has_normals == (config.include_normals && s.normals is Some),
            has_normals ==> s.normals == Some(normals),
            has_uvs == s.uvs is Some,
            has_uvs ==> s.uvs == Some(uvs),
            i <= n,
            vertices@ == source_vertices(s, config).subrange(0, i as int),
        decreases n - i,
    {
        let normal = if has_normals {
            normals[i]
        } else {
            [0u32, 0u32, 0u32]
        };
        let uv = if has_uvs {
            uvs[i]
        } else {
            [0u32, 0u32]
        };
        vertices.push(VertexBits { position: positions[i], normal, uv });
        proof {
            assert(vertices@ =~= source_vertices(s, config).subrange(0, i + 1));
        }
        i = i + 1;
    }
    let bytes = pack_interleaved(&vertices);
    let texture = match texture {
        TextureSource::File(path) => if config.textured {
            Some(path)
        } else {
            None
        },
        _ => None,
    };
    let index_count = indices.len();
    proof {
        assert(vertices@ =~= source_vertices(s, config));
        assert(!(exists|k: int| 0 <= k < idx.len() && #[trigger] idx[k] >= source_vertex_count(s)));
    }
    Ok(ImportedMesh { vertices: bytes, vertex_count: n, indices, index_count, texture, model })
}

/// The meshes of one scene file, in document order, under the file's name.
pub struct ImportedAsset {
    pub meshes: Vec<ImportedMesh>,
    pub name: String,
}

impl ImportedAsset {
    /// Every mesh is well formed.
    pub open spec fn wf(&self) -> bool {
        forall|i: int| 0 <= i < self.meshes@.len() ==> (#[trigger] self.meshes@[i]).wf()
    }
}

/// Imports every primitive group of a scene document. The first primitive
/// that fails its checks fails the whole import: there is no partial asset.
pub fn import_asset(name: String, primitives: Vec<PrimitiveSource>, config: ImportConfig) -> (r: Result<
    ImportedAsset,
    ImportError,
>)
    ensures
        r is Err <==> exists|i: int| 0 <= i < primitives@.len() && (#[trigger] import_error(primitives@[i], config)) is Some,
        r is Err ==> exists|i: int|
            0 <= i < primitives@.len() && import_error(primitives@[i], config) == Some(r->Err_0) && forall|j: int|
                0 <= j < i ==> (#[trigger] import_error(primitives@[j], config)) is None,
        r is Ok ==> {
            let a = r->Ok_0;
            &&& a.wf()
            &&& a.name == name
            &&& a.meshes@.len() == primitives@.len()
            &&& forall|i: int| 0 <= i < primitives@.len() ==> imports_as(primitives@[i], config, #[trigger] a.meshes@[i])
        },
{
    let ghost all = primitives@;
    let total = primitives.len();
    let mut rest = primitives;
    let mut meshes: Vec<ImportedMesh> = Vec::new();
    let mut i: usize = 0;
    while rest.len() > 0
        invariant
            all == primitives@,
            total == all.len(),
            i <= all.len(),
            rest@ == all.subrange(i as int, all.len() as int),
            meshes@.len() == i,
            forall|j: int| 0 <= j < i ==> (#[trigger] import_error(all[j], config)) is None,
            forall|j: int| 0 <= j < i ==> imports_as(all[j], config, #[trigger] meshes@[j]),
        decreases rest@.len(),
    {
        let src = rest.remove(0);
        assert(src == all[i as int]);
        match import_primitive(src, config) {
            Ok(m) => {
                let ghost prev = meshes@;
                meshes.push(m);
                proof {
                    assert forall|j: int| 0 <= j < i + 1 implies imports_as(all[j], config, #[trigger] meshes@[j]) by {
                        if j < i {
                            assert(meshes@[j] == prev[j]);
                        }
                    }
                }
            },
            Err(e) => {
                assert(import_error(all[i as int], config) == Some(e));
                return Err(e);
            },
        }
        i = i + 1;
        assert(rest@ =~= all.subrange(i as int, all.len() as int));
    }
    assert(i == all.len());
    Ok(ImportedAsset { meshes, name })
}

impl ImportedMesh {
    /// The GPU mesh drawing this primitive once its vertex image sits in
    /// `vertex_buffer`, its indices in `index_buffer`, and its texture (if any)
    /// in `texture`: one interleaved buffer at the position slot, a
    /// triangle-list draw of all its indices.
    pub fn to_mesh(
        &self,
        vertex_buffer: GpuResourceHandle,
        index_buffer: GpuResourceHandle,
        texture: Option<GpuResourceHandle>,
    ) -> (r: Mesh)
        requires
            self.wf(),
        ensures
            r.wf(),
            r.buffers@ == seq![
                Buffer {
                    buffer: vertex_buffer,
                    element_count: self.vertex_count,
                    element_stride: VERTEX_STRIDE,
                    binding: BufferKind::POSITIONS,
                },
            ],
            r.index_buffer == (IndexBuffer { buffer: index_buffer, index_total: self.indices@.len() as usize }),
            r.materials == texture,
            r.index_count == self.index_count,
            r.primitive == Topology::Triangle,
            r.model == self.model,
    {
        let vl = self.vertices.len();
        assert(self.vertex_count * VERTEX_STRIDE <= usize::MAX) by (nonlinear_arith)
            requires
                vl == VERTEX_STRIDE * self.vertex_count,
        ;
        let vb = Buffer {
            buffer: vertex_buffer,
            element_count: self.vertex_count,
            element_stride: VERTEX_STRIDE,
            binding: BufferKind::POSITIONS,
        };
        let mut buffers: Vec<Buffer> = Vec::new();
        buffers.push(vb);
        assert(buffers@ =~= seq![vb]);
        Mesh {
            buffers,
            index_buffer: IndexBuffer { buffer: index_buffer, index_total: self.indices.len() },
            materials: texture,
            index_count: self.index_count,
            primitive: Topology::Triangle,
            model: self.model,
        }
    }
}

/// Every mesh of an imported asset draws inside its buffers: its index count
/// is at most the number of indices it holds, and every index is below its
/// vertex count. Its GPU mesh then draws no more indices than its index buffer
/// holds.
pub proof fn lemma_imported_asset_in_bounds(a: ImportedAsset)
    requires
        a.wf(),
    ensures
        forall|i: int| 0 <= i < a.meshes@.len() ==> (#[trigger] a.meshes@[i]).index_count <= a.meshes@[i].indices@.len(),
        forall|i: int, k: int|
            0 <= i < a.meshes@.len() && 0 <= k < a.meshes@[i].indices@.len() ==> (#[trigger] a.meshes@[i].indices@[k])
                < a.meshes@[i].vertex_count,
{
    assert forall|i: int, k: int|
        0 <= i < a.meshes@.len() && 0 <= k < a.meshes@[i].indices@.len() implies (#[trigger] a.meshes@[i].indices@[k])
            < a.meshes@[i].vertex_count by {
        assert(a.meshes@[i].wf());
    }
}

} // verus!
