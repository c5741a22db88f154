use vstd::prelude::*;

verus! {

/// An opaque identifier of a GPU object (buffer, texture, pipeline state).
///
/// The library never touches GPU memory; it refers to objects that the
/// host application created and keeps alive for as long as the handle is used.
#[derive(Debug, Copy, Clone, PartialEq, Eq, Structural)]
pub struct GpuResourceHandle {
    pub id: u64,
}

/// The vertex-input slot that a vertex buffer feeds.
#[derive(Debug, Copy, Clone, PartialEq, Eq, Structural)]
pub enum BufferKind {
    /// Positions alone (planar packing), or whole interleaved vertices.
    POSITIONS,
    /// Texture coordinates alone (planar packing).
    UV,
    /// Normals alone (planar packing).
    NORMALS,
}

/// The slot number of a binding.
pub open spec fn binding_slot(kind: BufferKind) -> usize {
    match kind {
        BufferKind::POSITIONS => 1,
        BufferKind::UV => 2,
        BufferKind::NORMALS => 3,
    }
}

impl BufferKind {
    /// The vertex-input slot number of this binding.
    pub fn slot(self) -> (r: usize)
        ensures
            r == binding_slot(self),
    {
        match self {
            BufferKind::POSITIONS => 1,
            BufferKind::UV => 2,
            BufferKind::NORMALS => 3,
        }
    }
}

/// Why a GPU resource or a mesh could not be described.
#[derive(Debug, Copy, Clone, PartialEq, Eq, Structural)]
pub enum ResourceError {
    /// `element_count * element_stride` does not fit in a `usize`: no
    /// allocation can hold the buffer.
    SizeOverflow,
    /// A mesh would draw more indices than its index buffer holds.
    IndexCountExceedsBuffer,
}

/// Size in bytes of a buffer of `count` elements of `stride` bytes each.
pub fn buffer_size(count: usize, stride: usize) -> (r: Result<usize, ResourceError>)
    ensures
        count * stride <= usize::MAX ==> r == Ok::<usize, ResourceError>((count * stride) as usize),
        count * stride > usize::MAX ==> r == Err::<usize, ResourceError>(ResourceError::SizeOverflow),
{
    match count.checked_mul(stride) {
        Some(n) => Ok(n),
        None => Err(ResourceError::SizeOverflow),
    }
}

/// A vertex buffer: a GPU allocation of `element_count` elements of
/// `element_stride` bytes, bound to one vertex-input slot.
#[derive(Debug, Copy, Clone, PartialEq, Eq, Structural)]
pub struct Buffer {
    pub buffer: GpuResourceHandle,
    pub element_count: usize,
    pub element_stride: usize,
    pub binding: BufferKind,
}

impl Buffer {
    /// The byte size fits the address space.
    pub open spec fn wf(&self) -> bool {
        self.element_count * self.element_stride <= usize::MAX
    }

    /// Describes the buffer `buffer`, which holds `length` elements of
    /// `vertex_size` bytes, bound at `bindslot`.
    pub fn new(buffer: GpuResourceHandle, length: usize, vertex_size: usize, bindslot: BufferKind) -> (r: Result<Buffer, ResourceError>)
        ensures
            length * vertex_size <= usize::MAX ==> r == Ok::<Buffer, ResourceError>(
                Buffer { buffer, element_count: length, element_stride: vertex_size, binding: bindslot },
            ),
            length * vertex_size > usize::MAX ==> r == Err::<Buffer, ResourceError>(ResourceError::SizeOverflow),
            r is Ok ==> r->Ok_0.wf(),
    {
        match buffer_size(length, vertex_size) {
            Ok(_) => Ok(Buffer { buffer, element_count: length, element_stride: vertex_size, binding: bindslot }),
            Err(e) => Err(e),
        }
    }

    /// `size_bytes == element_count * element_stride`.
    pub fn size_bytes(&self) -> (r: usize)
        requires
            self.wf(),
        ensures
            r == self.element_count * self.element_stride,
    {
        self.element_count * self.element_stride
    }
}

/// A buffer of 32-bit unsigned indices.
#[derive(Debug, Copy, Clone, PartialEq, Eq, Structural)]
pub struct IndexBuffer {
    pub buffer: GpuResourceHandle,
    /// How many indices the buffer holds.
    pub index_total: usize,
}

/// The kind of primitive a draw assembles from its indices.
#[derive(Debug, Copy, Clone, PartialEq, Eq, Structural)]
pub enum Topology {
    Point,
    Line,
    LineStrip,
    Triangle,
    TriangleStrip,
}

/// A 4x4 matrix held as the bit patterns of its sixteen `f32` elements,
/// column by column.
pub type MatrixBits = [u32; 16];

/// One drawable primitive group.
pub struct Mesh {
    pub buffers: Vec<Buffer>,
    pub index_buffer: IndexBuffer,
    /// The texture sampled by the fragment stage, if any.
    pub materials: Option<GpuResourceHandle>,
    pub index_count: usize,
    pub primitive: Topology,
    /// Local transform, applied on top of the asset's placement.
    pub model: MatrixBits,
}

impl Mesh {
    /// A draw never reads past the end of the index buffer.
    pub open spec fn wf(&self) -> bool {
        &&& self.index_count <= self.index_buffer.index_total
        &&& forall|i: int| 0 <= i < self.buffers@.len() ==> (#[trigger] self.buffers@[i]).wf()
    }

    /// A mesh drawing the first `index_count` indices of `index_buffer`.
    ///
    /// Fails when the index buffer holds fewer indices than that.
    pub fn new(
        buffers: Vec<Buffer>,
        index_buffer: IndexBuffer,
        material: Option<GpuResourceHandle>,
        index_count: usize,
        primitive: Topology,
        model: MatrixBits,
    ) -> (r: Result<Mesh, ResourceError>)
        requires
            forall|i: int| 0 <= i < buffers@.len() ==> (#[trigger] buffers@[i]).wf(),
        ensures
            index_count <= index_buffer.index_total <==> r is Ok,
            r is Err ==> r->Err_0 == ResourceError::IndexCountExceedsBuffer,
            r is Ok ==> {
                let m = r->Ok_0;
                &&& m.wf()
                &&& m.buffers@ == buffers@
                &&& m.index_buffer == index_buffer
                &&& m.materials == material
                &&& m.index_count == index_count
                &&& m.primitive == primitive
                &&& m.model == model
            },
    {
        if index_count > index_buffer.index_total {
            return Err(ResourceError::IndexCountExceedsBuffer);
        }
        Ok(Mesh { buffers, index_buffer, materials: material, index_count, primitive, model })
    }
}

/// A named collection of meshes imported from one scene file.
pub struct Asset {
    pub meshes: Vec<Mesh>,
    pub name: String,
}

impl Asset {
    /// Every mesh is well formed.
    pub open spec fn wf(&self) -> bool {
        forall|i: int| 0 <= i < self.meshes@.len() ==> (#[trigger] self.meshes@[i]).wf()
    }
}

} // verus!
