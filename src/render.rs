use vstd::prelude::*;

use crate::resource::{binding_slot, Asset, Buffer, GpuResourceHandle, MatrixBits, Mesh, Topology};
use crate::vertex::{push_words, words_bytes};

verus! {

/// The uniform block handed to the vertex stage, with each `f32` held as its
/// bit pattern.
#[derive(Debug, Copy, Clone, PartialEq, Eq)]
pub struct Uniforms {
    pub view_proj: MatrixBits,
    pub model: MatrixBits,
    pub time: u32,
}

/// The bit pattern of the `f32` value `1.0`.
pub const ONE_BITS: u32 = 0x3f80_0000;

/// Size in bytes of the uploaded uniform block: two matrices (64 bytes each),
/// the time (4 bytes), and padding to the matrices' 16-byte alignment.
pub const UNIFORM_BLOCK_SIZE: usize = 144;

/// The identity matrix, as `f32` bit patterns.
pub open spec fn identity_bits() -> MatrixBits {
    [
        ONE_BITS, 0, 0, 0,
        0, ONE_BITS, 0, 0,
        0, 0, ONE_BITS, 0,
        0, 0, 0, ONE_BITS,
    ]
}

/// The byte image of a uniform block, as the vertex stage reads it.
pub open spec fn uniform_bytes(u: Uniforms) -> Seq<u8> {
    words_bytes(u.view_proj@) + words_bytes(u.model@) + words_bytes(seq![u.time]) + Seq::new(12, |i: int| 0u8)
}

impl Uniforms {
    /// The pass-global block: `view_proj` and `time`, with an identity model
    /// transform that each mesh replaces with its own.
    pub fn new(view_proj: MatrixBits, time: u32) -> (r: Uniforms)
        ensures
            r == (Uniforms { view_proj, model: identity_bits(), time }),
    {
        let model: MatrixBits = [
            ONE_BITS, 0, 0, 0,
            0, ONE_BITS, 0, 0,
            0, 0, ONE_BITS, 0,
            0, 0, 0, ONE_BITS,
        ];
        assert(model@ =~= identity_bits()@);
        Uniforms { view_proj, model, time }
    }

    /// The block's bytes: each word little-endian, in field order, then zero
    /// padding up to `UNIFORM_BLOCK_SIZE`.
    pub fn to_bytes(&self) -> (r: Vec<u8>)
        ensures
            r@ == uniform_bytes(*self),
            r@.len() == UNIFORM_BLOCK_SIZE,
    {
        let mut out: Vec<u8> = Vec::new();
        push_words(&mut out, &self.view_proj);
        push_words(&mut out, &self.model);
        let t = [self.time];
        push_words(&mut out, &t);
        let ghost body = out@;
        let mut k: usize = 0;
        while k < 12
            invariant
                k <= 12,
                out@ == body + Seq::new(k as nat, |i: int| 0u8),
            decreases 12 - k,
        {
            out.push(0u8);
            assert(out@ =~= body + Seq::new((k + 1) as nat, |i: int| 0u8));
            k = k + 1;
        }
        proof {
            assert(t@ =~= seq![self.time]);
            crate::vertex::lemma_words_bytes_len(self.view_proj@);
            crate::vertex::lemma_words_bytes_len(self.model@);
            crate::vertex::lemma_words_bytes_len(t@);
        }
        out
    }
}

/// The vertex-stage slot that receives the uniform block.
pub const UNIFORM_SLOT: usize = 0;

/// The fragment-stage slot that receives a mesh's texture.
pub const TEXTURE_SLOT: usize = 0;

/// The width of every index a draw reads.
#[derive(Debug, Copy, Clone, PartialEq, Eq, Structural)]
pub enum IndexType {
    UInt16,
    UInt32,
}

/// One operation recorded into a render command encoder.
#[derive(Debug, Copy, Clone, PartialEq, Eq)]
pub enum DrawCommand {
    SetPipeline { pipeline: GpuResourceHandle },
    SetDepthStencil { state: GpuResourceHandle },
    /// Inline constants, consumed by the next draw.
    SetVertexBytes { uniforms: Uniforms, slot: usize },
    /// `None` clears the slot.
    SetFragmentTexture { texture: Option<GpuResourceHandle>, slot: usize },
    SetVertexBuffer { buffer: GpuResourceHandle, offset: usize, slot: usize },
    DrawIndexed {
        primitive: Topology,
        index_count: usize,
        index_type: IndexType,
        index_buffer: GpuResourceHandle,
        offset: usize,
    },
}

/// The ordered list of commands recorded for one render pass.
pub struct CommandEncoder {
    commands: Vec<DrawCommand>,
}

impl View for CommandEncoder {
    type V = Seq<DrawCommand>;

    closed spec fn view(&self) -> Seq<DrawCommand> {
        self.commands@
    }
}

impl CommandEncoder {
    /// An encoder with nothing recorded.
    pub fn new() -> (r: CommandEncoder)
        ensures
            r@ == Seq::<DrawCommand>::empty(),
    {
        CommandEncoder { commands: Vec::new() }
    }

    /// Records one command.
    pub fn push(&mut self, c: DrawCommand)
        ensures
            final(self)@ == old(self)@.push(c),
    {
        self.commands.push(c);
    }

    /// The commands recorded so far, in order.
    pub fn commands(&self) -> (r: &Vec<DrawCommand>)
        ensures
            r@ == self@,
    {
        &self.commands
    }
}

/// Binds one vertex buffer at its declared slot.
pub open spec fn bind_buffer_command(b: Buffer) -> DrawCommand {
    DrawCommand::SetVertexBuffer { buffer: b.buffer, offset: 0, slot: binding_slot(b.binding) }
}

/// The indexed draw of a mesh.
pub open spec fn draw_indexed_command(m: Mesh) -> DrawCommand {
    DrawCommand::DrawIndexed {
        primitive: m.primitive,
        index_count: m.index_count,
        index_type: IndexType::UInt32,
        index_buffer: m.index_buffer.buffer,
        offset: 0,
    }
}

/// What drawing a mesh records: its vertex buffers in list order, then one
/// indexed draw.
pub open spec fn mesh_draw_commands(m: Mesh) -> Seq<DrawCommand> {
    m.buffers@.map_values(|b: Buffer| bind_buffer_command(b)).push(draw_indexed_command(m))
}

/// The per-mesh uniform block: the pass's view-projection and time with the
/// mesh's own transform.
pub open spec fn mesh_uniforms(u: Uniforms, m: Mesh) -> Uniforms {
    Uniforms { view_proj: u.view_proj, model: m.model, time: u.time }
}

/// Everything recorded for one mesh of a pass: its uniforms, its texture
/// binding (cleared when it has none), then its draw.
pub open spec fn mesh_pass_commands(u: Uniforms, m: Mesh) -> Seq<DrawCommand> {
    seq![
        DrawCommand::SetVertexBytes { uniforms: mesh_uniforms(u, m), slot: UNIFORM_SLOT },
        DrawCommand::SetFragmentTexture { texture: m.materials, slot: TEXTURE_SLOT },
    ] + mesh_draw_commands(m)
}

/// The commands for a list of meshes, in list order.
pub open spec fn meshes_commands(u: Uniforms, meshes: Seq<Mesh>) -> Seq<DrawCommand>
    decreases meshes.len(),
{
    if meshes.len() == 0 {
        Seq::empty()
    } else {
        meshes_commands(u, meshes.drop_last()) + mesh_pass_commands(u, meshes.last())
    }
}

impl Mesh {
    /// Binds this mesh's vertex buffers and issues its indexed draw.
    pub fn draw(&self, encoder: &mut CommandEncoder)
        ensures
            final(encoder)@ == old(encoder)@ + mesh_draw_commands(*self),
    {
        let ghost start = encoder@;
        let mut i: usize = 0;
        while i < self.buffers.len()
            invariant
                i <= self.buffers@.len(),
                encoder@ == start + self.buffers@.subrange(0, i as int).map_values(|b: Buffer| bind_buffer_command(b)),
            decreases self.buffers@.len() - i,
        {
            let b = self.buffers[i];
            encoder.push(DrawCommand::SetVertexBuffer { buffer: b.buffer, offset: 0, slot: b.binding.slot() });
            proof {
                assert(self.buffers@.subrange(0, i + 1) == self.buffers@.subrange(0, i as int).push(b));
                assert(self.buffers@.subrange(0, i + 1).map_values(|b: Buffer| bind_buffer_command(b))
                    =~= self.buffers@.subrange(0, i as int).map_values(|b: Buffer| bind_buffer_command(b)).push(bind_buffer_command(b)));
            }
            i = i + 1;
        }
        encoder.push(DrawCommand::DrawIndexed {
            primitive: self.primitive,
            index_count: self.index_count,
            index_type: IndexType::UInt32,
            index_buffer: self.index_buffer.buffer,
            offset: 0,
        });
        proof {
            assert(self.buffers@.subrange(0, self.buffers@.len() as int) == self.buffers@);
            assert(encoder@ =~= start + mesh_draw_commands(*self));
        }
    }
}

/// A render pass: records the work of drawing one asset.
pub trait RenderPass {
    /// What one `render` call records.
    spec fn pass_commands(&self, uniforms: Uniforms, model: Asset) -> Seq<DrawCommand>;

    /// Appends this pass's commands for `model` to `encoder`.
    fn render(&self, encoder: &mut CommandEncoder, uniforms: &Uniforms, model: &Asset, time: u32)
        ensures
            final(encoder)@ == old(encoder)@ + self.pass_commands(*uniforms, *model),
    ;
}

/// A pass with one pipeline and one depth-stencil state, drawing every mesh
/// of the asset in list order.
pub struct SinglePass {
    pipeline: GpuResourceHandle,
    depth_stencil_state: GpuResourceHandle,
}

/// The commands of a single pass: its states once, then each mesh.
pub open spec fn single_pass_commands(
    pipeline: GpuResourceHandle,
    depth_stencil_state: GpuResourceHandle,
    u: Uniforms,
    model: Asset,
) -> Seq<DrawCommand> {
    seq![
        DrawCommand::SetPipeline { pipeline },
        DrawCommand::SetDepthStencil { state: depth_stencil_state },
    ] + meshes_commands(u, model.meshes@)
}

impl SinglePass {
    pub closed spec fn pipeline_spec(&self) -> GpuResourceHandle {
        self.pipeline
    }

    pub closed spec fn depth_stencil_spec(&self) -> GpuResourceHandle {
        self.depth_stencil_state
    }

    /// A pass drawing with `pipeline` and `depth_stencil_state`.
    pub fn new(pipeline: GpuResourceHandle, depth_stencil_state: GpuResourceHandle) -> (r: SinglePass)
        ensures
            r.pipeline_spec() == pipeline,
            r.depth_stencil_spec() == depth_stencil_state,
    {
        SinglePass { pipeline, depth_stencil_state }
    }
}

impl RenderPass for SinglePass {
    open spec fn pass_commands(&self, uniforms: Uniforms, model: Asset) -> Seq<DrawCommand> {
        single_pass_commands(self.pipeline_spec(), self.depth_stencil_spec(), uniforms, model)
    }

    fn render(&self, encoder: &mut CommandEncoder, uniforms: &Uniforms, model: &Asset, time: u32) {
        let ghost start = encoder@;
        encoder.push(DrawCommand::SetPipeline { pipeline: self.pipeline });
        encoder.push(DrawCommand::SetDepthStencil { state: self.depth_stencil_state });
        let ghost head = encoder@;
        let mut i: usize = 0;
        while i < model.meshes.len()
            invariant
                i <= model.meshes@.len(),
                head == start + seq![
                    DrawCommand::SetPipeline { pipeline: self.pipeline },
                    DrawCommand::SetDepthStencil { state: self.depth_stencil_state },
                ],
                encoder@ == head + meshes_commands(*uniforms, model.meshes@.subrange(0, i as int)),
            decreases model.meshes@.len() - i,
        {
            let mesh = &model.meshes[i];
            let ghost before = encoder@;
            encoder.push(DrawCommand::SetVertexBytes {
                uniforms: Uniforms { view_proj: uniforms.view_proj, model: mesh.model, time: uniforms.time },
                slot: UNIFORM_SLOT,
            });
            encoder.push(DrawCommand::SetFragmentTexture { texture: mesh.materials, slot: TEXTURE_SLOT });
            mesh.draw(encoder);
            proof {
                let sub = model.meshes@.subrange(0, i + 1);
                assert(sub.drop_last() == model.meshes@.subrange(0, i as int));
                assert(sub.last() == *mesh);
                assert(encoder@ =~= before + mesh_pass_commands(*uniforms, *mesh));
                assert(encoder@ =~= head + meshes_commands(*uniforms, sub));
            }
            i = i + 1;
        }
        proof {
            assert(model.meshes@.subrange(0, model.meshes@.len() as int) == model.meshes@);
            assert(encoder@ =~= start + self.pass_commands(*uniforms, *model));
        }
    }
}

/// The commands for two lists of meshes drawn one after the other are those of
/// the first list followed by those of the second.
pub proof fn lemma_meshes_commands_concat(u: Uniforms, a: Seq<Mesh>, b: Seq<Mesh>)
    ensures
        meshes_commands(u, a + b) == meshes_commands(u, a) + meshes_commands(u, b),
    decreases b.len(),
{
    if b.len() == 0 {
        assert(a + b =~= a);
        assert(meshes_commands(u, a) + meshes_commands(u, b) =~= meshes_commands(u, a));
    } else {
        assert((a + b).drop_last() =~= a + b.drop_last());
        assert((a + b).last() == b.last());
        lemma_meshes_commands_concat(u, a, b.drop_last());
        assert(meshes_commands(u, a + b) =~= meshes_commands(u, a) + meshes_commands(u, b));
    }
}

/// Rendering twice in succession with the same uniforms and the same asset
/// records two identical command sequences: a pass keeps no state of its own
/// between calls.
pub proof fn lemma_render_repeats_identically<P: RenderPass>(
    pass: P,
    uniforms: Uniforms,
    model: Asset,
    first: Seq<DrawCommand>,
    second: Seq<DrawCommand>,
    third: Seq<DrawCommand>,
)
    requires
        second == first + pass.pass_commands(uniforms, model),
        third == second + pass.pass_commands(uniforms, model),
    ensures
        third.subrange(second.len() as int, third.len() as int) == second.subrange(
            first.len() as int,
            second.len() as int,
        ),
        third.subrange(second.len() as int, third.len() as int) == pass.pass_commands(uniforms, model),
{
    assert(third.subrange(second.len() as int, third.len() as int) =~= pass.pass_commands(uniforms, model));
    assert(second.subrange(first.len() as int, second.len() as int) =~= pass.pass_commands(uniforms, model));
}

/// Where the commands of mesh `k` begin in a single pass over `model`.
pub open spec fn mesh_block_start(u: Uniforms, model: Asset, k: int) -> int {
    2 + meshes_commands(u, model.meshes@.subrange(0, k)).len() as int
}

/// In a single pass, the commands of mesh `k` are its uniform upload, then a
/// texture binding that is the mesh's own texture or an explicit clear when it
/// has none, then only vertex-buffer binds, then its draw. So no texture of an
/// earlier mesh is ever bound when a mesh without one is drawn.
pub proof fn lemma_texture_bound_before_each_draw(pass: SinglePass, u: Uniforms, model: Asset, k: int)
    requires
        0 <= k < model.meshes@.len(),
    ensures
        ({
            let cmds = pass.pass_commands(u, model);
            let s = mesh_block_start(u, model, k);
            let m = model.meshes@[k];
            let d = s + 2 + m.buffers@.len();
            &&& d < cmds.len()
            &&& cmds[s] == DrawCommand::SetVertexBytes { uniforms: mesh_uniforms(u, m), slot: UNIFORM_SLOT }
            &&& cmds[s + 1] == DrawCommand::SetFragmentTexture { texture: m.materials, slot: TEXTURE_SLOT }
            &&& m.materials is None ==> cmds[s + 1] == DrawCommand::SetFragmentTexture {
                texture: None,
                slot: TEXTURE_SLOT,
            }
            &&& forall|j: int| s + 1 < j < d ==> cmds[j] is SetVertexBuffer
            &&& cmds[d] == draw_indexed_command(m)
        }),
{
    let meshes = model.meshes@;
    let m = meshes[k];
    let pre = meshes.subrange(0, k);
    let post = meshes.subrange(k + 1, meshes.len() as int);
    assert(meshes =~= pre + seq![m] + post);
    lemma_meshes_commands_concat(u, pre + seq![m], post);
    lemma_meshes_commands_concat(u, pre, seq![m]);
    assert(seq![m].drop_last() =~= Seq::<Mesh>::empty());
    assert(seq![m].last() == m);
    assert(meshes_commands(u, seq![m].drop_last()) =~= Seq::<DrawCommand>::empty());
    assert(meshes_commands(u, seq![m]) =~= mesh_pass_commands(u, m));
    let cmds = pass.pass_commands(u, model);
    let head = seq![
        DrawCommand::SetPipeline { pipeline: pass.pipeline_spec() },
        DrawCommand::SetDepthStencil { state: pass.depth_stencil_spec() },
    ];
    let block = mesh_pass_commands(u, m);
    assert(cmds =~= head + meshes_commands(u, pre) + block + meshes_commands(u, post));
    let s = mesh_block_start(u, model, k);
    let nb = m.buffers@.len() as int;
    assert forall|j: int| 0 <= j < block.len() implies cmds[s + j] == block[j] by {
        assert(cmds[s + j] == (head + meshes_commands(u, pre) + block)[s + j]);
    }
    assert(block.len() == nb + 3);
    assert(block[nb + 2] == draw_indexed_command(m));
    assert forall|j: int| s + 1 < j < s + 2 + nb implies cmds[j] is SetVertexBuffer by {
        assert(cmds[j] == block[j - s]);
        assert(block[j - s] == bind_buffer_command(m.buffers@[j - s - 2]));
    }
}

/// In a single pass over a well-formed asset, the draw of each mesh reads no
/// more indices than that mesh's index buffer holds.
pub proof fn lemma_draws_within_index_buffers(pass: SinglePass, u: Uniforms, model: Asset, k: int)
    requires
        model.wf(),
        0 <= k < model.meshes@.len(),
    ensures
        ({
            let m = model.meshes@[k];
            let d = mesh_block_start(u, model, k) + 2 + m.buffers@.len();
            let c = pass.pass_commands(u, model)[d];
            &&& c is DrawIndexed
            &&& c->DrawIndexed_index_buffer == m.index_buffer.buffer
            &&& c->DrawIndexed_index_count <= m.index_buffer.index_total
        }),
{
    lemma_texture_bound_before_each_draw(pass, u, model, k);
    assert(model.meshes@[k].wf());
}

} // verus!
