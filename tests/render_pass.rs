use glam::{Mat4, Vec3};
use mesh_render::render::{
    CommandEncoder, DrawCommand, IndexType, RenderPass, SinglePass, Uniforms, UNIFORM_BLOCK_SIZE,
};
use mesh_render::resource::{
    Asset, Buffer, BufferKind, GpuResourceHandle, IndexBuffer, Mesh, Topology,
};

fn h(id: u64) -> GpuResourceHandle {
    GpuResourceHandle { id }
}

fn mesh(vb: u64, ib: u64, texture: Option<u64>, count: usize, model: [u32; 16]) -> Mesh {
    let b = Buffer::new(h(vb), 3, 32, BufferKind::POSITIONS).unwrap();
    Mesh::new(
        vec![b],
        IndexBuffer { buffer: h(ib), index_total: count },
        texture.map(h),
        count,
        Topology::Triangle,
        model,
    )
    .unwrap()
}

fn matrix_bits(m: Mat4) -> [u32; 16] {
    m.to_cols_array().map(f32::to_bits)
}

#[test]
fn untextured_mesh_clears_previous_texture() {
    let asset = Asset {
        meshes: vec![mesh(10, 11, Some(50), 3, [1; 16]), mesh(20, 21, None, 6, [2; 16])],
        name: String::from("pair"),
    };
    let pass = SinglePass::new(h(1), h(2));
    let u = Uniforms::new([3; 16], 0);
    let mut enc = CommandEncoder::new();
    pass.render(&mut enc, &u, &asset, 0);
    let c = enc.commands();
    assert_eq!(c.len(), 2 + 4 + 4);
    assert_eq!(c[0], DrawCommand::SetPipeline { pipeline: h(1) });
    assert_eq!(c[1], DrawCommand::SetDepthStencil { state: h(2) });
    assert_eq!(c[3], DrawCommand::SetFragmentTexture { texture: Some(h(50)), slot: 0 });
    assert_eq!(c[7], DrawCommand::SetFragmentTexture { texture: None, slot: 0 });
    assert_eq!(c[8], DrawCommand::SetVertexBuffer { buffer: h(20), offset: 0, slot: 1 });
    assert_eq!(
        c[9],
        DrawCommand::DrawIndexed {
            primitive: Topology::Triangle,
            index_count: 6,
            index_type: IndexType::UInt32,
            index_buffer: h(21),
            offset: 0,
        }
    );
}

#[test]
fn rendering_twice_records_the_same_commands() {
    let asset = Asset {
        meshes: vec![mesh(10, 11, Some(50), 3, [1; 16]), mesh(20, 21, None, 6, [2; 16])],
        name: String::from("pair"),
    };
    let pass = SinglePass::new(h(1), h(2));
    let u = Uniforms::new([3; 16], 7);
    let mut enc = CommandEncoder::new();
    pass.render(&mut enc, &u, &asset, 7);
    let first = enc.commands().len();
    pass.render(&mut enc, &u, &asset, 7);
    let c = enc.commands();
    assert_eq!(c.len(), 2 * first);
    assert_eq!(&c[..first], &c[first..]);
}

#[test]
fn single_triangle_draws_once_with_camera_matrix() {
    let pos = Vec3::new(0.0, 0.0, 0.0);
    let front = Vec3::new(0.0, 0.0, -1.0);
    let up = Vec3::new(0.0, 1.0, 0.0);
    let view_proj = Mat4::perspective_rh(45f32.to_radians(), 800.0 / 600.0, 0.025, 500.0)
        * Mat4::look_at_rh(pos, pos + front, up);
    let vp = matrix_bits(view_proj);
    let model = matrix_bits(Mat4::IDENTITY);
    let asset = Asset { meshes: vec![mesh(10, 11, None, 3, model)], name: String::from("tri") };
    let pass = SinglePass::new(h(1), h(2));
    let u = Uniforms::new(vp, 0f32.to_bits());
    assert_eq!(u.model, model);
    let mut enc = CommandEncoder::new();
    pass.render(&mut enc, &u, &asset, 0f32.to_bits());
    let c = enc.commands();
    let draws: Vec<&DrawCommand> =
        c.iter().filter(|x| matches!(x, DrawCommand::DrawIndexed { .. })).collect();
    assert_eq!(draws.len(), 1);
    assert_eq!(
        *draws[0],
        DrawCommand::DrawIndexed {
            primitive: Topology::Triangle,
            index_count: 3,
            index_type: IndexType::UInt32,
            index_buffer: h(11),
            offset: 0,
        }
    );
    assert_eq!(
        c[2],
        DrawCommand::SetVertexBytes {
            uniforms: Uniforms { view_proj: vp, model, time: 0 },
            slot: 0,
        }
    );
}

#[test]
fn empty_asset_binds_states_only() {
    let asset = Asset { meshes: Vec::new(), name: String::new() };
    let pass = SinglePass::new(h(1), h(2));
    let mut enc = CommandEncoder::new();
    pass.render(&mut enc, &Uniforms::new([0; 16], 0), &asset, 0);
    assert_eq!(enc.commands().len(), 2);
}

#[test]
fn uniform_block_bytes() {
    let u = Uniforms { view_proj: [0x0403_0201; 16], model: [5; 16], time: 1.5f32.to_bits() };
    let b = u.to_bytes();
    assert_eq!(b.len(), UNIFORM_BLOCK_SIZE);
    assert_eq!(&b[0..4], &[1, 2, 3, 4]);
    assert_eq!(&b[64..68], &[5, 0, 0, 0]);
    assert_eq!(&b[128..132], &1.5f32.to_le_bytes());
    assert!(b[132..].iter().all(|&x| x == 0));
    assert_eq!(Uniforms::new([0; 16], 0).model[0], 1.0f32.to_bits());
    assert_eq!(Uniforms::new([0; 16], 0).model[1], 0);
}
