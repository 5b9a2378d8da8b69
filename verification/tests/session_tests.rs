//! End-to-end command recording against a headless device: the session
//! state machine and the commands it issues.

use r3_core::bind::Bind;
use r3_core::bind::BindLayout;
use r3_core::bind::BindResource;
use r3_core::buffer::StorageBuffer;
use r3_core::buffer::UniformBuffer;
use r3_core::context::RenderContext;
use r3_core::gpu::TexFormat;
use r3_core::mesh::SimpleInstances;
use r3_core::mesh::SimpleMesh;
use r3_core::pipeline::ComputeShaderConfig;
use r3_core::pipeline::RawComputeLayout;
use r3_core::pipeline::RawLayout;
use r3_core::pipeline::ShaderConfig;
use r3_core::post::PostProc;
use r3_core::schema::BindingEntry;
use r3_core::schema::BindingKind;
use r3_core::schema::BindingSchema;
use r3_core::schema::Stages;
use r3_core::session::Cmd;
use r3_core::texture::Extent;
use r3_core::texture::RawTexture;
use r3_core::texture::TexDim;
use r3_core::texture::TexUsage;
use r3_core::texture::TextureConfig;
use r3_core::vertex::StepMode;
use r3_core::vertex::TaggedAttr;
use r3_core::vertex::VertexAttr;
use r3_core::vertex::VertexFormat;

fn ctx() -> RenderContext {
    let mut desc = wgpu::InstanceDescriptor::new_without_display_handle();
    desc.backends = wgpu::Backends::NOOP;
    desc.backend_options.noop.enable = true;
    let instance = wgpu::Instance::new(desc);
    let rt = tokio::runtime::Builder::new_current_thread().build().unwrap();
    let adapter = rt
        .block_on(instance.request_adapter(&wgpu::RequestAdapterOptions::default()))
        .expect("the headless adapter must be available");
    let (device, queue) = rt
        .block_on(adapter.request_device(&wgpu::DeviceDescriptor::default()))
        .expect("the headless device must be available");
    RenderContext::from_raw(instance, adapter, device, queue)
}

const CAMERA_SHADER: &str = "
struct Camera { m: mat4x4<f32> }
@group(0) @binding(0) var<uniform> camera: Camera;

struct VsIn {
    @location(0) pos: vec3<f32>,
    @location(1) color: vec3<f32>,
}
struct VsOut {
    @builtin(position) pos: vec4<f32>,
    @location(0) color: vec3<f32>,
}

@vertex
fn vs(in: VsIn) -> VsOut {
    var out: VsOut;
    out.pos = camera.m * vec4<f32>(in.pos, 1.0);
    out.color = in.color;
    return out;
}

@fragment
fn fs(in: VsOut) -> @location(0) vec4<f32> {
    return vec4<f32>(in.color, 1.0);
}
";

/// The fan of three triangles over five vertices, each vertex a position
/// and a color.
fn fan_mesh_bytes() -> Vec<u8> {
    let vertices: [[f32; 6]; 5] = [
        [-0.0868241, 0.49240386, -2.0, 1.0, 0.0, 0.0],
        [-0.49513406, 0.06958647, -2.0, 1.0, 1.0, 0.0],
        [-0.21918549, -0.44939706, -2.0, 0.0, 1.0, 0.0],
        [0.35966998, -0.3473291, -2.0, 0.0, 0.0, 1.0],
        [0.44147372, 0.2347359, -2.0, 1.0, 0.0, 1.0],
    ];
    bytemuck::cast_slice(&vertices).to_vec()
}

const FAN_INDICES: [u16; 9] = [0, 1, 4, 1, 2, 4, 2, 3, 4];

fn camera_bind(ctx: &RenderContext) -> (BindLayout, Bind) {
    let schema = BindingSchema::new(vec![BindingEntry {
        slot: 0,
        visibility: Stages::vertex_only(),
        kind: BindingKind::Uniform,
        count: None,
    }])
    .unwrap();
    let layout = BindLayout::new(ctx, schema);
    let identity: [[f32; 4]; 4] = [
        [1.0, 0.0, 0.0, 0.0],
        [0.0, 1.0, 0.0, 0.0],
        [0.0, 0.0, 1.0, 0.0],
        [0.0, 0.0, 0.0, 1.0],
    ];
    let uniform = UniformBuffer::new_init(ctx, bytemuck::cast_slice(&identity));
    let schema2 = BindingSchema::new(vec![BindingEntry {
        slot: 0,
        visibility: Stages::vertex_only(),
        kind: BindingKind::Uniform,
        count: None,
    }])
    .unwrap();
    let bind_layout = BindLayout::new(ctx, schema2);
    let bind = Bind::new(ctx, bind_layout, vec![BindResource::Uniform(uniform)]).unwrap();
    (layout, bind)
}

fn render_target(ctx: &RenderContext) -> RawTexture {
    RawTexture::new(
        ctx,
        TexDim::D2,
        Extent { width: 64, height: 64, depth_or_array_layers: 1 },
        &TextureConfig {
            mip_level_count: None,
            sample_count: None,
            format: Some(TexFormat::Bgra8UnormSrgb),
            usages: Some(TexUsage::attachment_binding()),
        },
    )
}

fn no_depth_config() -> ShaderConfig {
    ShaderConfig {
        label: None,
        primitive: None,
        depth_stencil: Some(None),
        multisample: None,
        multiview: None,
        vertex_entry: None,
        fragment_entry: None,
    }
}

#[test]
fn draw_fan_records_exactly_one_indexed_draw() {
    // Build a device, declare a camera uniform bind-group layout (one
    // uniform buffer, vertex stage, slot zero), build the five-vertex,
    // nine-index fan mesh, apply a shader pipeline built against that
    // layout, and draw: exactly one indexed draw over indices zero to
    // nine, base vertex zero, one instance.
    let ctx = ctx();
    let (camera_layout, camera) = camera_bind(&ctx);

    let parts = vec![TaggedAttr {
        schema: VertexAttr { formats: vec![VertexFormat::Float32x3, VertexFormat::Float32x3] },
        step: StepMode::Vertex,
    }];
    let layout = RawLayout::new(
        &ctx,
        &vec![&camera_layout],
        &parts,
        TexFormat::Bgra8UnormSrgb,
    );
    let module = ctx.create_shader_module(CAMERA_SHADER);
    let shader = layout.create_pipeline(&ctx, &module, &no_depth_config());

    let mesh = SimpleMesh::new_uint16(
        &ctx,
        r3_core::vertex::VertexRequirements::of_layout(&parts),
        &vec![fan_mesh_bytes()],
        &FAN_INDICES,
    );

    let target = render_target(&ctx);
    let mut encoder = ctx.command_encoder();
    let session = encoder.render_pass(target.view(), None, None);
    let record = session
        .set_shared_data(&layout, &camera)
        .apply_shader_with_default(&shader)
        .draw_mesh(&mesh);
    encoder.submit(&ctx);

    let commands = record.commands();
    assert_eq!(
        commands.as_slice(),
        &[
            Cmd::SetBindGroup { index: 0 },
            Cmd::SetPipeline,
            Cmd::SetVertexBuffer { slot: 0 },
            Cmd::SetIndexBuffer { uint32: false },
            Cmd::DrawIndexed { index_count: 9, base_vertex: 0, instance_start: 0, instance_end: 1 },
        ]
    );
    let draws = commands
        .iter()
        .filter(|c| matches!(c, Cmd::DrawIndexed { .. }))
        .count();
    assert_eq!(draws, 1);
}

#[test]
fn instanced_draw_covers_the_bound_instances() {
    let ctx = ctx();
    let (camera_layout, camera) = camera_bind(&ctx);

    let parts = vec![
        TaggedAttr {
            schema: VertexAttr { formats: vec![VertexFormat::Float32x3, VertexFormat::Float32x3] },
            step: StepMode::Vertex,
        },
        TaggedAttr {
            schema: VertexAttr { formats: vec![VertexFormat::Float32x2, VertexFormat::Float32] },
            step: StepMode::Instance,
        },
    ];
    let layout = RawLayout::new(
        &ctx,
        &vec![&camera_layout],
        &parts,
        TexFormat::Bgra8UnormSrgb,
    );
    let module = ctx.create_shader_module(CAMERA_SHADER);
    let shader = layout.create_pipeline(&ctx, &module, &no_depth_config());

    let mesh = SimpleMesh::new_uint16(
        &ctx,
        r3_core::vertex::VertexRequirements::of_layout(&parts),
        &vec![fan_mesh_bytes()],
        &FAN_INDICES,
    );
    let instance_data: [[f32; 3]; 2] = [[0.0, 0.0, 0.0], [0.5, 0.5, 1.0]];
    let instances = SimpleInstances::new(
        &ctx,
        r3_core::vertex::InstanceRequirements::of_layout(&parts),
        &vec![bytemuck::cast_slice(&instance_data).to_vec()],
        2,
    );

    let target = render_target(&ctx);
    let mut encoder = ctx.command_encoder();
    let session = encoder.render_pass(target.view(), None, None);
    let record = session
        .set_shared_data(&layout, &camera)
        .apply_shader_with_default(&shader)
        .set_instance_requirements(&instances)
        .draw_mesh_instanced(&mesh);
    encoder.submit(&ctx);

    assert_eq!(
        record.commands().as_slice(),
        &[
            Cmd::SetBindGroup { index: 0 },
            Cmd::SetPipeline,
            Cmd::SetVertexBuffer { slot: 1 },
            Cmd::SetVertexBuffer { slot: 0 },
            Cmd::SetIndexBuffer { uint32: false },
            Cmd::DrawIndexed { index_count: 9, base_vertex: 0, instance_start: 0, instance_end: 2 },
        ]
    );
}

const QUAD_SHADER: &str = "
@group(0) @binding(0) var t: texture_2d<f32>;
@group(0) @binding(1) var s: sampler;

@vertex
fn vs(@builtin(vertex_index) i: u32) -> @builtin(position) vec4<f32> {
    let x = f32(i32(i) - 1);
    let y = f32(i32(i & 1u) * 2 - 1);
    return vec4<f32>(x, y, 0.0, 1.0);
}

@fragment
fn fs() -> @location(0) vec4<f32> {
    return textureSample(t, s, vec2<f32>(0.5, 0.5));
}
";

#[test]
fn screen_quad_records_a_three_vertex_draw() {
    let ctx = ctx();
    let post = PostProc::new(
        &ctx,
        TexUsage {
            render_attachment: false,
            texture_binding: false,
            storage_binding: false,
            copy_dst: true,
            copy_src: false,
        },
        64,
        64,
    );
    let parts: Vec<TaggedAttr> = Vec::new();
    let layout = RawLayout::new(
        &ctx,
        &vec![post.bind().layout()],
        &parts,
        TexFormat::Bgra8UnormSrgb,
    );
    let module = ctx.create_shader_module(QUAD_SHADER);
    let shader = layout.create_pipeline(&ctx, &module, &no_depth_config());

    let target = render_target(&ctx);
    let mut encoder = ctx.command_encoder();
    let session = encoder.render_pass(target.view(), None, None);
    let record = session
        .set_shared_data(&layout, post.bind())
        .apply_shader(&shader)
        .draw_screen_quad();
    encoder.submit(&ctx);

    assert_eq!(
        record.commands().as_slice(),
        &[
            Cmd::SetBindGroup { index: 0 },
            Cmd::SetPipeline,
            Cmd::Draw { vertex_start: 0, vertex_end: 3, instance_start: 0, instance_end: 1 },
        ]
    );
}

#[test]
fn wipe_discards_the_tag_and_keeps_the_recording() {
    let ctx = ctx();
    let (camera_layout, camera) = camera_bind(&ctx);
    let post = PostProc::new(
        &ctx,
        TexUsage {
            render_attachment: false,
            texture_binding: false,
            storage_binding: false,
            copy_dst: false,
            copy_src: false,
        },
        64,
        64,
    );
    // A layout whose only purpose is to be bound and then wiped away.
    let unused_layout = RawLayout::new(
        &ctx,
        &vec![&camera_layout],
        &vec![TaggedAttr {
            schema: VertexAttr { formats: vec![VertexFormat::Float32x3] },
            step: StepMode::Vertex,
        }],
        TexFormat::Bgra8UnormSrgb,
    );
    let quad_layout = RawLayout::new(
        &ctx,
        &vec![post.bind().layout()],
        &Vec::new(),
        TexFormat::Bgra8UnormSrgb,
    );
    let module = ctx.create_shader_module(QUAD_SHADER);
    let quad_shader = quad_layout.create_pipeline(&ctx, &module, &no_depth_config());

    let target = render_target(&ctx);
    let mut encoder = ctx.command_encoder();
    let session = encoder.render_pass(target.view(), None, None);
    let record = session
        .set_shared_data(&unused_layout, &camera)
        .wipe()
        .set_shared_data(&quad_layout, post.bind())
        .apply_shader(&quad_shader)
        .draw_screen_quad();
    encoder.submit(&ctx);

    // Both binds stay in the recording; the wipe only re-entered the
    // empty state so another layout could be bound.
    assert_eq!(
        record.commands().as_slice(),
        &[
            Cmd::SetBindGroup { index: 0 },
            Cmd::SetBindGroup { index: 0 },
            Cmd::SetPipeline,
            Cmd::Draw { vertex_start: 0, vertex_end: 3, instance_start: 0, instance_end: 1 },
        ]
    );
}

const COMPUTE_SHADER: &str = "
@group(0) @binding(0) var<storage, read> data: array<u32>;

@compute @workgroup_size(1)
fn cs(@builtin(global_invocation_id) id: vec3<u32>) {
    _ = data[0];
}
";

const HDR_SHADER: &str = "
struct Camera { m: mat4x4<f32> }
@group(0) @binding(0) var<uniform> camera: Camera;

struct VsIn {
    @location(0) pos: vec3<f32>,
    @location(1) color: vec3<f32>,
}
struct VsOut {
    @builtin(position) pos: vec4<f32>,
    @location(0) color: vec3<f32>,
}

@vertex
fn vs(in: VsIn) -> VsOut {
    var out: VsOut;
    out.pos = camera.m * vec4<f32>(in.pos, 1.0);
    out.color = in.color;
    return out;
}

@fragment
fn fs(in: VsOut) -> @location(0) vec4<f32> {
    return vec4<f32>(in.color, 1.0);
}
";

#[test]
fn hdr_target_draws_and_survives_resize() {
    // Render the fan into the sixteen-bit float offscreen target, resize
    // it, refresh its bind, and render again: each pass records one draw.
    let ctx = ctx();
    let (camera_layout, camera) = camera_bind(&ctx);
    let mut hdr = r3_core::post::Hdr::new(&ctx, 64, 64);
    assert_eq!(hdr.texture().format(), TexFormat::Rgba16Float);
    assert_eq!(
        hdr.post_proc().sampler().kind(),
        r3_core::texture::SamplerKind::Nearest
    );

    let parts = vec![TaggedAttr {
        schema: VertexAttr { formats: vec![VertexFormat::Float32x3, VertexFormat::Float32x3] },
        step: StepMode::Vertex,
    }];
    let layout = RawLayout::new(&ctx, &vec![&camera_layout], &parts, TexFormat::Rgba16Float);
    let module = ctx.create_shader_module(HDR_SHADER);
    let shader = layout.create_pipeline(&ctx, &module, &no_depth_config());
    let mesh = SimpleMesh::new_uint16(
        &ctx,
        r3_core::vertex::VertexRequirements::of_layout(&parts),
        &vec![fan_mesh_bytes()],
        &FAN_INDICES,
    );

    let mut encoder = ctx.command_encoder();
    let record = encoder
        .render_pass(hdr.texture().view(), None, None)
        .set_shared_data(&layout, &camera)
        .apply_shader_with_default(&shader)
        .draw_mesh(&mesh);
    encoder.submit(&ctx);
    assert!(matches!(record.commands().last(), Some(Cmd::DrawIndexed { .. })));

    hdr.resize(&ctx, 128, 128);
    hdr.post_proc().bind(); // still usable, though stale until refreshed

    let mut encoder2 = ctx.command_encoder();
    let record2 = encoder2
        .render_pass(hdr.texture().view(), None, None)
        .set_shared_data(&layout, &camera)
        .apply_shader_with_default(&shader)
        .draw_mesh(&mesh);
    encoder2.submit(&ctx);
    assert!(matches!(record2.commands().last(), Some(Cmd::DrawIndexed { .. })));
}

#[test]
fn shaded_mesh_draws_its_own_shader() {
    let ctx = ctx();
    let (camera_layout, camera) = camera_bind(&ctx);
    let parts = vec![TaggedAttr {
        schema: VertexAttr { formats: vec![VertexFormat::Float32x3, VertexFormat::Float32x3] },
        step: StepMode::Vertex,
    }];
    let layout = RawLayout::new(&ctx, &vec![&camera_layout], &parts, TexFormat::Bgra8UnormSrgb);
    let module = ctx.create_shader_module(CAMERA_SHADER);
    let shader = layout.create_pipeline(&ctx, &module, &no_depth_config());
    let mesh = SimpleMesh::new_uint16(
        &ctx,
        r3_core::vertex::VertexRequirements::of_layout(&parts),
        &vec![fan_mesh_bytes()],
        &FAN_INDICES,
    );
    let shaded = r3_core::post::ShadedMesh::new(mesh, shader);

    let target = render_target(&ctx);
    let mut encoder = ctx.command_encoder();
    let session = encoder
        .render_pass(target.view(), None, None)
        .set_shared_data(&layout, &camera);
    let record = shaded.draw(session);
    encoder.submit(&ctx);

    assert_eq!(
        record.commands().as_slice(),
        &[
            Cmd::SetBindGroup { index: 0 },
            Cmd::SetPipeline,
            Cmd::SetVertexBuffer { slot: 0 },
            Cmd::SetIndexBuffer { uint32: false },
            Cmd::DrawIndexed { index_count: 9, base_vertex: 0, instance_start: 0, instance_end: 1 },
        ]
    );
}

#[test]
fn textures_copy_and_depth_target_builds() {
    let ctx = ctx();
    let depth = r3_core::texture::SampledTexture::create_depth_texture(&ctx, 0, 32);
    // A zero width is clamped to one texel.
    assert_eq!(depth.texture.extent().width, 1);
    assert_eq!(depth.texture.extent().height, 32);
    assert_eq!(depth.texture.format(), TexFormat::Depth32Float);
    assert_eq!(depth.texture.mip_level_count(), 1);
    assert_eq!(depth.texture.sample_count(), 1);

    let src = RawTexture::new(
        &ctx,
        TexDim::D2,
        Extent { width: 16, height: 16, depth_or_array_layers: 1 },
        &TextureConfig {
            mip_level_count: None,
            sample_count: None,
            format: Some(TexFormat::Rgba8UnormSrgb),
            usages: Some(TexUsage {
                render_attachment: false,
                texture_binding: true,
                storage_binding: false,
                copy_dst: true,
                copy_src: true,
            }),
        },
    );
    src.write_data(
        &ctx,
        &vec![0u8; 16 * 16 * 4],
        Extent { width: 16, height: 16, depth_or_array_layers: 1 },
        None,
    );
    let dst = RawTexture::new(
        &ctx,
        TexDim::D2,
        Extent { width: 16, height: 16, depth_or_array_layers: 1 },
        &TextureConfig {
            mip_level_count: None,
            sample_count: None,
            format: Some(TexFormat::Rgba8UnormSrgb),
            usages: Some(TexUsage {
                render_attachment: false,
                texture_binding: true,
                storage_binding: false,
                copy_dst: true,
                copy_src: false,
            }),
        },
    );
    let mut encoder = ctx.command_encoder();
    assert!(encoder.commands().is_empty());
    src.copy_to(&dst, &mut encoder);
    // The copy stands in the encoder's own command log.
    assert_eq!(
        encoder.commands().as_slice(),
        &[Cmd::CopyTexture { width: 16, height: 16 }]
    );
    encoder.submit(&ctx);
}

#[test]
fn compute_session_mirrors_the_render_shape() {
    let ctx = ctx();
    let schema = BindingSchema::new(vec![BindingEntry {
        slot: 0,
        visibility: Stages::compute_only(),
        kind: BindingKind::Storage,
        count: None,
    }])
    .unwrap();
    let bind_layout = BindLayout::new(&ctx, schema);
    let layout = RawComputeLayout::new(&ctx, &vec![&bind_layout]);
    let module = ctx.create_shader_module(COMPUTE_SHADER);
    let shader = layout.create_compute_pipeline(
        &ctx,
        &module,
        &ComputeShaderConfig { label: Some(String::from("reduce")), entry: None },
    );

    let storage = StorageBuffer::new_init(&ctx, &[0u8; 16]);
    let schema2 = BindingSchema::new(vec![BindingEntry {
        slot: 0,
        visibility: Stages::compute_only(),
        kind: BindingKind::Storage,
        count: None,
    }])
    .unwrap();
    let bind = Bind::new(
        &ctx,
        BindLayout::new(&ctx, schema2),
        vec![BindResource::Storage(storage)],
    )
    .unwrap();

    let mut encoder = ctx.command_encoder();
    let mut session = encoder
        .compute_pass()
        .set_shared_data(&layout, &bind)
        .apply_compute_shader(&shader);
    session.dispatch_workgroups(4, 2, 1);
    let record = session.finish();
    encoder.submit(&ctx);

    assert_eq!(
        record.commands().as_slice(),
        &[
            Cmd::SetBindGroup { index: 0 },
            Cmd::SetPipeline,
            Cmd::DispatchWorkgroups { x: 4, y: 2, z: 1 },
        ]
    );
}
