//! Buffer bounds and bind-group behavior, exercised against a headless
//! device.

use r3_core::bind::Bind;
use r3_core::bind::BindError;
use r3_core::bind::BindLayout;
use r3_core::bind::BindResource;
use r3_core::buffer::BufferError;
use r3_core::buffer::DynamicBuffer;
use r3_core::buffer::StorageBuffer;
use r3_core::buffer::UniformBuffer;
use r3_core::context::RenderContext;
use r3_core::mesh::IndexFormat;
use r3_core::mesh::Uint16;
use r3_core::mesh::Uint32;
use r3_core::schema::BindingEntry;
use r3_core::schema::BindingKind;
use r3_core::schema::BindingSchema;
use r3_core::schema::Stages;
use r3_core::post::PostProc;
use r3_core::texture::Extent;
use r3_core::texture::SampledTexture;
use r3_core::texture::SamplerKind;
use r3_core::texture::TexDim;
use r3_core::texture::TexDimension;
use r3_core::texture::TexUsage;
use r3_core::texture::Texture1D;
use r3_core::texture::Texture2D;
use r3_core::texture::Texture3D;

fn ctx() -> RenderContext {
    let mut desc = wgpu::InstanceDescriptor::new_without_display_handle();
    desc.backends = wgpu::Backends::NOOP;
    desc.backend_options.noop.enable = true;
    let instance = wgpu::Instance::new(desc);
    let rt = tokio::runtime::Builder::new_current_thread().build().unwrap();
    let adapter = rt
        .block_on(instance.request_adapter(&wgpu::RequestAdapterOptions::default()))
        .expect("the headless adapter must be available");
    let (device, queue) = rt
        .block_on(adapter.request_device(&wgpu::DeviceDescriptor::default()))
        .expect("the headless device must be available");
    RenderContext::from_raw(instance, adapter, device, queue)
}

#[test]
fn dynamic_buffer_write_fails_iff_past_capacity() {
    let ctx = ctx();
    let mut buffer = DynamicBuffer::new(&ctx, 12);
    assert_eq!(buffer.max_size(), 12);
    assert_eq!(buffer.size(), 0);

    // offset + len == capacity: must succeed, and size becomes offset + len.
    let data = [1u8, 2, 3, 4];
    assert!(buffer.try_write_at_offset(&ctx, &data, 8).is_ok());
    assert_eq!(buffer.size(), 12);

    // offset + len > capacity: must fail, and nothing changes.
    let result = buffer.try_write_at_offset(&ctx, &data, 12);
    assert_eq!(
        result,
        Err(BufferError::OutOfBounds { offset: 12, len: 4, capacity: 12 })
    );
    assert_eq!(buffer.size(), 12);
    assert_eq!(buffer.max_size(), 12);

    // A shorter write pulls the logical size back to its end.
    assert!(buffer.try_write_at_offset(&ctx, &data, 0).is_ok());
    assert_eq!(buffer.size(), 4);
}

#[test]
fn storage_buffer_write_fails_iff_past_size_and_size_is_fixed() {
    let ctx = ctx();
    let buffer = StorageBuffer::new(&ctx, 8);
    assert_eq!(buffer.size(), 8);

    let data = [0u8; 8];
    assert!(buffer.try_write_at_offset(&ctx, &data, 0).is_ok());
    assert_eq!(buffer.size(), 8);

    let result = buffer.try_write_at_offset(&ctx, &data, 4);
    assert_eq!(
        result,
        Err(BufferError::OutOfBounds { offset: 4, len: 8, capacity: 8 })
    );
    assert_eq!(buffer.size(), 8);
}

#[test]
fn buffer_sizes_follow_their_data() {
    let ctx = ctx();
    let uniform = UniformBuffer::new_init(&ctx, &[0u8; 64]);
    assert_eq!(uniform.size(), 64);
    let storage = StorageBuffer::new_init(&ctx, &[0u8; 12]);
    assert_eq!(storage.size(), 12);
    let dynamic = DynamicBuffer::new_init(&ctx, &[0u8; 12], Some(16));
    assert_eq!(dynamic.size(), 12);
    assert_eq!(dynamic.max_size(), 16);
    let dynamic_tight = DynamicBuffer::new_init(&ctx, &[0u8; 12], None);
    assert_eq!(dynamic_tight.max_size(), 12);
}

fn entry(slot: u32, visibility: Stages, kind: BindingKind) -> BindingEntry {
    BindingEntry { slot, visibility, kind, count: None }
}

#[test]
fn test_bind() {
    // Two uniform buffers, a storage buffer and a dynamic buffer, at slots
    // zero to three.
    let ctx = ctx();
    let entries = vec![
        entry(0, Stages::vertex_only(), BindingKind::Uniform),
        entry(1, Stages::vertex_only(), BindingKind::Uniform),
        entry(2, Stages::fragment_only(), BindingKind::Storage),
        entry(3, Stages::fragment_only(), BindingKind::DynamicStorage),
    ];
    let schema = BindingSchema::new(entries).unwrap();
    let layout = BindLayout::new(&ctx, schema);
    let resources = vec![
        BindResource::Uniform(UniformBuffer::new_init(&ctx, &4.0f32.to_le_bytes())),
        BindResource::Uniform(UniformBuffer::new_init(&ctx, &4.0f32.to_le_bytes())),
        BindResource::Storage(StorageBuffer::new_init(&ctx, &[0u8; 12])),
        BindResource::Dynamic(DynamicBuffer::new_init(&ctx, &[0u8; 12], Some(16))),
    ];
    let bind = Bind::new(&ctx, layout, resources).unwrap();
    assert_eq!(bind.bound().len(), 4);
    drop(bind);
}

#[test]
fn dynamic_writes_through_the_bind_track_the_size() {
    let ctx = ctx();
    let schema = BindingSchema::new(vec![entry(
        0,
        Stages::fragment_only(),
        BindingKind::DynamicStorage,
    )])
    .unwrap();
    let layout = BindLayout::new(&ctx, schema);
    let mut bind = Bind::new(
        &ctx,
        layout,
        vec![BindResource::Dynamic(DynamicBuffer::new(&ctx, 16))],
    )
    .unwrap();
    let bound_before = bind.bound().clone();

    assert!(bind.write_dynamic_at(&ctx, 0, &[0u8; 8], 4).is_ok());
    assert_eq!(bind.dynamic_at(0).size(), 12);

    let result = bind.write_dynamic_at(&ctx, 0, &[0u8; 8], 12);
    assert_eq!(
        result,
        Err(BufferError::OutOfBounds { offset: 12, len: 8, capacity: 16 })
    );
    assert_eq!(bind.dynamic_at(0).size(), 12);
    // A buffer write never stales the bind group.
    assert_eq!(*bind.bound(), bound_before);
}

#[test]
fn bind_rejects_wrong_resource_count() {
    let ctx = ctx();
    let schema = BindingSchema::new(vec![
        entry(0, Stages::vertex_only(), BindingKind::Uniform),
        entry(1, Stages::vertex_only(), BindingKind::Uniform),
    ])
    .unwrap();
    let layout = BindLayout::new(&ctx, schema);
    let resources = vec![BindResource::Uniform(UniformBuffer::new(&ctx, 4))];
    match Bind::new(&ctx, layout, resources) {
        Err(BindError::CountMismatch { expected, got }) => {
            assert_eq!(expected, 2);
            assert_eq!(got, 1);
        },
        _ => panic!("one resource for a two-entry schema must be rejected"),
    }
}

#[test]
fn bind_rejects_wrong_resource_kind() {
    let ctx = ctx();
    let schema = BindingSchema::new(vec![
        entry(0, Stages::vertex_only(), BindingKind::Uniform),
        entry(1, Stages::fragment_only(), BindingKind::Sampler),
    ])
    .unwrap();
    let layout = BindLayout::new(&ctx, schema);
    let resources = vec![
        BindResource::Uniform(UniformBuffer::new(&ctx, 4)),
        BindResource::Storage(StorageBuffer::new(&ctx, 4)),
    ];
    match Bind::new(&ctx, layout, resources) {
        Err(BindError::KindMismatch { index }) => assert_eq!(index, 1),
        _ => panic!("a storage buffer in a sampler slot must be rejected"),
    }
}

#[test]
fn index_format_markers_name_their_width() {
    assert!(!<Uint16 as IndexFormat>::is_uint32());
    assert!(<Uint32 as IndexFormat>::is_uint32());
}

#[test]
fn dimension_markers_name_their_dimension() {
    assert_eq!(<Texture1D as TexDimension>::dimension(), TexDim::D1);
    assert_eq!(<Texture2D as TexDimension>::dimension(), TexDim::D2);
    assert_eq!(<Texture3D as TexDimension>::dimension(), TexDim::D3);
}

#[test]
fn uniform_writes_go_through_the_bind() {
    let ctx = ctx();
    let schema = BindingSchema::new(vec![entry(0, Stages::vertex_only(), BindingKind::Uniform)])
        .unwrap();
    let layout = BindLayout::new(&ctx, schema);
    let bind = Bind::new(
        &ctx,
        layout,
        vec![BindResource::Uniform(UniformBuffer::new_init(&ctx, &[0u8; 64]))],
    )
    .unwrap();
    assert_eq!(bind.uniform_at(0).size(), 64);
    bind.uniform_at(0).write(&ctx, &[7u8; 64]);
}

#[test]
fn depth_texture_is_rejected_in_a_sampled_texture_slot() {
    // The sampled-texture binding type is float-filterable, which a
    // depth-format texture cannot satisfy.
    let ctx = ctx();
    let depth = SampledTexture::create_depth_texture(&ctx, 32, 32);
    assert_eq!(depth.sampler.kind(), SamplerKind::DepthCompare);
    let schema = BindingSchema::new(vec![
        entry(0, Stages::fragment_only(), BindingKind::Texture),
        entry(1, Stages::fragment_only(), BindingKind::Sampler),
    ])
    .unwrap();
    let layout = BindLayout::new(&ctx, schema);
    match Bind::new(
        &ctx,
        layout,
        vec![
            r3_core::bind::BindResource::Texture(depth.texture),
            r3_core::bind::BindResource::Sampler(depth.sampler),
        ],
    ) {
        Err(BindError::KindMismatch { index }) => assert_eq!(index, 0),
        _ => panic!("a depth texture in a float-sampled slot must be rejected"),
    }
}

#[test]
fn refresh_with_unchanged_resources_keeps_the_bindings() {
    let ctx = ctx();
    let mut post = PostProc::new(
        &ctx,
        TexUsage { render_attachment: false, texture_binding: false, storage_binding: false, copy_dst: true, copy_src: false },
        64,
        64,
    );
    assert_eq!(post.sampler().kind(), SamplerKind::Default);
    let before = post.bind().bound().clone();
    post.refresh(&ctx);
    let after = post.bind().bound().clone();
    assert_eq!(before, after);
}

#[test]
fn resize_then_refresh_changes_the_view_but_not_the_layout() {
    let ctx = ctx();
    let mut post = PostProc::new(
        &ctx,
        TexUsage { render_attachment: false, texture_binding: false, storage_binding: false, copy_dst: false, copy_src: false },
        64,
        64,
    );
    let slots_before: Vec<u32> = post.bind().layout().schema().entries().iter().map(|e| e.slot).collect();
    let bound_before = post.bind().bound().clone();
    assert_eq!(bound_before[0].texture_generation, Some(0));

    post.resize(&ctx, 128, 128);
    // The realized bind group still names the old view until refresh; the
    // texture keeps its mip and sample counts through the resize.
    assert_eq!(post.bind().bound()[0].texture_generation, Some(0));
    assert_eq!(post.raw_texture().extent(), Extent { width: 128, height: 128, depth_or_array_layers: 1 });
    assert_eq!(post.raw_texture().mip_level_count(), 1);
    assert_eq!(post.raw_texture().sample_count(), 1);

    post.refresh(&ctx);
    let slots_after: Vec<u32> = post.bind().layout().schema().entries().iter().map(|e| e.slot).collect();
    let bound_after = post.bind().bound().clone();

    // The slot table is untouched; the texture binding names the new view.
    assert_eq!(slots_before, slots_after);
    assert_eq!(bound_after[0].slot, bound_before[0].slot);
    assert_eq!(bound_after[0].texture_generation, Some(1));
    assert_ne!(bound_after[0].texture_generation, bound_before[0].texture_generation);
    // The sampler binding is unchanged.
    assert_eq!(bound_after[1], bound_before[1]);
}
