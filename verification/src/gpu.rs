//! The trusted boundary to the `wgpu` device API.
//!
//! Every type of `wgpu` that appears in a signature or a field of this crate
//! is declared here, and every call into `wgpu` goes through one of the small
//! wrappers below. The wrappers only convert plain arguments into the
//! descriptor structs `wgpu` expects and make the one call; everything that
//! computes or decides stands in the verified modules around them.

use vstd::prelude::*;

use crate::schema::BindingEntry;
use crate::schema::BindingKind;

verus! {

#[verifier::external_type_specification]
#[verifier::external_body]
pub struct ExInstance(wgpu::Instance);

#[verifier::external_type_specification]
#[verifier::external_body]
pub struct ExAdapter(wgpu::Adapter);

#[verifier::external_type_specification]
#[verifier::external_body]
pub struct ExDevice(wgpu::Device);

#[verifier::external_type_specification]
#[verifier::external_body]
pub struct ExQueue(wgpu::Queue);

#[verifier::external_type_specification]
#[verifier::external_body]
pub struct ExBuffer(wgpu::Buffer);

#[verifier::external_type_specification]
#[verifier::external_body]
pub struct ExBindGroupLayout(wgpu::BindGroupLayout);

#[verifier::external_type_specification]
#[verifier::external_body]
pub struct ExBindGroup(wgpu::BindGroup);

#[verifier::external_type_specification]
#[verifier::external_body]
pub struct ExBindGroupLayoutEntry(wgpu::BindGroupLayoutEntry);

#[verifier::external_type_specification]
#[verifier::external_body]
pub struct ExBindingType(wgpu::BindingType);

#[verifier::external_type_specification]
#[verifier::external_body]
pub struct ExBindGroupEntry<'a>(wgpu::BindGroupEntry<'a>);

#[verifier::external_type_specification]
#[verifier::external_body]
pub struct ExTexture(wgpu::Texture);

#[verifier::external_type_specification]
#[verifier::external_body]
pub struct ExTextureView(wgpu::TextureView);

#[verifier::external_type_specification]
#[verifier::external_body]
pub struct ExSampler(wgpu::Sampler);

#[verifier::external_type_specification]
#[verifier::external_body]
pub struct ExTextureFormat(wgpu::TextureFormat);

#[verifier::external_type_specification]
#[verifier::external_body]
pub struct ExPipelineLayout(wgpu::PipelineLayout);

#[verifier::external_type_specification]
#[verifier::external_body]
pub struct ExRenderPipeline(wgpu::RenderPipeline);

#[verifier::external_type_specification]
#[verifier::external_body]
pub struct ExComputePipeline(wgpu::ComputePipeline);

#[verifier::external_type_specification]
#[verifier::external_body]
pub struct ExShaderModule(wgpu::ShaderModule);

#[verifier::external_type_specification]
#[verifier::external_body]
pub struct ExCommandEncoder(wgpu::CommandEncoder);

#[verifier::external_type_specification]
#[verifier::external_body]
pub struct ExCommandBuffer(wgpu::CommandBuffer);

#[verifier::external_type_specification]
#[verifier::external_body]
pub struct ExRenderPass<'a>(wgpu::RenderPass<'a>);

#[verifier::external_type_specification]
#[verifier::external_body]
pub struct ExComputePass<'a>(wgpu::ComputePass<'a>);

#[verifier::external_type_specification]
#[verifier::external_body]
pub struct ExColor(wgpu::Color);

#[verifier::external_type_specification]
#[verifier::external_body]
#[verifier::reject_recursive_types(V)]
pub struct ExLoadOp<V>(wgpu::LoadOp<V>);

#[verifier::external_type_specification]
#[verifier::external_body]
pub struct ExTextureDimension(wgpu::TextureDimension);

#[verifier::external_type_specification]
#[verifier::external_body]
pub struct ExTextureViewDimension(wgpu::TextureViewDimension);

#[verifier::external_type_specification]
#[verifier::external_body]
pub struct ExTextureUsages(wgpu::TextureUsages);

#[verifier::external_type_specification]
#[verifier::external_body]
pub struct ExRenderPassDepthStencilAttachment<'a>(wgpu::RenderPassDepthStencilAttachment<'a>);

#[verifier::external_type_specification]
#[verifier::external_body]
pub struct ExVertexAttribute(wgpu::VertexAttribute);

#[verifier::external_type_specification]
#[verifier::external_body]
pub struct ExVertexBufferLayout<'a>(wgpu::VertexBufferLayout<'a>);

#[verifier::external_type_specification]
#[verifier::external_body]
pub struct ExColorTargetState(wgpu::ColorTargetState);

#[verifier::external_type_specification]
#[verifier::external_body]
pub struct ExPrimitiveState(wgpu::PrimitiveState);

#[verifier::external_type_specification]
#[verifier::external_body]
pub struct ExDepthStencilState(wgpu::DepthStencilState);

#[verifier::external_type_specification]
#[verifier::external_body]
pub struct ExMultisampleState(wgpu::MultisampleState);

#[verifier::external_type_specification]
#[verifier::external_body]
pub struct ExPrimitiveTopology(wgpu::PrimitiveTopology);

#[verifier::external_type_specification]
#[verifier::external_body]
pub struct ExFrontFace(wgpu::FrontFace);

#[verifier::external_type_specification]
#[verifier::external_body]
pub struct ExFace(wgpu::Face);

#[verifier::external_type_specification]
#[verifier::external_body]
pub struct ExCompareFunction(wgpu::CompareFunction);

/// A texture format the library knows.
#[derive(Clone, Copy, Debug, PartialEq, Eq, Structural)]
pub enum TexFormat {
    Bgra8UnormSrgb,
    Rgba8UnormSrgb,
    Rgba16Float,
    Depth32Float,
}

/// The `wgpu` value of a library texture format.
pub(crate) fn tex_format_to_wgpu(f: TexFormat) -> wgpu::TextureFormat {
    match f {
        TexFormat::Bgra8UnormSrgb => w_format_bgra8unorm_srgb(),
        TexFormat::Rgba8UnormSrgb => w_format_rgba8unorm_srgb(),
        TexFormat::Rgba16Float => w_format_rgba16float(),
        TexFormat::Depth32Float => w_format_depth32(),
    }
}

/// What a bind-group buffer is created for; each kind maps to one fixed
/// usage set.
#[derive(Clone, Copy, Debug, PartialEq, Eq, Structural)]
pub enum BufferKind {
    /// A uniform buffer the queue may write to.
    Uniform,
    /// A storage buffer the queue may write to.
    Storage,
}

/// Relies on wgpu::Device::create_buffer: an unmapped buffer of exactly
/// the given byte size with the usage set of the kind, paired with that
/// size.
#[verifier::external_body]
pub(crate) fn w_create_buffer(device: &wgpu::Device, size: u64, kind: BufferKind) -> (r:
    SizedBuffer)
    ensures
        r.spec_size() == size,
{
    let usage = match kind {
        BufferKind::Uniform => wgpu::BufferUsages::UNIFORM | wgpu::BufferUsages::COPY_DST,
        BufferKind::Storage => wgpu::BufferUsages::STORAGE | wgpu::BufferUsages::COPY_DST,
    };
    let buffer = device.create_buffer(&wgpu::BufferDescriptor {
        label: None,
        usage,
        size,
        mapped_at_creation: false,
    });
    SizedBuffer { buffer, size }
}

/// Relies on wgpu::util::DeviceExt::create_buffer_init: a buffer holding
/// the given bytes with the usage set of the kind, paired with their
/// length; the allocation is padded up to the copy alignment, never down.
#[verifier::external_body]
pub(crate) fn w_create_buffer_init(device: &wgpu::Device, contents: &[u8], kind: BufferKind) -> (r:
    SizedBuffer)
    ensures
        r.spec_size() == contents@.len(),
{
    let usage = match kind {
        BufferKind::Uniform => wgpu::BufferUsages::UNIFORM | wgpu::BufferUsages::COPY_DST,
        BufferKind::Storage => wgpu::BufferUsages::STORAGE | wgpu::BufferUsages::COPY_DST,
    };
    let buffer = wgpu::util::DeviceExt::create_buffer_init(
        device,
        &wgpu::util::BufferInitDescriptor { label: None, contents, usage },
    );
    SizedBuffer { buffer, size: contents.len() as u64 }
}

/// A device buffer paired with the byte length of the contents it was
/// created from. Only the trusted creation wrappers below build one, and
/// they record the length of the very bytes they hand to the device, whose
/// allocation is at least that long — so a slice of up to the recorded
/// size always lies within the buffer.
pub struct SizedBuffer {
    buffer: wgpu::Buffer,
    size: u64,
}

impl SizedBuffer {
    /// The byte length of the contents the buffer was created from.
    pub closed spec fn spec_size(&self) -> u64 {
        self.size
    }

    /// The byte length of the contents the buffer was created from.
    pub fn size(&self) -> (r: u64)
        ensures
            r == self.spec_size(),
    {
        self.size
    }

    /// The underlying device buffer.
    pub fn wgpu_buffer(&self) -> (r: &wgpu::Buffer) {
        &self.buffer
    }
}

/// Relies on wgpu::util::DeviceExt::create_buffer_init: a vertex buffer
/// holding the given bytes, paired with their length; the device
/// allocation is padded up to the copy alignment, never down.
#[verifier::external_body]
pub(crate) fn w_create_vertex_buffer(device: &wgpu::Device, contents: &[u8]) -> (r: SizedBuffer)
    ensures
        r.spec_size() == contents@.len(),
{
    let buffer = wgpu::util::DeviceExt::create_buffer_init(
        device,
        &wgpu::util::BufferInitDescriptor {
            label: None,
            contents,
            usage: wgpu::BufferUsages::VERTEX,
        },
    );
    SizedBuffer { buffer, size: contents.len() as u64 }
}

/// Relies on wgpu::Queue::write_buffer: schedules the bytes to be written
/// into the buffer at the byte offset. The call validates synchronously:
/// a misaligned offset or length, or a write past the buffer's size, is
/// reported through the uncaptured-error handler, which panics by
/// default — the requires exclude both, since the recorded size never
/// exceeds the allocation.
#[verifier::external_body]
pub(crate) fn w_queue_write_buffer(
    queue: &wgpu::Queue,
    buffer: &SizedBuffer,
    offset: u64,
    data: &[u8],
)
    requires
        offset + data@.len() <= buffer.spec_size(),
        offset % 4 == 0,
        data@.len() % 4 == 0,
{
    queue.write_buffer(&buffer.buffer, offset, data);
}

/// Relies on wgpu::BindingType::Buffer with the uniform binding type.
#[verifier::external_body]
fn w_binding_type_uniform() -> (r: wgpu::BindingType) {
    wgpu::BindingType::Buffer {
        ty: wgpu::BufferBindingType::Uniform,
        has_dynamic_offset: false,
        min_binding_size: None,
    }
}

/// Relies on wgpu::BindingType::Buffer with the storage binding type:
/// read-only without a dynamic offset, or read-write with one.
#[verifier::external_body]
fn w_binding_type_storage(read_only: bool, dynamic_offset: bool) -> (r: wgpu::BindingType) {
    wgpu::BindingType::Buffer {
        ty: wgpu::BufferBindingType::Storage { read_only },
        has_dynamic_offset: dynamic_offset,
        min_binding_size: None,
    }
}

/// Relies on wgpu::BindingType::Texture: a filterable float-sampled
/// two-dimensional texture binding.
#[verifier::external_body]
fn w_binding_type_texture() -> (r: wgpu::BindingType) {
    wgpu::BindingType::Texture {
        sample_type: wgpu::TextureSampleType::Float { filterable: true },
        view_dimension: wgpu::TextureViewDimension::D2,
        multisampled: false,
    }
}

/// Relies on wgpu::BindingType::StorageTexture: a write-only
/// two-dimensional storage texture binding of the given format.
#[verifier::external_body]
fn w_binding_type_storage_texture(format: wgpu::TextureFormat) -> (r: wgpu::BindingType) {
    wgpu::BindingType::StorageTexture {
        access: wgpu::StorageTextureAccess::WriteOnly,
        format,
        view_dimension: wgpu::TextureViewDimension::D2,
    }
}

/// Relies on wgpu::BindingType::Sampler with the filtering sampler type.
#[verifier::external_body]
fn w_binding_type_sampler() -> (r: wgpu::BindingType) {
    wgpu::BindingType::Sampler(wgpu::SamplerBindingType::Filtering)
}

/// Relies on wgpu::BindGroupLayoutEntry: one layout row with the given
/// slot, stage visibility, binding type and array count; a count of zero
/// becomes no count at all, as NonZeroU32::new gives.
#[verifier::external_body]
fn w_layout_entry(
    slot: u32,
    vertex: bool,
    fragment: bool,
    compute: bool,
    ty: wgpu::BindingType,
    count: Option<u32>,
) -> (r: wgpu::BindGroupLayoutEntry) {
    let mut visibility = wgpu::ShaderStages::NONE;
    if vertex { visibility |= wgpu::ShaderStages::VERTEX; }
    if fragment { visibility |= wgpu::ShaderStages::FRAGMENT; }
    if compute { visibility |= wgpu::ShaderStages::COMPUTE; }
    wgpu::BindGroupLayoutEntry {
        binding: slot, visibility, ty,
        count: count.and_then(std::num::NonZeroU32::new),
    }
}

/// The device-level layout row of one schema entry, with the binding type
/// the entry's kind declares.
pub(crate) fn layout_entry_of(e: &BindingEntry) -> wgpu::BindGroupLayoutEntry {
    let ty: wgpu::BindingType = match e.kind {
        BindingKind::Uniform => w_binding_type_uniform(),
        BindingKind::Storage => w_binding_type_storage(true, false),
        BindingKind::DynamicStorage => w_binding_type_storage(false, true),
        BindingKind::Texture => w_binding_type_texture(),
        BindingKind::StorageTexture { format } => w_binding_type_storage_texture(
            tex_format_to_wgpu(format),
        ),
        BindingKind::Sampler => w_binding_type_sampler(),
    };
    w_layout_entry(e.slot, e.visibility.vertex, e.visibility.fragment, e.visibility.compute, ty, e.count)
}

/// Relies on wgpu::Device::create_bind_group_layout: a layout holding
/// exactly the given rows, in order.
#[verifier::external_body]
pub(crate) fn w_create_bind_group_layout(
    device: &wgpu::Device,
    entries: &Vec<wgpu::BindGroupLayoutEntry>,
) -> (r: wgpu::BindGroupLayout) {
    device.create_bind_group_layout(&wgpu::BindGroupLayoutDescriptor {
        entries: entries.as_slice(),
        label: None,
    })
}

/// Relies on wgpu::BindGroupEntry with wgpu::Buffer::as_entire_binding:
/// binds the whole buffer at the slot.
#[verifier::external_body]
pub(crate) fn w_bind_entry_buffer<'a>(slot: u32, buffer: &'a wgpu::Buffer) -> (r:
    wgpu::BindGroupEntry<'a>) {
    wgpu::BindGroupEntry { binding: slot, resource: buffer.as_entire_binding() }
}

/// Relies on wgpu::BindGroupEntry with wgpu::BindingResource::TextureView:
/// binds the texture view at the slot.
#[verifier::external_body]
pub(crate) fn w_bind_entry_texture<'a>(slot: u32, view: &'a wgpu::TextureView) -> (r:
    wgpu::BindGroupEntry<'a>) {
    wgpu::BindGroupEntry { binding: slot, resource: wgpu::BindingResource::TextureView(view) }
}

/// Relies on wgpu::BindGroupEntry with wgpu::BindingResource::Sampler:
/// binds the sampler at the slot.
#[verifier::external_body]
pub(crate) fn w_bind_entry_sampler<'a>(slot: u32, sampler: &'a wgpu::Sampler) -> (r:
    wgpu::BindGroupEntry<'a>) {
    wgpu::BindGroupEntry { binding: slot, resource: wgpu::BindingResource::Sampler(sampler) }
}

/// Relies on wgpu::Device::create_bind_group: a bind group of the given
/// layout holding exactly the given entries.
#[verifier::external_body]
pub(crate) fn w_create_bind_group(
    device: &wgpu::Device,
    layout: &wgpu::BindGroupLayout,
    entries: &Vec<wgpu::BindGroupEntry>,
) -> (r: wgpu::BindGroup) {
    device.create_bind_group(&wgpu::BindGroupDescriptor {
        layout,
        entries: entries.as_slice(),
        label: None,
    })
}

/// Relies on wgpu::Device::create_shader_module with a WGSL source: the
/// module holds the compiled source text, which the library does not read.
#[verifier::external_body]
pub(crate) fn w_create_shader_module_wgsl(device: &wgpu::Device, source: &str) -> (r:
    wgpu::ShaderModule) {
    device.create_shader_module(wgpu::ShaderModuleDescriptor {
        label: None,
        source: wgpu::ShaderSource::Wgsl(source.into()),
    })
}

/// Relies on wgpu::Device::create_sampler with the default descriptor:
/// clamping address modes, nearest filtering, no comparison.
#[verifier::external_body]
pub(crate) fn w_create_sampler_default(device: &wgpu::Device) -> (r: wgpu::Sampler) {
    device.create_sampler(&wgpu::SamplerDescriptor::default())
}

/// Relies on wgpu::Device::create_sampler: a sampler with nearest
/// magnification filtering and the default for everything else.
#[verifier::external_body]
pub(crate) fn w_create_sampler_nearest(device: &wgpu::Device) -> (r: wgpu::Sampler) {
    device.create_sampler(
        &wgpu::SamplerDescriptor { mag_filter: wgpu::FilterMode::Nearest, ..Default::default() },
    )
}

/// Relies on wgpu::Device::create_sampler: a depth-comparison sampler with
/// edge-clamped addressing, linear filtering and a less-or-equal compare.
#[verifier::external_body]
pub(crate) fn w_create_sampler_depth(device: &wgpu::Device) -> (r: wgpu::Sampler) {
    device.create_sampler(&wgpu::SamplerDescriptor {
        address_mode_u: wgpu::AddressMode::ClampToEdge,
        address_mode_v: wgpu::AddressMode::ClampToEdge,
        address_mode_w: wgpu::AddressMode::ClampToEdge,
        mag_filter: wgpu::FilterMode::Linear,
        min_filter: wgpu::FilterMode::Linear,
        mipmap_filter: wgpu::MipmapFilterMode::Nearest,
        compare: Some(wgpu::CompareFunction::LessEqual),
        ..Default::default()
    })
}

/// Relies on wgpu::Device::create_texture: a texture of the given extent,
/// mip and sample counts, dimension, format and usage, with no extra view
/// formats. The description must be valid, or the device would report a
/// fatal validation error; what remains beyond the requires are the
/// device's own size limits, which the design treats as fatal.
#[verifier::external_body]
pub(crate) fn w_create_texture(
    device: &wgpu::Device,
    dim: crate::texture::TexDim,
    width: u32,
    height: u32,
    depth: u32,
    mip_level_count: u32,
    sample_count: u32,
    format: TexFormat,
    usage: crate::texture::TexUsage,
) -> (r: wgpu::Texture)
    requires
        crate::texture::texture_desc_valid(
            dim,
            crate::texture::Extent { width, height, depth_or_array_layers: depth },
            format,
            usage,
            mip_level_count,
            sample_count,
        ),
{
    let dimension = match dim {
        crate::texture::TexDim::D1 => wgpu::TextureDimension::D1,
        crate::texture::TexDim::D2 => wgpu::TextureDimension::D2,
        crate::texture::TexDim::D3 => wgpu::TextureDimension::D3,
    };
    device.create_texture(&wgpu::TextureDescriptor {
        label: None,
        size: wgpu::Extent3d { width, height, depth_or_array_layers: depth },
        mip_level_count, sample_count, dimension,
        format: tex_format_to_wgpu(format),
        usage: w_texture_usages(usage.render_attachment, usage.texture_binding, usage.storage_binding, usage.copy_dst, usage.copy_src),
        view_formats: &[],
    })
}

/// Relies on wgpu::Texture::create_view: a view of the texture with the
/// given dimension, format, usage and mip count; a zero mip count is a
/// fatal validation error, and the callers pass the count the texture was
/// created with.
#[verifier::external_body]
pub(crate) fn w_create_view(
    texture: &wgpu::Texture,
    dimension: wgpu::TextureViewDimension,
    format: wgpu::TextureFormat,
    usage: wgpu::TextureUsages,
    mip_level_count: u32,
) -> (r: wgpu::TextureView)
    requires
        mip_level_count >= 1,
{
    texture.create_view(&wgpu::TextureViewDescriptor {
        label: None,
        format: Some(format),
        dimension: Some(dimension),
        usage: Some(usage),
        mip_level_count: Some(mip_level_count),
        ..Default::default()
    })
}

/// Relies on wgpu::Queue::write_texture: schedules the bytes to be written
/// into mip level zero of the texture, `bytes_per_row` bytes per row and
/// `height` rows per image.
#[verifier::external_body]
pub(crate) fn w_write_texture(
    queue: &wgpu::Queue,
    texture: &wgpu::Texture,
    data: &[u8],
    width: u32,
    height: u32,
    depth: u32,
    bytes_per_row: u32,
) {
    queue.write_texture(
        wgpu::TexelCopyTextureInfo {
            aspect: wgpu::TextureAspect::All,
            texture,
            mip_level: 0,
            origin: wgpu::Origin3d::ZERO,
        },
        data,
        wgpu::TexelCopyBufferLayout {
            offset: 0,
            bytes_per_row: Some(bytes_per_row),
            rows_per_image: Some(height),
        },
        wgpu::Extent3d { width, height, depth_or_array_layers: depth },
    );
}

/// Relies on wgpu::CommandEncoder::copy_texture_to_texture: copies a
/// `width` by `height` region of mip level zero between the textures.
#[verifier::external_body]
pub(crate) fn w_copy_texture(
    encoder: &mut wgpu::CommandEncoder,
    src: &wgpu::Texture,
    dst: &wgpu::Texture,
    width: u32,
    height: u32,
) {
    encoder.copy_texture_to_texture(
        wgpu::TexelCopyTextureInfo {
            texture: src,
            mip_level: 0,
            origin: wgpu::Origin3d::ZERO,
            aspect: wgpu::TextureAspect::All,
        },
        wgpu::TexelCopyTextureInfo {
            texture: dst,
            mip_level: 0,
            origin: wgpu::Origin3d::ZERO,
            aspect: wgpu::TextureAspect::All,
        },
        wgpu::Extent3d { width, height, depth_or_array_layers: 1 },
    );
}

/// Relies on wgpu::TextureViewDimension: the one-, two- or
/// three-dimensional view dimension.
#[verifier::external_body]
pub(crate) fn w_view_dimension(d1: bool, d3: bool) -> (r: wgpu::TextureViewDimension) {
    if d1 {
        wgpu::TextureViewDimension::D1
    } else if d3 {
        wgpu::TextureViewDimension::D3
    } else {
        wgpu::TextureViewDimension::D2
    }
}

/// Relies on wgpu::TextureUsages: the union of the named usage bits.
#[verifier::external_body]
pub(crate) fn w_texture_usages(
    render_attachment: bool,
    texture_binding: bool,
    storage_binding: bool,
    copy_dst: bool,
    copy_src: bool,
) -> (r: wgpu::TextureUsages) {
    let mut usage = wgpu::TextureUsages::empty();
    if render_attachment { usage |= wgpu::TextureUsages::RENDER_ATTACHMENT; }
    if texture_binding { usage |= wgpu::TextureUsages::TEXTURE_BINDING; }
    if storage_binding { usage |= wgpu::TextureUsages::STORAGE_BINDING; }
    if copy_dst { usage |= wgpu::TextureUsages::COPY_DST; }
    if copy_src { usage |= wgpu::TextureUsages::COPY_SRC; }
    usage
}

/// Relies on wgpu::Device::create_pipeline_layout: a pipeline layout over
/// exactly the given bind-group layouts, in order, with no push constants.
#[verifier::external_body]
pub(crate) fn w_create_pipeline_layout(
    device: &wgpu::Device,
    layouts: &Vec<Option<&wgpu::BindGroupLayout>>,
) -> (r: wgpu::PipelineLayout) {
    device.create_pipeline_layout(&wgpu::PipelineLayoutDescriptor {
        label: None,
        bind_group_layouts: layouts.as_slice(),
        immediate_size: 0,
    })
}

/// Relies on wgpu::PrimitiveTopology: point list, line list or strip,
/// triangle list or strip.
#[verifier::external_body]
pub(crate) fn w_topology(code: u32) -> (r: wgpu::PrimitiveTopology) {
    match code {
        0 => wgpu::PrimitiveTopology::PointList,
        1 => wgpu::PrimitiveTopology::LineList,
        2 => wgpu::PrimitiveTopology::LineStrip,
        4 => wgpu::PrimitiveTopology::TriangleStrip,
        _ => wgpu::PrimitiveTopology::TriangleList,
    }
}

/// Relies on wgpu::FrontFace: counter-clockwise or clockwise winding.
#[verifier::external_body]
pub(crate) fn w_front_face(ccw: bool) -> (r: wgpu::FrontFace) {
    if ccw {
        wgpu::FrontFace::Ccw
    } else {
        wgpu::FrontFace::Cw
    }
}

/// Relies on wgpu::Face: no culling, front-face culling, or back-face
/// culling.
#[verifier::external_body]
pub(crate) fn w_cull_mode(front: bool, back: bool) -> (r: Option<wgpu::Face>) {
    if front {
        Some(wgpu::Face::Front)
    } else if back {
        Some(wgpu::Face::Back)
    } else {
        None
    }
}

/// Relies on wgpu::PrimitiveState: the given topology, winding and cull
/// mode, with filled polygons and no strip index format.
#[verifier::external_body]
pub(crate) fn w_primitive_state(
    topology: wgpu::PrimitiveTopology,
    front_face: wgpu::FrontFace,
    cull_mode: Option<wgpu::Face>,
) -> (r: wgpu::PrimitiveState) {
    wgpu::PrimitiveState {
        topology,
        strip_index_format: None,
        front_face,
        cull_mode,
        polygon_mode: wgpu::PolygonMode::Fill,
        unclipped_depth: false,
        conservative: false,
    }
}

/// Relies on wgpu::CompareFunction: the named depth comparison.
#[verifier::external_body]
pub(crate) fn w_compare(code: u32) -> (r: wgpu::CompareFunction) {
    match code {
        0 => wgpu::CompareFunction::Never,
        2 => wgpu::CompareFunction::Equal,
        3 => wgpu::CompareFunction::LessEqual,
        4 => wgpu::CompareFunction::Greater,
        5 => wgpu::CompareFunction::Always,
        _ => wgpu::CompareFunction::Less,
    }
}

/// Relies on wgpu::DepthStencilState: the given format, write switch and
/// comparison, with the default stencil and bias.
#[verifier::external_body]
pub(crate) fn w_depth_stencil(
    format: wgpu::TextureFormat,
    depth_write_enabled: bool,
    depth_compare: wgpu::CompareFunction,
) -> (r: wgpu::DepthStencilState) {
    wgpu::DepthStencilState {
        format,
        depth_write_enabled: Some(depth_write_enabled),
        depth_compare: Some(depth_compare),
        stencil: wgpu::StencilState::default(),
        bias: wgpu::DepthBiasState::default(),
    }
}

/// Relies on wgpu::MultisampleState: the given sample count and
/// alpha-to-coverage switch, with every sample enabled in the mask.
#[verifier::external_body]
pub(crate) fn w_multisample(count: u32, alpha_to_coverage_enabled: bool) -> (r:
    wgpu::MultisampleState) {
    wgpu::MultisampleState { count, mask: !0, alpha_to_coverage_enabled }
}

/// Relies on wgpu::ColorTargetState: the given format with replace
/// blending and all channels written.
#[verifier::external_body]
pub(crate) fn w_color_target(format: wgpu::TextureFormat) -> (r: wgpu::ColorTargetState) {
    wgpu::ColorTargetState {
        format,
        blend: Some(wgpu::BlendState::REPLACE),
        write_mask: wgpu::ColorWrites::ALL,
    }
}

/// Relies on wgpu::VertexAttribute: one attribute of the given format at
/// the given byte offset and shader location.
#[verifier::external_body]
pub(crate) fn w_vertex_attr(e: &crate::vertex::AttributeEntry) -> (r: wgpu::VertexAttribute) {
    let format = match e.format {
        crate::vertex::VertexFormat::Float32 => wgpu::VertexFormat::Float32,
        crate::vertex::VertexFormat::Float32x2 => wgpu::VertexFormat::Float32x2,
        crate::vertex::VertexFormat::Float32x3 => wgpu::VertexFormat::Float32x3,
        crate::vertex::VertexFormat::Float32x4 => wgpu::VertexFormat::Float32x4,
        crate::vertex::VertexFormat::Uint32 => wgpu::VertexFormat::Uint32,
    };
    wgpu::VertexAttribute { format, offset: e.offset, shader_location: e.shader_location }
}

/// Relies on wgpu::VertexBufferLayout: the given stride and step mode over
/// the given attributes.
#[verifier::external_body]
pub(crate) fn w_buffer_layout<'a>(
    array_stride: u64,
    instance_step: bool,
    attributes: &'a Vec<wgpu::VertexAttribute>,
) -> (r: wgpu::VertexBufferLayout<'a>) {
    wgpu::VertexBufferLayout {
        array_stride,
        step_mode: if instance_step {
            wgpu::VertexStepMode::Instance
        } else {
            wgpu::VertexStepMode::Vertex
        },
        attributes: attributes.as_slice(),
    }
}

/// Relies on wgpu::Device::create_render_pipeline: compiles the vertex and
/// fragment entry points of the module against the given layout, buffers,
/// targets and fixed-function state, with the given debug label and
/// multiview mask (zero meaning none, as NonZeroU32::new gives) and no
/// pipeline cache.
#[verifier::external_body]
pub(crate) fn w_create_render_pipeline(
    device: &wgpu::Device,
    layout: &wgpu::PipelineLayout,
    module: &wgpu::ShaderModule,
    label: Option<&str>,
    vertex_entry: &str,
    fragment_entry: &str,
    buffers: &Vec<Option<wgpu::VertexBufferLayout>>,
    targets: &Vec<Option<wgpu::ColorTargetState>>,
    primitive: wgpu::PrimitiveState,
    depth_stencil: Option<wgpu::DepthStencilState>,
    multisample: wgpu::MultisampleState,
    multiview: Option<u32>,
) -> (r: wgpu::RenderPipeline) {
    device.create_render_pipeline(&wgpu::RenderPipelineDescriptor {
        label,
        layout: Some(layout),
        vertex: wgpu::VertexState {
            module, entry_point: Some(vertex_entry),
            compilation_options: Default::default(), buffers: buffers.as_slice(),
        },
        fragment: Some(wgpu::FragmentState {
            module, entry_point: Some(fragment_entry),
            compilation_options: Default::default(), targets: targets.as_slice(),
        }),
        primitive, depth_stencil, multisample,
        multiview_mask: multiview.and_then(std::num::NonZeroU32::new), cache: None,
    })
}

/// Relies on wgpu::Device::create_compute_pipeline: compiles the entry
/// point of the module against the given layout, with the given debug
/// label and no pipeline cache.
#[verifier::external_body]
pub(crate) fn w_create_compute_pipeline(
    device: &wgpu::Device,
    layout: &wgpu::PipelineLayout,
    module: &wgpu::ShaderModule,
    label: Option<&str>,
    entry: &str,
) -> (r: wgpu::ComputePipeline) {
    device.create_compute_pipeline(&wgpu::ComputePipelineDescriptor {
        label,
        layout: Some(layout),
        module,
        entry_point: Some(entry),
        compilation_options: Default::default(),
        cache: None,
    })
}

/// Relies on wgpu::Device::create_command_encoder.
#[verifier::external_body]
pub(crate) fn w_create_command_encoder(device: &wgpu::Device) -> (r: wgpu::CommandEncoder) {
    device.create_command_encoder(&wgpu::CommandEncoderDescriptor { label: None })
}

/// Relies on wgpu::CommandEncoder::begin_render_pass with
/// wgpu::RenderPass::forget_lifetime: one color attachment on the given
/// view with the given load operation (a clear to transparent where none
/// is given), and an optional depth attachment.
#[verifier::external_body]
pub(crate) fn w_begin_render_pass(
    encoder: &mut wgpu::CommandEncoder,
    view: &wgpu::TextureView,
    load: Option<wgpu::LoadOp<wgpu::Color>>,
    depth: Option<wgpu::RenderPassDepthStencilAttachment>,
) -> (r: wgpu::RenderPass<'static>) {
    encoder.begin_render_pass(&wgpu::RenderPassDescriptor {
        label: None,
        color_attachments: &[Some(wgpu::RenderPassColorAttachment {
            view, depth_slice: None, resolve_target: None,
            ops: wgpu::Operations {
                load: load.unwrap_or(wgpu::LoadOp::Clear(wgpu::Color::TRANSPARENT)),
                store: wgpu::StoreOp::Store,
            },
        })],
        depth_stencil_attachment: depth,
        ..Default::default()
    }).forget_lifetime()
}

/// Relies on wgpu::CommandEncoder::begin_compute_pass with
/// wgpu::ComputePass::forget_lifetime.
#[verifier::external_body]
pub(crate) fn w_begin_compute_pass(encoder: &mut wgpu::CommandEncoder) -> (r: wgpu::ComputePass<
    'static,
>) {
    encoder
        .begin_compute_pass(&wgpu::ComputePassDescriptor { label: None, ..Default::default() })
        .forget_lifetime()
}

/// Relies on wgpu::RenderPass::set_pipeline.
#[verifier::external_body]
pub(crate) fn w_set_pipeline(pass: &mut wgpu::RenderPass<'static>, pipeline: &wgpu::RenderPipeline) {
    pass.set_pipeline(pipeline);
}

/// Relies on wgpu::RenderPass::set_bind_group with no dynamic offsets.
#[verifier::external_body]
pub(crate) fn w_set_bind_group(
    pass: &mut wgpu::RenderPass<'static>,
    index: u32,
    bind_group: &wgpu::BindGroup,
) {
    pass.set_bind_group(index, bind_group, &[]);
}

/// Relies on wgpu::RenderPass::set_vertex_buffer and wgpu::Buffer::slice
/// over the buffer's recorded byte size, which lies within its allocation
/// by construction; the slice must not be empty, or the call would panic.
#[verifier::external_body]
pub(crate) fn w_set_vertex_buffer(
    pass: &mut wgpu::RenderPass<'static>,
    slot: u32,
    buffer: &SizedBuffer,
)
    requires
        buffer.spec_size() > 0,
{
    pass.set_vertex_buffer(slot, buffer.buffer.slice(..buffer.size));
}

/// Relies on wgpu::RenderPass::set_index_buffer and wgpu::Buffer::slice
/// over the buffer's recorded byte size, which lies within its allocation
/// by construction; the slice must not be empty, or the call would panic.
#[verifier::external_body]
pub(crate) fn w_set_index_buffer(
    pass: &mut wgpu::RenderPass<'static>,
    buffer: &SizedBuffer,
    uint32: bool,
)
    requires
        buffer.spec_size() > 0,
{
    let format = if uint32 {
        wgpu::IndexFormat::Uint32
    } else {
        wgpu::IndexFormat::Uint16
    };
    pass.set_index_buffer(buffer.buffer.slice(..buffer.size), format);
}

/// Relies on wgpu::RenderPass::draw_indexed over the given index and
/// instance ranges; an inverted range would underflow in the backend's
/// range arithmetic.
#[verifier::external_body]
pub(crate) fn w_draw_indexed(
    pass: &mut wgpu::RenderPass<'static>,
    index_count: u32,
    base_vertex: i32,
    instance_start: u32,
    instance_end: u32,
)
    requires
        instance_start <= instance_end,
{
    pass.draw_indexed(0..index_count, base_vertex, instance_start..instance_end);
}

/// Relies on wgpu::RenderPass::draw over the given vertex and instance
/// ranges; an inverted range would underflow in the backend's range
/// arithmetic.
#[verifier::external_body]
pub(crate) fn w_draw(
    pass: &mut wgpu::RenderPass<'static>,
    vertex_start: u32,
    vertex_end: u32,
    instance_start: u32,
    instance_end: u32,
)
    requires
        vertex_start <= vertex_end,
        instance_start <= instance_end,
{
    pass.draw(vertex_start..vertex_end, instance_start..instance_end);
}

/// Relies on wgpu::ComputePass::set_pipeline.
#[verifier::external_body]
pub(crate) fn w_cp_set_pipeline(
    pass: &mut wgpu::ComputePass<'static>,
    pipeline: &wgpu::ComputePipeline,
) {
    pass.set_pipeline(pipeline);
}

/// Relies on wgpu::ComputePass::set_bind_group with no dynamic offsets.
#[verifier::external_body]
pub(crate) fn w_cp_set_bind_group(
    pass: &mut wgpu::ComputePass<'static>,
    index: u32,
    bind_group: &wgpu::BindGroup,
) {
    pass.set_bind_group(index, bind_group, &[]);
}

/// Relies on wgpu::ComputePass::dispatch_workgroups.
#[verifier::external_body]
pub(crate) fn w_dispatch_workgroups(pass: &mut wgpu::ComputePass<'static>, x: u32, y: u32, z: u32) {
    pass.dispatch_workgroups(x, y, z);
}

/// Relies on wgpu::CommandEncoder::finish: the recorded command buffer.
#[verifier::external_body]
pub(crate) fn w_finish(encoder: wgpu::CommandEncoder) -> (r: wgpu::CommandBuffer) {
    encoder.finish()
}

/// Relies on wgpu::Queue::submit of one command buffer.
#[verifier::external_body]
pub(crate) fn w_submit(queue: &wgpu::Queue, buffer: wgpu::CommandBuffer) {
    queue.submit(core::iter::once(buffer));
}

/// Relies on bytemuck::cast_slice: sixteen-bit indices laid out as their
/// little-endian bytes (two per index), handed to
/// wgpu::util::DeviceExt::create_buffer_init as an index buffer and paired
/// with their byte length.
#[verifier::external_body]
pub(crate) fn w_create_index_buffer_u16(device: &wgpu::Device, indices: &[u16]) -> (r: SizedBuffer)
    requires
        indices@.len() <= u32::MAX,
    ensures
        r.spec_size() == 2 * indices@.len(),
{
    let contents: &[u8] = bytemuck::cast_slice(indices);
    let buffer = wgpu::util::DeviceExt::create_buffer_init(
        device,
        &wgpu::util::BufferInitDescriptor {
            label: None,
            contents,
            usage: wgpu::BufferUsages::INDEX,
        },
    );
    SizedBuffer { buffer, size: contents.len() as u64 }
}

/// Relies on bytemuck::cast_slice: thirty-two-bit indices laid out as
/// their little-endian bytes (four per index), handed to
/// wgpu::util::DeviceExt::create_buffer_init as an index buffer and paired
/// with their byte length.
#[verifier::external_body]
pub(crate) fn w_create_index_buffer_u32(device: &wgpu::Device, indices: &[u32]) -> (r: SizedBuffer)
    requires
        indices@.len() <= u32::MAX,
    ensures
        r.spec_size() == 4 * indices@.len(),
{
    let contents: &[u8] = bytemuck::cast_slice(indices);
    let buffer = wgpu::util::DeviceExt::create_buffer_init(
        device,
        &wgpu::util::BufferInitDescriptor {
            label: None,
            contents,
            usage: wgpu::BufferUsages::INDEX,
        },
    );
    SizedBuffer { buffer, size: contents.len() as u64 }
}

/// Relies on wgpu::TextureFormat::Bgra8UnormSrgb.
#[verifier::external_body]
pub(crate) fn w_format_bgra8unorm_srgb() -> (r: wgpu::TextureFormat) {
    wgpu::TextureFormat::Bgra8UnormSrgb
}

/// Relies on wgpu::TextureFormat::Rgba8UnormSrgb.
#[verifier::external_body]
pub(crate) fn w_format_rgba8unorm_srgb() -> (r: wgpu::TextureFormat) {
    wgpu::TextureFormat::Rgba8UnormSrgb
}

/// Relies on wgpu::TextureFormat::Rgba16Float.
#[verifier::external_body]
pub(crate) fn w_format_rgba16float() -> (r: wgpu::TextureFormat) {
    wgpu::TextureFormat::Rgba16Float
}

/// Relies on wgpu::TextureFormat::Depth32Float.
#[verifier::external_body]
pub(crate) fn w_format_depth32() -> (r: wgpu::TextureFormat) {
    wgpu::TextureFormat::Depth32Float
}

} // verus!
