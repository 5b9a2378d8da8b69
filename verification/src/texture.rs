//! Texture, texture-view and sampler wrappers.
//!
//! A `RawTexture` owns a device texture together with its view and remembers
//! everything the library decided about it: extent, format, dimension, usage
//! and a generation counter. Resizing destroys and recreates the underlying
//! device texture and view — the generation counter advances, which is how a
//! `Bind` holding the old view can be seen to be stale until it is
//! refreshed.

use vstd::prelude::*;

use crate::context::RenderContext;
use crate::gpu;
use crate::gpu::TexFormat;

verus! {

/// The dimension of a texture.
#[derive(Clone, Copy, Debug, PartialEq, Eq, Structural)]
pub enum TexDim {
    D1,
    D2,
    D3,
}

/// A marker type for each texture dimension.
pub trait TexDimension {
    /// The dimension the marker stands for.
    spec fn spec_dimension() -> TexDim;

    /// The dimension the marker stands for.
    fn dimension() -> (r: TexDim)
        ensures
            r == Self::spec_dimension(),
    ;
}

/// One-dimensional textures.
#[derive(Clone, Copy, Debug, Default, PartialEq, Eq, Structural)]
pub struct Texture1D;

/// Two-dimensional textures.
#[derive(Clone, Copy, Debug, Default, PartialEq, Eq, Structural)]
pub struct Texture2D;

/// Three-dimensional textures.
#[derive(Clone, Copy, Debug, Default, PartialEq, Eq, Structural)]
pub struct Texture3D;

impl TexDimension for Texture1D {
    open spec fn spec_dimension() -> TexDim {
        TexDim::D1
    }

    fn dimension() -> (r: TexDim) {
        TexDim::D1
    }
}

impl TexDimension for Texture2D {
    open spec fn spec_dimension() -> TexDim {
        TexDim::D2
    }

    fn dimension() -> (r: TexDim) {
        TexDim::D2
    }
}

impl TexDimension for Texture3D {
    open spec fn spec_dimension() -> TexDim {
        TexDim::D3
    }

    fn dimension() -> (r: TexDim) {
        TexDim::D3
    }
}

/// The usage bits a texture is created with.
#[derive(Clone, Copy, Debug, PartialEq, Eq, Structural)]
pub struct TexUsage {
    pub render_attachment: bool,
    pub texture_binding: bool,
    pub storage_binding: bool,
    pub copy_dst: bool,
    pub copy_src: bool,
}

impl TexUsage {
    /// The default usage: a bindable texture the queue may copy into.
    pub fn binding_copy_dst() -> (r: TexUsage)
        ensures
            r == TexUsage::spec_binding_copy_dst(),
    {
        TexUsage {
            render_attachment: false,
            texture_binding: true,
            storage_binding: false,
            copy_dst: true,
            copy_src: false,
        }
    }

    /// The default usage as a spec value.
    pub open spec fn spec_binding_copy_dst() -> TexUsage {
        TexUsage {
            render_attachment: false,
            texture_binding: true,
            storage_binding: false,
            copy_dst: true,
            copy_src: false,
        }
    }

    /// A render target that shaders may also sample.
    pub fn attachment_binding() -> (r: TexUsage)
        ensures
            r == TexUsage::spec_attachment_binding(),
    {
        TexUsage {
            render_attachment: true,
            texture_binding: true,
            storage_binding: false,
            copy_dst: false,
            copy_src: false,
        }
    }

    /// A sampleable render target as a spec value.
    pub open spec fn spec_attachment_binding() -> TexUsage {
        TexUsage {
            render_attachment: true,
            texture_binding: true,
            storage_binding: false,
            copy_dst: false,
            copy_src: false,
        }
    }

    /// Whether at least one usage bit is set; the device refuses a texture
    /// with none.
    pub open spec fn spec_any(&self) -> bool {
        self.render_attachment || self.texture_binding || self.storage_binding || self.copy_dst
            || self.copy_src
    }
}

/// The floor of the base-two logarithm (zero below two).
pub open spec fn floor_log2(n: int) -> int
    decreases n,
{
    if n <= 1 {
        0
    } else {
        1 + floor_log2(n / 2)
    }
}

/// The floor logarithm is never negative.
pub proof fn lemma_floor_log2_nonneg(n: int)
    ensures
        floor_log2(n) >= 0,
    decreases n,
{
    if n > 1 {
        lemma_floor_log2_nonneg(n / 2);
    }
}

/// The mip levels a texture of the given dimension and extent may have:
/// one for a one-dimensional texture, otherwise one more than the floor
/// logarithm of the largest relevant dimension, capped at the driver
/// layer's sixteen.
pub open spec fn max_mip_count(dim: TexDim, size: Extent) -> int {
    if dim is D1 {
        1
    } else {
        let a = if size.width >= size.height {
            size.width as int
        } else {
            size.height as int
        };
        let max_dim = if dim is D3 && size.depth_or_array_layers > a {
            size.depth_or_array_layers as int
        } else {
            a
        };
        let levels = floor_log2(max_dim) + 1;
        if levels <= 16 {
            levels
        } else {
            16
        }
    }
}

/// A non-empty extent allows at least one mip level.
pub proof fn lemma_max_mip_count_at_least_one(dim: TexDim, size: Extent)
    requires
        size.width >= 1,
        size.height >= 1,
        size.depth_or_array_layers >= 1,
    ensures
        max_mip_count(dim, size) >= 1,
{
    if !(dim is D1) {
        let a = if size.width >= size.height {
            size.width as int
        } else {
            size.height as int
        };
        let max_dim = if dim is D3 && size.depth_or_array_layers > a {
            size.depth_or_array_layers as int
        } else {
            a
        };
        lemma_floor_log2_nonneg(max_dim);
    }
}

/// The byte size of one texel of a format.
pub open spec fn texel_bytes(f: TexFormat) -> int {
    match f {
        TexFormat::Bgra8UnormSrgb => 4,
        TexFormat::Rgba8UnormSrgb => 4,
        TexFormat::Rgba16Float => 8,
        TexFormat::Depth32Float => 4,
    }
}

/// The device-independent validity conditions of a texture description:
/// no zero extent, at least one usage bit, a mip count the extent allows,
/// depth and render-attachment textures two-dimensional (the latter also
/// three-dimensional), one-dimensional textures flat and single-sampled,
/// and a sample count of one or the guaranteed four — a multisampled
/// texture with one mip, one layer and a renderable, non-storage usage.
pub open spec fn texture_desc_valid(
    dim: TexDim,
    size: Extent,
    format: TexFormat,
    usage: TexUsage,
    mip_level_count: u32,
    sample_count: u32,
) -> bool {
    &&& size.width >= 1 && size.height >= 1 && size.depth_or_array_layers >= 1
    &&& usage.spec_any()
    &&& 1 <= mip_level_count <= max_mip_count(dim, size)
    &&& (format == TexFormat::Depth32Float ==> dim is D2)
    &&& (usage.render_attachment ==> dim is D2 || dim is D3)
    &&& (dim is D1 ==> size.height == 1 && size.depth_or_array_layers == 1 && sample_count == 1)
    &&& (dim is D3 ==> sample_count == 1)
    &&& (sample_count == 1 || sample_count == 4)
    &&& (sample_count != 1 ==> mip_level_count == 1 && size.depth_or_array_layers == 1
        && usage.render_attachment && !usage.storage_binding && dim is D2)
}

/// The extent of a texture.
#[derive(Clone, Copy, Debug, PartialEq, Eq, Structural)]
pub struct Extent {
    pub width: u32,
    pub height: u32,
    pub depth_or_array_layers: u32,
}

/// What a texture constructor may override; each `None` falls back to the
/// documented default.
#[derive(Clone, Copy, Debug, PartialEq, Eq, Structural)]
pub struct TextureConfig {
    pub mip_level_count: Option<u32>,
    pub sample_count: Option<u32>,
    pub format: Option<TexFormat>,
    pub usages: Option<TexUsage>,
}

impl Default for TextureConfig {
    /// Everything left at its default.
    fn default() -> (r: TextureConfig)
        ensures
            r == (TextureConfig {
                mip_level_count: None,
                sample_count: None,
                format: None,
                usages: None,
            }),
    {
        TextureConfig { mip_level_count: None, sample_count: None, format: None, usages: None }
    }
}

/// A device texture with its view and everything that was decided about it.
pub struct RawTexture {
    texture: wgpu::Texture,
    view: wgpu::TextureView,
    extent: Extent,
    dim: TexDim,
    format: TexFormat,
    usage: TexUsage,
    mip_level_count: u32,
    sample_count: u32,
    generation: u64,
}

impl RawTexture {
    /// The current extent.
    pub closed spec fn spec_extent(&self) -> Extent {
        self.extent
    }

    /// The dimension, fixed at creation.
    pub closed spec fn spec_dim(&self) -> TexDim {
        self.dim
    }

    /// The format, fixed at creation.
    pub closed spec fn spec_format(&self) -> TexFormat {
        self.format
    }

    /// The usage bits, fixed at creation.
    pub closed spec fn spec_usage(&self) -> TexUsage {
        self.usage
    }

    /// How many times the underlying device texture and view have been
    /// recreated: each resize advances it, so two equal generations of one
    /// texture denote the same underlying view.
    pub closed spec fn spec_generation(&self) -> u64 {
        self.generation
    }

    /// The mip level count, fixed at creation.
    pub closed spec fn spec_mip_level_count(&self) -> u32 {
        self.mip_level_count
    }

    /// The sample count, fixed at creation.
    pub closed spec fn spec_sample_count(&self) -> u32 {
        self.sample_count
    }

    /// The texture's description is valid for the device, at its current
    /// extent; constructors establish it and a resize preserves it.
    pub open spec fn wf(&self) -> bool {
        texture_desc_valid(
            self.spec_dim(),
            self.spec_extent(),
            self.spec_format(),
            self.spec_usage(),
            self.spec_mip_level_count(),
            self.spec_sample_count(),
        )
    }

    /// Create a texture of the given extent; the format defaults to
    /// `Bgra8UnormSrgb`, the usage to binding plus copy destination, and
    /// the mip and sample counts to one. The resolved description must be
    /// one the device accepts.
    pub fn new(render_context: &RenderContext, dim: TexDim, size: Extent, cfg: &TextureConfig) -> (r:
        RawTexture)
        requires
            texture_desc_valid(
                dim,
                size,
                cfg.format.unwrap_or(TexFormat::Bgra8UnormSrgb),
                cfg.usages.unwrap_or(TexUsage::spec_binding_copy_dst()),
                cfg.mip_level_count.unwrap_or(1u32),
                cfg.sample_count.unwrap_or(1u32),
            ),
        ensures
            r.spec_extent() == size,
            r.spec_dim() == dim,
            r.spec_format() == cfg.format.unwrap_or(TexFormat::Bgra8UnormSrgb),
            r.spec_usage() == cfg.usages.unwrap_or(TexUsage::spec_binding_copy_dst()),
            r.spec_mip_level_count() == cfg.mip_level_count.unwrap_or(1u32),
            r.spec_sample_count() == cfg.sample_count.unwrap_or(1u32),
            r.spec_generation() == 0,
            r.wf(),
    {
        let format = match cfg.format {
            Some(f) => f,
            None => TexFormat::Bgra8UnormSrgb,
        };
        let usage = match cfg.usages {
            Some(u) => u,
            None => TexUsage::binding_copy_dst(),
        };
        let mip_level_count = match cfg.mip_level_count {
            Some(m) => m,
            None => 1,
        };
        let sample_count = match cfg.sample_count {
            Some(s) => s,
            None => 1,
        };
        let (texture, view) = create_texture_and_view(
            render_context,
            dim,
            size,
            format,
            usage,
            mip_level_count,
            sample_count,
        );
        RawTexture {
            texture,
            view,
            extent: size,
            dim,
            format,
            usage,
            mip_level_count,
            sample_count,
            generation: 0,
        }
    }

    /// Create a texture and immediately fill it from the given bytes, as
    /// `new` followed by `write_data` over the whole extent.
    pub fn from_data(
        render_context: &RenderContext,
        dim: TexDim,
        data: &[u8],
        size: Extent,
        bytes_per_pixel: Option<u8>,
        cfg: &TextureConfig,
    ) -> (r: RawTexture)
        requires
            texture_desc_valid(
                dim,
                size,
                cfg.format.unwrap_or(TexFormat::Bgra8UnormSrgb),
                cfg.usages.unwrap_or(TexUsage::spec_binding_copy_dst()),
                cfg.mip_level_count.unwrap_or(1u32),
                cfg.sample_count.unwrap_or(1u32),
            ),
            cfg.usages.unwrap_or(TexUsage::spec_binding_copy_dst()).copy_dst,
            cfg.format.unwrap_or(TexFormat::Bgra8UnormSrgb) != TexFormat::Depth32Float,
            (match bytes_per_pixel {
                Some(b) => b as int,
                None => 4,
            }) == texel_bytes(cfg.format.unwrap_or(TexFormat::Bgra8UnormSrgb)),
            (match bytes_per_pixel {
                Some(b) => b as int,
                None => 4,
            }) * size.width <= u32::MAX,
            data@.len() >= (match bytes_per_pixel {
                Some(b) => b as int,
                None => 4,
            }) * size.width * size.height * size.depth_or_array_layers,
        ensures
            r.spec_extent() == size,
            r.spec_dim() == dim,
            r.spec_format() == cfg.format.unwrap_or(TexFormat::Bgra8UnormSrgb),
            r.spec_usage() == cfg.usages.unwrap_or(TexUsage::spec_binding_copy_dst()),
            r.spec_mip_level_count() == cfg.mip_level_count.unwrap_or(1u32),
            r.spec_sample_count() == cfg.sample_count.unwrap_or(1u32),
            r.spec_generation() == 0,
            r.wf(),
    {
        let texture = RawTexture::new(render_context, dim, size, cfg);
        texture.write_data(render_context, data, size, bytes_per_pixel);
        texture
    }

    /// Schedule the bytes to be written into the texture's first mip
    /// level, `bytes_per_pixel` (four where none is given) bytes per
    /// texel. The byte count per texel must be the format's, the region
    /// must lie within the texture, which must be a writable (copy
    /// destination, non-depth) target, and the data must cover the region.
    pub fn write_data(
        &self,
        render_context: &RenderContext,
        data: &[u8],
        size: Extent,
        bytes_per_pixel: Option<u8>,
    )
        requires
            self.spec_usage().copy_dst,
            self.spec_format() != TexFormat::Depth32Float,
            size.width <= self.spec_extent().width,
            size.height <= self.spec_extent().height,
            size.depth_or_array_layers <= self.spec_extent().depth_or_array_layers,
            (match bytes_per_pixel {
                Some(b) => b as int,
                None => 4,
            }) == texel_bytes(self.spec_format()),
            (match bytes_per_pixel {
                Some(b) => b as int,
                None => 4,
            }) * size.width <= u32::MAX,
            data@.len() >= (match bytes_per_pixel {
                Some(b) => b as int,
                None => 4,
            }) * size.width * size.height * size.depth_or_array_layers,
    {
        let bpp: u32 = match bytes_per_pixel {
            Some(b) => b as u32,
            None => 4,
        };
        gpu::w_write_texture(
            render_context.queue(),
            &self.texture,
            data,
            size.width,
            size.height,
            size.depth_or_array_layers,
            bpp * size.width,
        );
    }

    /// Destroy and recreate the underlying device texture and view at a new
    /// extent. Format, dimension, usage, mip and sample counts stay as
    /// created; the generation advances, so any bind group built from the
    /// old view is stale until its `Bind` is refreshed. The new extent
    /// must be one the unchanged description stays valid at.
    pub fn resize(&mut self, render_context: &RenderContext, size: Extent)
        requires
            old(self).wf(),
            old(self).spec_generation() < u64::MAX,
            size.width >= 1 && size.height >= 1 && size.depth_or_array_layers >= 1,
            old(self).spec_mip_level_count() <= max_mip_count(old(self).spec_dim(), size),
            old(self).spec_dim() is D1 ==> size.height == 1 && size.depth_or_array_layers == 1,
            old(self).spec_sample_count() != 1 ==> size.depth_or_array_layers == 1,
        ensures
            final(self).spec_extent() == size,
            final(self).spec_dim() == old(self).spec_dim(),
            final(self).spec_format() == old(self).spec_format(),
            final(self).spec_usage() == old(self).spec_usage(),
            final(self).spec_mip_level_count() == old(self).spec_mip_level_count(),
            final(self).spec_sample_count() == old(self).spec_sample_count(),
            final(self).spec_generation() == old(self).spec_generation() + 1,
            final(self).wf(),
    {
        let (texture, view) = create_texture_and_view(
            render_context,
            self.dim,
            size,
            self.format,
            self.usage,
            self.mip_level_count,
            self.sample_count,
        );
        self.texture = texture;
        self.view = view;
        self.extent = size;
        self.generation = self.generation + 1;
    }

    /// The current extent.
    pub fn extent(&self) -> (r: Extent)
        ensures
            r == self.spec_extent(),
    {
        self.extent
    }

    /// The current generation.
    pub fn generation(&self) -> (r: u64)
        ensures
            r == self.spec_generation(),
    {
        self.generation
    }

    /// The mip level count the texture was created with.
    pub fn mip_level_count(&self) -> (r: u32)
        ensures
            r == self.spec_mip_level_count(),
    {
        self.mip_level_count
    }

    /// The sample count the texture was created with.
    pub fn sample_count(&self) -> (r: u32)
        ensures
            r == self.spec_sample_count(),
    {
        self.sample_count
    }

    /// The format the texture was created with.
    pub fn format(&self) -> (r: TexFormat)
        ensures
            r == self.spec_format(),
    {
        self.format
    }

    /// The underlying device texture.
    pub fn inner(&self) -> (r: &wgpu::Texture) {
        &self.texture
    }

    /// The underlying device texture view of the current generation.
    pub fn view(&self) -> (r: &wgpu::TextureView) {
        &self.view
    }
}

/// Create the device texture of the given valid shape together with its
/// view.
fn create_texture_and_view(
    render_context: &RenderContext,
    dim: TexDim,
    size: Extent,
    format: TexFormat,
    usage: TexUsage,
    mip_level_count: u32,
    sample_count: u32,
) -> (r: (wgpu::Texture, wgpu::TextureView))
    requires
        texture_desc_valid(dim, size, format, usage, mip_level_count, sample_count),
{
    let (d1, d3) = match dim {
        TexDim::D1 => (true, false),
        TexDim::D2 => (false, false),
        TexDim::D3 => (false, true),
    };
    let texture = gpu::w_create_texture(
        render_context.device(),
        dim,
        size.width,
        size.height,
        size.depth_or_array_layers,
        mip_level_count,
        sample_count,
        format,
        usage,
    );
    let view = gpu::w_create_view(
        &texture,
        gpu::w_view_dimension(d1, d3),
        gpu::tex_format_to_wgpu(format),
        gpu::w_texture_usages(
            usage.render_attachment,
            usage.texture_binding,
            usage.storage_binding,
            usage.copy_dst,
            usage.copy_src,
        ),
        mip_level_count,
    );
    (texture, view)
}

/// The settings a sampler was created with.
#[derive(Clone, Copy, Debug, PartialEq, Eq, Structural)]
pub enum SamplerKind {
    /// The device's default settings.
    Default,
    /// Nearest magnification filtering, the rest default.
    Nearest,
    /// Edge-clamped, linear-filtered, less-or-equal depth comparison.
    DepthCompare,
}

/// A sampler handle that remembers which settings it was created with.
pub struct TexSampler {
    sampler: wgpu::Sampler,
    kind: SamplerKind,
}

impl TexSampler {
    /// The settings the sampler was created with.
    pub closed spec fn spec_kind(&self) -> SamplerKind {
        self.kind
    }

    /// The settings the sampler was created with.
    pub fn kind(&self) -> (r: SamplerKind)
        ensures
            r == self.spec_kind(),
    {
        self.kind
    }

    /// A sampler with the device's default settings.
    pub fn new_default(render_context: &RenderContext) -> (r: TexSampler)
        ensures
            r.spec_kind() == SamplerKind::Default,
    {
        TexSampler {
            sampler: gpu::w_create_sampler_default(render_context.device()),
            kind: SamplerKind::Default,
        }
    }

    /// A sampler with nearest magnification filtering.
    pub fn new_nearest(render_context: &RenderContext) -> (r: TexSampler)
        ensures
            r.spec_kind() == SamplerKind::Nearest,
    {
        TexSampler {
            sampler: gpu::w_create_sampler_nearest(render_context.device()),
            kind: SamplerKind::Nearest,
        }
    }

    /// A depth-comparison sampler.
    pub fn new_depth(render_context: &RenderContext) -> (r: TexSampler)
        ensures
            r.spec_kind() == SamplerKind::DepthCompare,
    {
        TexSampler {
            sampler: gpu::w_create_sampler_depth(render_context.device()),
            kind: SamplerKind::DepthCompare,
        }
    }

    /// The underlying device sampler.
    pub fn inner(&self) -> (r: &wgpu::Sampler) {
        &self.sampler
    }
}

/// A texture paired with the sampler it is read through.
pub struct SampledTexture {
    pub texture: RawTexture,
    pub sampler: TexSampler,
}

impl SampledTexture {
    /// Pair a texture with a sampler.
    pub fn new(texture: RawTexture, sampler: TexSampler) -> (r: SampledTexture)
        ensures
            r.texture.spec_extent() == texture.spec_extent(),
            r.texture.spec_format() == texture.spec_format(),
            r.texture.spec_generation() == texture.spec_generation(),
    {
        SampledTexture { texture, sampler }
    }

    /// A two-dimensional depth texture of the given size (at least one
    /// texel each way), usable as a render attachment and for sampling,
    /// with a depth-comparison sampler.
    pub fn create_depth_texture(render_context: &RenderContext, width: u32, height: u32) -> (r:
        SampledTexture)
        ensures
            r.texture.spec_format() == TexFormat::Depth32Float,
            r.texture.spec_extent().width == if width >= 1 {
                width
            } else {
                1u32
            },
            r.texture.spec_extent().height == if height >= 1 {
                height
            } else {
                1u32
            },
            r.texture.spec_usage() == TexUsage::spec_attachment_binding(),
            r.texture.spec_mip_level_count() == 1,
            r.texture.spec_sample_count() == 1,
            r.texture.wf(),
            r.sampler.spec_kind() == SamplerKind::DepthCompare,
    {
        let w: u32 = if width >= 1 {
            width
        } else {
            1
        };
        let h: u32 = if height >= 1 {
            height
        } else {
            1
        };
        let cfg = TextureConfig {
            mip_level_count: None,
            sample_count: None,
            format: Some(TexFormat::Depth32Float),
            usages: Some(TexUsage::attachment_binding()),
        };
        proof {
            lemma_max_mip_count_at_least_one(
                TexDim::D2,
                Extent { width: w, height: h, depth_or_array_layers: 1u32 },
            );
        }
        let texture = RawTexture::new(
            render_context,
            TexDim::D2,
            Extent { width: w, height: h, depth_or_array_layers: 1 },
            &cfg,
        );
        let sampler = TexSampler::new_depth(render_context);
        SampledTexture { texture, sampler }
    }
}

} // verus!
