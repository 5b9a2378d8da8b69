//! Pipeline layouts and compiled pipelines.
//!
//! A `RawLayout` combines bind-group layouts and a composed vertex-buffer
//! layout into a device pipeline layout, and carries a `LayoutTag`: the full
//! identity of the layout (its bind schemas, its requirements tags and its
//! color format). A pipeline compiled against a layout carries the same tag,
//! which is how a recording session checks that shader, shared data and mesh
//! all belong to one layout.

use vstd::prelude::*;

use crate::bind::BindLayout;
use crate::context::RenderContext;
use crate::gpu;
use crate::gpu::TexFormat;
use crate::schema::BindingEntry;
use crate::vertex::BufferLayout;
use crate::vertex::InstanceRequirements;
use crate::vertex::StepMode;
use crate::vertex::TaggedAttr;
use crate::vertex::VertexAttrMarker;
use crate::vertex::VertexFormat;
use crate::vertex::VertexRequirements;
use crate::vertex::attrs_of;
use crate::vertex::loc_base;
use crate::vertex::markers_of;
use crate::vertex::stride_of;

verus! {

/// The view of a list of binding schemas.
pub open spec fn schemas_view(s: Seq<Vec<BindingEntry>>) -> Seq<Seq<BindingEntry>> {
    s.map_values(|v: Vec<BindingEntry>| v@)
}

/// The identity of a layout: its bind-group schemas in group order, its
/// vertex and instance requirements, and its color target format.
pub struct LayoutTag {
    pub schemas: Vec<Vec<BindingEntry>>,
    pub vreq: VertexRequirements,
    pub ireq: InstanceRequirements,
    pub format: TexFormat,
}

impl View for LayoutTag {
    type V = (Seq<Seq<BindingEntry>>, Seq<(u32, Seq<VertexFormat>)>, Seq<(u32, Seq<VertexFormat>)>, TexFormat);

    open spec fn view(&self) -> (
        Seq<Seq<BindingEntry>>,
        Seq<(u32, Seq<VertexFormat>)>,
        Seq<(u32, Seq<VertexFormat>)>,
        TexFormat,
    ) {
        (schemas_view(self.schemas@), self.vreq@, self.ireq@, self.format)
    }
}

impl LayoutTag {
    /// Whether two tags denote the same layout.
    pub fn matches(&self, other: &LayoutTag) -> (r: bool)
        ensures
            r == (self@ == other@),
    {
        let se = schemas_eq(&self.schemas, &other.schemas);
        let ve = self.vreq.matches(&other.vreq);
        let ie = self.ireq.matches(&other.ireq);
        let fe = format_eq(self.format, other.format);
        if se && ve && ie && fe {
            proof {
                assert(self@ =~= other@);
            }
            true
        } else {
            false
        }
    }

    /// An identical copy of the tag.
    pub fn duplicate(&self) -> (r: LayoutTag)
        ensures
            r@ == self@,
    {
        let r = LayoutTag {
            schemas: copy_schemas(&self.schemas),
            vreq: VertexRequirements { markers: copy_markers(&self.vreq.markers) },
            ireq: InstanceRequirements { markers: copy_markers(&self.ireq.markers) },
            format: self.format,
        };
        proof {
            assert(r@ =~= self@);
        }
        r
    }
}

/// Whether two texture formats are the same.
fn format_eq(a: TexFormat, b: TexFormat) -> (r: bool)
    ensures
        r == (a == b),
{
    match (a, b) {
        (TexFormat::Bgra8UnormSrgb, TexFormat::Bgra8UnormSrgb) => true,
        (TexFormat::Rgba8UnormSrgb, TexFormat::Rgba8UnormSrgb) => true,
        (TexFormat::Rgba16Float, TexFormat::Rgba16Float) => true,
        (TexFormat::Depth32Float, TexFormat::Depth32Float) => true,
        _ => false,
    }
}

/// An identical copy of a list of binding entries.
fn copy_entries(v: &Vec<BindingEntry>) -> (r: Vec<BindingEntry>)
    ensures
        r@ == v@,
{
    let mut r: Vec<BindingEntry> = Vec::new();
    let mut i: usize = 0;
    while i < v.len()
        invariant
            0 <= i <= v@.len(),
            r@ == v@.take(i as int),
        decreases v@.len() - i,
    {
        r.push(v[i]);
        i = i + 1;
        proof {
            assert(r@ =~= v@.take(i as int));
        }
    }
    proof {
        assert(r@ =~= v@);
    }
    r
}

/// An identical copy of a list of binding schemas.
fn copy_schemas(v: &Vec<Vec<BindingEntry>>) -> (r: Vec<Vec<BindingEntry>>)
    ensures
        schemas_view(r@) == schemas_view(v@),
{
    let mut r: Vec<Vec<BindingEntry>> = Vec::new();
    let mut i: usize = 0;
    while i < v.len()
        invariant
            0 <= i <= v@.len(),
            r@.len() == i,
            forall|j: int| 0 <= j < i ==> (#[trigger] r@[j])@ == v@[j]@,
        decreases v@.len() - i,
    {
        r.push(copy_entries(&v[i]));
        i = i + 1;
    }
    proof {
        assert(schemas_view(r@) =~= schemas_view(v@));
    }
    r
}

/// Whether two lists of binding schemas are equal.
fn schemas_eq(a: &Vec<Vec<BindingEntry>>, b: &Vec<Vec<BindingEntry>>) -> (r: bool)
    ensures
        r == (schemas_view(a@) == schemas_view(b@)),
{
    if a.len() != b.len() {
        proof {
            assert(schemas_view(a@).len() != schemas_view(b@).len());
        }
        return false;
    }
    let mut i: usize = 0;
    while i < a.len()
        invariant
            0 <= i <= a@.len(),
            a@.len() == b@.len(),
            forall|j: int| 0 <= j < i ==> (#[trigger] a@[j])@ == b@[j]@,
        decreases a@.len() - i,
    {
        if !entries_eq(&a[i], &b[i]) {
            proof {
                assert(schemas_view(a@)[i as int] != schemas_view(b@)[i as int]);
            }
            return false;
        }
        i = i + 1;
    }
    proof {
        assert(schemas_view(a@) =~= schemas_view(b@));
    }
    true
}

/// Whether two lists of binding entries are equal.
fn entries_eq(a: &Vec<BindingEntry>, b: &Vec<BindingEntry>) -> (r: bool)
    ensures
        r == (a@ == b@),
{
    if a.len() != b.len() {
        proof {
            assert(a@.len() != b@.len());
        }
        return false;
    }
    let mut i: usize = 0;
    while i < a.len()
        invariant
            0 <= i <= a@.len(),
            a@.len() == b@.len(),
            forall|j: int| 0 <= j < i ==> a@[j] == b@[j],
        decreases a@.len() - i,
    {
        if a[i] != b[i] {
            return false;
        }
        i = i + 1;
    }
    proof {
        assert(a@ =~= b@);
    }
    true
}

/// An identical copy of a list of requirement markers.
fn copy_markers(v: &Vec<VertexAttrMarker>) -> (r: Vec<VertexAttrMarker>)
    ensures
        r@.map_values(|m: VertexAttrMarker| m@) == v@.map_values(|m: VertexAttrMarker| m@),
{
    let mut r: Vec<VertexAttrMarker> = Vec::new();
    let mut i: usize = 0;
    while i < v.len()
        invariant
            0 <= i <= v@.len(),
            r@.len() == i,
            forall|j: int| 0 <= j < i ==> (#[trigger] r@[j])@ == v@[j]@,
        decreases v@.len() - i,
    {
        r.push(VertexAttrMarker { slot: v[i].slot, formats: copy_formats(&v[i].formats) });
        i = i + 1;
    }
    proof {
        assert(r@.map_values(|m: VertexAttrMarker| m@) =~= v@.map_values(
            |m: VertexAttrMarker| m@,
        ));
    }
    r
}

/// An identical copy of a format list.
fn copy_formats(v: &Vec<VertexFormat>) -> (r: Vec<VertexFormat>)
    ensures
        r@ == v@,
{
    let mut r: Vec<VertexFormat> = Vec::new();
    let mut i: usize = 0;
    while i < v.len()
        invariant
            0 <= i <= v@.len(),
            r@ == v@.take(i as int),
        decreases v@.len() - i,
    {
        r.push(v[i]);
        i = i + 1;
        proof {
            assert(r@ =~= v@.take(i as int));
        }
    }
    proof {
        assert(r@ =~= v@);
    }
    r
}

/// A primitive topology.
#[derive(Clone, Copy, Debug, PartialEq, Eq, Structural)]
pub enum Topology {
    PointList,
    LineList,
    LineStrip,
    TriangleList,
    TriangleStrip,
}

/// Which faces are culled.
#[derive(Clone, Copy, Debug, PartialEq, Eq, Structural)]
pub enum CullFace {
    Off,
    Front,
    Back,
}

/// A depth comparison function.
#[derive(Clone, Copy, Debug, PartialEq, Eq, Structural)]
pub enum DepthCompare {
    Never,
    Less,
    Equal,
    LessEqual,
    Greater,
    Always,
}

/// The primitive-assembly state of a pipeline.
#[derive(Clone, Copy, Debug, PartialEq, Eq, Structural)]
pub struct PrimitiveConfig {
    pub topology: Topology,
    pub ccw_front_face: bool,
    pub cull: CullFace,
}

/// The depth-test state of a pipeline.
#[derive(Clone, Copy, Debug, PartialEq, Eq, Structural)]
pub struct DepthConfig {
    pub format: TexFormat,
    pub depth_write_enabled: bool,
    pub compare: DepthCompare,
}

/// The multisampling state of a pipeline.
#[derive(Clone, Copy, Debug, PartialEq, Eq, Structural)]
pub struct MultisampleConfig {
    pub count: u32,
    pub alpha_to_coverage: bool,
}

/// The default primitive state: triangle list, counter-clockwise front
/// faces, back faces culled.
pub open spec fn default_primitive() -> PrimitiveConfig {
    PrimitiveConfig { topology: Topology::TriangleList, ccw_front_face: true, cull: CullFace::Back }
}

/// The default depth state: a thirty-two-bit float depth buffer, writes
/// enabled, passing on less-than.
pub open spec fn default_depth() -> Option<DepthConfig> {
    Some(
        DepthConfig {
            format: TexFormat::Depth32Float,
            depth_write_enabled: true,
            compare: DepthCompare::Less,
        },
    )
}

/// The default multisampling state: one sample, no alpha-to-coverage.
pub open spec fn default_multisample() -> MultisampleConfig {
    MultisampleConfig { count: 1, alpha_to_coverage: false }
}

/// What a pipeline compilation may override; each `None` falls back to the
/// documented default: no label, the default fixed-function state, entry
/// points named `vs` and `fs`, and no multiview mask.
pub struct ShaderConfig {
    pub label: Option<String>,
    pub primitive: Option<PrimitiveConfig>,
    pub depth_stencil: Option<Option<DepthConfig>>,
    pub multisample: Option<MultisampleConfig>,
    pub multiview: Option<u32>,
    pub vertex_entry: Option<String>,
    pub fragment_entry: Option<String>,
}

impl Default for ShaderConfig {
    /// Everything left at its default.
    fn default() -> (r: ShaderConfig)
        ensures
            r.label is None,
            r.primitive is None,
            r.depth_stencil is None,
            r.multisample is None,
            r.multiview is None,
            r.vertex_entry is None,
            r.fragment_entry is None,
    {
        ShaderConfig {
            label: None,
            primitive: None,
            depth_stencil: None,
            multisample: None,
            multiview: None,
            vertex_entry: None,
            fragment_entry: None,
        }
    }
}

/// The concrete state a configuration resolves to.
#[derive(Clone, Copy, Debug, PartialEq, Eq, Structural)]
pub struct ResolvedConfig {
    pub primitive: PrimitiveConfig,
    pub depth_stencil: Option<DepthConfig>,
    pub multisample: MultisampleConfig,
}

impl ShaderConfig {
    /// Resolve the overridable fixed-function state: each field the
    /// configuration sets is taken as given, and each it leaves out falls
    /// back to its documented default.
    pub fn resolve(&self) -> (r: ResolvedConfig)
        ensures
            r.primitive == self.primitive.unwrap_or(default_primitive()),
            r.depth_stencil == self.depth_stencil.unwrap_or(default_depth()),
            r.multisample == self.multisample.unwrap_or(default_multisample()),
    {
        ResolvedConfig {
            primitive: match self.primitive {
                Some(p) => p,
                None => PrimitiveConfig {
                    topology: Topology::TriangleList,
                    ccw_front_face: true,
                    cull: CullFace::Back,
                },
            },
            depth_stencil: match self.depth_stencil {
                Some(d) => d,
                None => Some(
                    DepthConfig {
                        format: TexFormat::Depth32Float,
                        depth_write_enabled: true,
                        compare: DepthCompare::Less,
                    },
                ),
            },
            multisample: match self.multisample {
                Some(m) => m,
                None => MultisampleConfig { count: 1, alpha_to_coverage: false },
            },
        }
    }
}

/// The entry-point name a configuration resolves to: the one it sets, or
/// the given default.
pub fn entry_or<'a>(entry: &'a Option<String>, default: &'a str) -> (r: &'a str)
    ensures
        r@ == match entry {
            Some(s) => s@,
            None => default@,
        },
{
    match entry {
        Some(s) => s.as_str(),
        None => default,
    }
}

/// A configuration's optional label as a borrowed string.
pub fn label_of(label: &Option<String>) -> (r: Option<&str>)
    ensures
        match label {
            Some(s) => r matches Some(l) && l@ == s@,
            None => r is None,
        },
{
    match label {
        Some(s) => Some(s.as_str()),
        None => None,
    }
}

/// A device pipeline layout with the identity of the layout it realizes.
/// Immutable after creation and cheaply shared.
pub struct RawLayout {
    pipeline_layout: wgpu::PipelineLayout,
    tag: LayoutTag,
    buffers: Vec<BufferLayout>,
}

impl RawLayout {
    /// The identity of this layout.
    pub closed spec fn spec_tag(&self) -> <LayoutTag as View>::V {
        self.tag@
    }

    /// The composed vertex-buffer layout the pipelines are built with.
    pub closed spec fn spec_buffers(&self) -> Seq<BufferLayout> {
        self.buffers@
    }

    /// Combine bind-group layouts (in group order) and vertex/instance
    /// attribute schemas (in declaration order) into a device pipeline
    /// layout with the given color target format. The vertex-buffer
    /// layouts are composed as `compose_layout` does, and the
    /// requirements tags are derived from the parts' step modes.
    pub fn new(
        render_context: &RenderContext,
        bind_layouts: &Vec<&BindLayout>,
        parts: &Vec<TaggedAttr>,
        format: TexFormat,
    ) -> (r: RawLayout)
        requires
            parts@.len() <= u32::MAX,
            loc_base(parts@, parts@.len() as int) <= u32::MAX,
            forall|k: int|
                0 <= k < parts@.len() ==> stride_of(#[trigger] parts@[k].schema.formats@)
                    <= u64::MAX,
        ensures
            r.spec_tag().0 == bind_layouts@.map_values(|b: &BindLayout| b.spec_schema()),
            r.spec_tag().1 == markers_of(parts@, StepMode::Vertex),
            r.spec_tag().2 == markers_of(parts@, StepMode::Instance),
            r.spec_tag().3 == format,
            r.spec_buffers().len() == parts@.len(),
            forall|k: int|
                0 <= k < parts@.len() ==> {
                    &&& (#[trigger] r.spec_buffers()[k]).array_stride == stride_of(
                        parts@[k].schema.formats@,
                    )
                    &&& r.spec_buffers()[k].step_mode == parts@[k].step
                    &&& r.spec_buffers()[k].attributes@ == attrs_of(
                        parts@[k].schema.formats@,
                        loc_base(parts@, k),
                    )
                },
    {
        let mut wgpu_layouts: Vec<Option<&wgpu::BindGroupLayout>> = Vec::new();
        let mut schemas: Vec<Vec<BindingEntry>> = Vec::new();
        let mut i: usize = 0;
        while i < bind_layouts.len()
            invariant
                0 <= i <= bind_layouts@.len(),
                schemas@.len() == i,
                forall|j: int|
                    0 <= j < i ==> (#[trigger] schemas@[j])@ == bind_layouts@[j].spec_schema(),
            decreases bind_layouts@.len() - i,
        {
            wgpu_layouts.push(Some(bind_layouts[i].wgpu_layout()));
            schemas.push(copy_entries(bind_layouts[i].schema().entries()));
            i = i + 1;
        }
        let pipeline_layout = gpu::w_create_pipeline_layout(render_context.device(), &wgpu_layouts);
        let buffers = crate::vertex::compose_layout(parts);
        let tag = LayoutTag {
            schemas,
            vreq: VertexRequirements::of_layout(parts),
            ireq: InstanceRequirements::of_layout(parts),
            format,
        };
        let r = RawLayout { pipeline_layout, tag, buffers };
        proof {
            assert(r.spec_tag().0 =~= bind_layouts@.map_values(|b: &BindLayout| b.spec_schema()));
        }
        r
    }

    /// The identity of this layout.
    pub fn tag(&self) -> (r: &LayoutTag)
        ensures
            r@ == self.spec_tag(),
    {
        &self.tag
    }

    /// The color target format.
    pub fn format(&self) -> (r: TexFormat)
        ensures
            r == self.spec_tag().3,
    {
        self.tag.format
    }

    /// The composed vertex-buffer layouts.
    pub fn buffers(&self) -> (r: &Vec<BufferLayout>)
        ensures
            r@ == self.spec_buffers(),
    {
        &self.buffers
    }

    /// The underlying device pipeline layout.
    pub fn wgpu_layout(&self) -> (r: &wgpu::PipelineLayout) {
        &self.pipeline_layout
    }

    /// Compile vertex and fragment entry points (named `vs` and `fs`
    /// unless the configuration says otherwise) against this layout, the
    /// composed vertex buffers, one color target of the layout's format,
    /// and the configuration's resolved fixed-function state; the
    /// configuration's label and multiview mask are handed through as
    /// given. The pipeline carries this layout's identity.
    pub fn create_pipeline(
        &self,
        render_context: &RenderContext,
        module: &wgpu::ShaderModule,
        shader_config: &ShaderConfig,
    ) -> (r: ShaderPipeline)
        requires
            shader_config.multiview matches Some(m) ==> m > 0,
        ensures
            r.spec_tag() == self.spec_tag(),
    {
        let resolved = shader_config.resolve();
        let primitive = primitive_to_wgpu(&resolved.primitive);
        let depth_stencil = match resolved.depth_stencil {
            Some(d) => Some(
                gpu::w_depth_stencil(
                    gpu::tex_format_to_wgpu(d.format),
                    d.depth_write_enabled,
                    compare_to_wgpu(d.compare),
                ),
            ),
            None => None,
        };
        let multisample = gpu::w_multisample(
            resolved.multisample.count,
            resolved.multisample.alpha_to_coverage,
        );
        let mut targets: Vec<Option<wgpu::ColorTargetState>> = Vec::new();
        targets.push(Some(gpu::w_color_target(gpu::tex_format_to_wgpu(self.tag.format))));
        let mut attr_arrays: Vec<Vec<wgpu::VertexAttribute>> = Vec::new();
        let mut k: usize = 0;
        while k < self.buffers.len()
            invariant
                0 <= k <= self.buffers@.len(),
                attr_arrays@.len() == k,
            decreases self.buffers@.len() - k,
        {
            let b = &self.buffers[k];
            let mut attrs: Vec<wgpu::VertexAttribute> = Vec::new();
            let mut j: usize = 0;
            while j < b.attributes.len()
                invariant
                    0 <= j <= b.attributes@.len(),
                decreases b.attributes@.len() - j,
            {
                attrs.push(gpu::w_vertex_attr(&b.attributes[j]));
                j = j + 1;
            }
            attr_arrays.push(attrs);
            k = k + 1;
        }
        let mut wgpu_buffers: Vec<Option<wgpu::VertexBufferLayout>> = Vec::new();
        let mut k2: usize = 0;
        while k2 < self.buffers.len()
            invariant
                0 <= k2 <= self.buffers@.len(),
                attr_arrays@.len() == self.buffers@.len(),
            decreases self.buffers@.len() - k2,
        {
            let b = &self.buffers[k2];
            let instance_step = match b.step_mode {
                StepMode::Instance => true,
                StepMode::Vertex => false,
            };
            wgpu_buffers.push(Some(gpu::w_buffer_layout(b.array_stride, instance_step, &attr_arrays[k2])));
            k2 = k2 + 1;
        }
        let pipeline = gpu::w_create_render_pipeline(
            render_context.device(),
            &self.pipeline_layout,
            module,
            label_of(&shader_config.label),
            entry_or(&shader_config.vertex_entry, "vs"),
            entry_or(&shader_config.fragment_entry, "fs"),
            &wgpu_buffers,
            &targets,
            primitive,
            depth_stencil,
            multisample,
            shader_config.multiview,
        );
        ShaderPipeline { pipeline, tag: self.tag.duplicate() }
    }
}

/// The `wgpu` value of a primitive configuration.
fn primitive_to_wgpu(p: &PrimitiveConfig) -> wgpu::PrimitiveState {
    let topology_code: u32 = match p.topology {
        Topology::PointList => 0,
        Topology::LineList => 1,
        Topology::LineStrip => 2,
        Topology::TriangleList => 3,
        Topology::TriangleStrip => 4,
    };
    let (cull_front, cull_back) = match p.cull {
        CullFace::Off => (false, false),
        CullFace::Front => (true, false),
        CullFace::Back => (false, true),
    };
    gpu::w_primitive_state(
        gpu::w_topology(topology_code),
        gpu::w_front_face(p.ccw_front_face),
        gpu::w_cull_mode(cull_front, cull_back),
    )
}

/// The `wgpu` value of a depth comparison.
fn compare_to_wgpu(c: DepthCompare) -> wgpu::CompareFunction {
    let code: u32 = match c {
        DepthCompare::Never => 0,
        DepthCompare::Less => 1,
        DepthCompare::Equal => 2,
        DepthCompare::LessEqual => 3,
        DepthCompare::Greater => 4,
        DepthCompare::Always => 5,
    };
    gpu::w_compare(code)
}

/// A compiled render pipeline carrying the identity of the layout it was
/// built against.
pub struct ShaderPipeline {
    pipeline: wgpu::RenderPipeline,
    tag: LayoutTag,
}

impl ShaderPipeline {
    /// The identity of the layout the pipeline was compiled against.
    pub closed spec fn spec_tag(&self) -> <LayoutTag as View>::V {
        self.tag@
    }

    /// The identity of the layout the pipeline was compiled against.
    pub fn tag(&self) -> (r: &LayoutTag)
        ensures
            r@ == self.spec_tag(),
    {
        &self.tag
    }

    /// The underlying device pipeline.
    pub fn get_pipeline(&self) -> (r: &wgpu::RenderPipeline) {
        &self.pipeline
    }
}

/// A device pipeline layout for compute work, with the schemas of the
/// bind-group layouts it was built over.
pub struct RawComputeLayout {
    pipeline_layout: wgpu::PipelineLayout,
    schemas: Vec<Vec<BindingEntry>>,
}

impl RawComputeLayout {
    /// The bind-group schemas, in group order.
    pub closed spec fn spec_schemas(&self) -> Seq<Seq<BindingEntry>> {
        schemas_view(self.schemas@)
    }

    /// Combine bind-group layouts, in group order, into a device pipeline
    /// layout for compute pipelines.
    pub fn new(render_context: &RenderContext, bind_layouts: &Vec<&BindLayout>) -> (r:
        RawComputeLayout)
        ensures
            r.spec_schemas() == bind_layouts@.map_values(|b: &BindLayout| b.spec_schema()),
    {
        let mut wgpu_layouts: Vec<Option<&wgpu::BindGroupLayout>> = Vec::new();
        let mut schemas: Vec<Vec<BindingEntry>> = Vec::new();
        let mut i: usize = 0;
        while i < bind_layouts.len()
            invariant
                0 <= i <= bind_layouts@.len(),
                schemas@.len() == i,
                forall|j: int|
                    0 <= j < i ==> (#[trigger] schemas@[j])@ == bind_layouts@[j].spec_schema(),
            decreases bind_layouts@.len() - i,
        {
            wgpu_layouts.push(Some(bind_layouts[i].wgpu_layout()));
            schemas.push(copy_entries(bind_layouts[i].schema().entries()));
            i = i + 1;
        }
        let pipeline_layout = gpu::w_create_pipeline_layout(render_context.device(), &wgpu_layouts);
        let r = RawComputeLayout { pipeline_layout, schemas };
        proof {
            assert(r.spec_schemas() =~= bind_layouts@.map_values(|b: &BindLayout| b.spec_schema()));
        }
        r
    }

    /// The underlying device pipeline layout.
    pub fn wgpu_layout(&self) -> (r: &wgpu::PipelineLayout) {
        &self.pipeline_layout
    }

    /// An identical copy of the bind-group schemas, in group order.
    pub fn schemas_copy(&self) -> (r: Vec<Vec<BindingEntry>>)
        ensures
            schemas_view(r@) == self.spec_schemas(),
    {
        copy_schemas(&self.schemas)
    }

    /// Compile the compute entry point (named `cs` unless the
    /// configuration says otherwise) against this layout. The pipeline
    /// carries this layout's schemas.
    pub fn create_compute_pipeline(
        &self,
        render_context: &RenderContext,
        module: &wgpu::ShaderModule,
        config: &ComputeShaderConfig,
    ) -> (r: ComputeShaderPipeline)
        ensures
            r.spec_schemas() == self.spec_schemas(),
    {
        let pipeline = gpu::w_create_compute_pipeline(
            render_context.device(),
            &self.pipeline_layout,
            module,
            label_of(&config.label),
            entry_or(&config.entry, "cs"),
        );
        ComputeShaderPipeline { pipeline, schemas: copy_schemas(&self.schemas) }
    }
}

/// What a compute pipeline compilation may override: the debug label and
/// the entry-point name, `cs` by default.
pub struct ComputeShaderConfig {
    pub label: Option<String>,
    pub entry: Option<String>,
}

impl Default for ComputeShaderConfig {
    /// Everything left at its default.
    fn default() -> (r: ComputeShaderConfig)
        ensures
            r.label is None,
            r.entry is None,
    {
        ComputeShaderConfig { label: None, entry: None }
    }
}

/// A compiled compute pipeline carrying the schemas of the layout it was
/// built against.
pub struct ComputeShaderPipeline {
    pipeline: wgpu::ComputePipeline,
    schemas: Vec<Vec<BindingEntry>>,
}

impl ComputeShaderPipeline {
    /// The bind-group schemas of the layout the pipeline was compiled
    /// against.
    pub closed spec fn spec_schemas(&self) -> Seq<Seq<BindingEntry>> {
        schemas_view(self.schemas@)
    }

    /// The underlying device pipeline.
    pub fn get_pipeline(&self) -> (r: &wgpu::ComputePipeline) {
        &self.pipeline
    }
}

} // verus!
