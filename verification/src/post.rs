//! Post-processing binds, the high-dynamic-range offscreen target, and a
//! mesh paired with its shader.

use vstd::prelude::*;

use crate::bind::Bind;
use crate::bind::BindLayout;
use crate::bind::BindResource;
use crate::context::RenderContext;
use crate::gpu::TexFormat;
use crate::mesh::SimpleMesh;
use crate::pipeline::ShaderPipeline;
use crate::schema::BindingEntry;
use crate::schema::BindingKind;
use crate::schema::BindingSchema;
use crate::schema::Stages;
use crate::session::Cmd;
use crate::session::PassRecord;
use crate::session::RenderSession;
use crate::session::bind_buffer_cmds;
use crate::texture::Extent;
use crate::texture::RawTexture;
use crate::texture::SampledTexture;
use crate::texture::TexDim;
use crate::texture::SamplerKind;
use crate::texture::TexSampler;
use crate::texture::TexUsage;
use crate::texture::TextureConfig;

verus! {

/// The post-processing binding table: the rendered texture at slot zero
/// and its sampler at slot one, both visible to the fragment stage.
pub open spec fn post_proc_schema() -> Seq<BindingEntry> {
    seq![
        BindingEntry {
            slot: 0u32,
            visibility: Stages { vertex: false, fragment: true, compute: false },
            kind: BindingKind::Texture,
            count: None,
        },
        BindingEntry {
            slot: 1u32,
            visibility: Stages { vertex: false, fragment: true, compute: false },
            kind: BindingKind::Sampler,
            count: None,
        },
    ]
}

/// Build the post-processing binding table.
fn post_proc_entries() -> (r: Vec<BindingEntry>)
    ensures
        r@ == post_proc_schema(),
{
    let mut entries: Vec<BindingEntry> = Vec::new();
    entries.push(
        BindingEntry {
            slot: 0,
            visibility: Stages::fragment_only(),
            kind: BindingKind::Texture,
            count: None,
        },
    );
    entries.push(
        BindingEntry {
            slot: 1,
            visibility: Stages::fragment_only(),
            kind: BindingKind::Sampler,
            count: None,
        },
    );
    proof {
        assert(entries@ =~= post_proc_schema());
    }
    entries
}

/// A render target bound for reading: a texture at slot zero and its
/// sampler at slot one, realized as one bind group.
pub struct PostProc {
    bind: Bind,
}

impl PostProc {
    /// A bind over the post-processing schema, with a two-dimensional,
    /// single-mip, single-sample texture at the first entry and a sampler
    /// at the second.
    pub open spec fn wf(&self) -> bool {
        &&& crate::schema::slots_unique(self.spec_bind().spec_schema())
        &&& crate::bind::resources_match(
            self.spec_bind().spec_schema(),
            self.spec_bind().spec_resources(),
        )
        &&& self.spec_bind().spec_schema() == post_proc_schema()
        &&& self.spec_bind().spec_resources().len() == 2
        &&& self.spec_bind().spec_resources()[0] is Texture
        &&& self.spec_bind().spec_resources()[0]->Texture_0.wf()
        &&& self.spec_bind().spec_resources()[0]->Texture_0.spec_dim() == TexDim::D2
        &&& self.spec_bind().spec_resources()[0]->Texture_0.spec_mip_level_count() == 1
        &&& self.spec_bind().spec_resources()[0]->Texture_0.spec_sample_count() == 1
        &&& self.spec_bind().spec_resources()[1] is Sampler
    }

    /// Whether the realized bind group reflects the current resources:
    /// true after construction and after a refresh, false between a
    /// texture resize and the refresh that follows it.
    pub open spec fn synced(&self) -> bool {
        self.spec_bind().spec_bound() == crate::bind::spec_bound_of(
            self.spec_bind().spec_schema(),
            self.spec_bind().spec_resources(),
        )
    }

    /// The underlying bind.
    pub closed spec fn spec_bind(&self) -> Bind {
        self.bind
    }

    /// The render texture's current generation.
    pub open spec fn spec_texture_generation(&self) -> u64 {
        self.spec_bind().spec_resources()[0]->Texture_0.spec_generation()
    }

    /// The render texture's current extent.
    pub open spec fn spec_texture_extent(&self) -> Extent {
        self.spec_bind().spec_resources()[0]->Texture_0.spec_extent()
    }

    /// Create a render target of the given non-empty size, usable as a
    /// render attachment and for sampling besides the extra usage bits
    /// asked for, bound together with a default sampler.
    pub fn new(render_context: &RenderContext, usage: TexUsage, width: u32, height: u32) -> (r:
        PostProc)
        requires
            width >= 1,
            height >= 1,
        ensures
            r.wf(),
            r.synced(),
            r.spec_texture_extent() == (Extent { width, height, depth_or_array_layers: 1u32 }),
            r.spec_texture_generation() == 0,
            r.spec_bind().spec_resources()[0]->Texture_0.spec_usage() == (TexUsage {
                render_attachment: true,
                texture_binding: true,
                storage_binding: usage.storage_binding,
                copy_dst: usage.copy_dst,
                copy_src: usage.copy_src,
            }),
            r.spec_bind().spec_resources()[1]->Sampler_0.spec_kind() == SamplerKind::Default,
    {
        let merged = TexUsage {
            render_attachment: true,
            texture_binding: true,
            storage_binding: usage.storage_binding,
            copy_dst: usage.copy_dst,
            copy_src: usage.copy_src,
        };
        let cfg = TextureConfig {
            mip_level_count: None,
            sample_count: None,
            format: None,
            usages: Some(merged),
        };
        proof {
            crate::texture::lemma_max_mip_count_at_least_one(
                TexDim::D2,
                Extent { width, height, depth_or_array_layers: 1u32 },
            );
        }
        let texture = RawTexture::new(
            render_context,
            TexDim::D2,
            Extent { width, height, depth_or_array_layers: 1 },
            &cfg,
        );
        let sampler = TexSampler::new_default(render_context);
        PostProc::new_with(render_context, SampledTexture { texture, sampler })
    }

    /// Bind an existing texture and its sampler as a post-processing
    /// input; the texture keeps its extent and generation. The texture
    /// must fill the float-filterable two-dimensional slot: non-depth,
    /// two-dimensional, one mip, one sample — and valid, so the target can
    /// later be resized.
    pub fn new_with(render_context: &RenderContext, texture: SampledTexture) -> (r: PostProc)
        requires
            texture.texture.spec_format() != crate::gpu::TexFormat::Depth32Float,
            texture.texture.wf(),
            texture.texture.spec_dim() == TexDim::D2,
            texture.texture.spec_mip_level_count() == 1,
            texture.texture.spec_sample_count() == 1,
        ensures
            r.wf(),
            r.synced(),
            r.spec_bind().spec_resources()[0] == BindResource::Texture(texture.texture),
            r.spec_bind().spec_resources()[1] == BindResource::Sampler(texture.sampler),
            r.spec_texture_extent() == texture.texture.spec_extent(),
            r.spec_texture_generation() == texture.texture.spec_generation(),
    {
        let entries = post_proc_entries();
        let schema = match BindingSchema::new(entries) {
            Ok(s) => s,
            Err(_) => {
                proof {
                    assert(false);
                }
                unreached()
            },
        };
        let layout = BindLayout::new(render_context, schema);
        let mut resources: Vec<BindResource> = Vec::new();
        resources.push(BindResource::Texture(texture.texture));
        resources.push(BindResource::Sampler(texture.sampler));
        let bind = match Bind::new(render_context, layout, resources) {
            Ok(b) => b,
            Err(_) => {
                proof {
                    assert(false);
                }
                unreached()
            },
        };
        PostProc { bind }
    }

    /// The underlying bind.
    pub fn bind(&self) -> (r: &Bind)
        ensures
            *r == self.spec_bind(),
    {
        &self.bind
    }

    /// The render texture.
    pub fn raw_texture(&self) -> (r: &RawTexture)
        requires
            self.wf(),
        ensures
            *r == self.spec_bind().spec_resources()[0]->Texture_0,
    {
        self.bind.texture_at(0)
    }

    /// The sampler the texture is read through.
    pub fn sampler(&self) -> (r: &TexSampler)
        requires
            self.wf(),
        ensures
            *r == self.spec_bind().spec_resources()[1]->Sampler_0,
    {
        self.bind.sampler_at(1)
    }

    /// Resize the render texture. Its generation advances and the realized
    /// bind group is stale until `refresh` is called.
    pub fn resize(&mut self, render_context: &RenderContext, width: u32, height: u32)
        requires
            old(self).wf(),
            old(self).spec_texture_generation() < u64::MAX,
            width >= 1,
            height >= 1,
        ensures
            final(self).wf(),
            final(self).spec_texture_extent() == (Extent {
                width,
                height,
                depth_or_array_layers: 1u32,
            }),
            final(self).spec_texture_generation() == old(self).spec_texture_generation() + 1,
            final(self).spec_bind().spec_bound() == old(self).spec_bind().spec_bound(),
            final(self).spec_bind().spec_resources()[0]->Texture_0.spec_format() == old(
                self,
            ).spec_bind().spec_resources()[0]->Texture_0.spec_format(),
            final(self).spec_bind().spec_resources()[1] == old(self).spec_bind().spec_resources()[
                1
            ],
    {
        proof {
            crate::texture::lemma_max_mip_count_at_least_one(
                TexDim::D2,
                Extent { width, height, depth_or_array_layers: 1u32 },
            );
        }
        self.bind.resize_texture(
            render_context,
            0,
            Extent { width, height, depth_or_array_layers: 1 },
        );
        proof {
            assert(self.spec_bind().spec_resources()[1] == old(
                self,
            ).spec_bind().spec_resources()[1]);
        }
    }

    /// Rebuild the bind group from the current texture and sampler; after
    /// a resize, the new view is bound in the old slot and the schema is
    /// untouched.
    pub fn refresh(&mut self, render_context: &RenderContext)
        requires
            old(self).wf(),
        ensures
            final(self).wf(),
            final(self).synced(),
            final(self).spec_bind().spec_schema() == old(self).spec_bind().spec_schema(),
            final(self).spec_bind().spec_resources() == old(self).spec_bind().spec_resources(),
            final(self).spec_bind().spec_bound() == crate::bind::spec_bound_of(
                old(self).spec_bind().spec_schema(),
                old(self).spec_bind().spec_resources(),
            ),
            old(self).synced() ==> final(self).spec_bind().spec_bound() == old(
                self,
            ).spec_bind().spec_bound(),
    {
        self.bind.refresh(render_context);
    }
}

/// A two-dimensional offscreen render target in a sixteen-bit float
/// format, bound for reading by a post-processing pass.
pub struct Hdr {
    post_proc: PostProc,
}

impl Hdr {
    /// The wrapped post-processing bind is well-formed and its texture is
    /// the sixteen-bit float offscreen format.
    pub open spec fn wf(&self) -> bool {
        &&& self.spec_post_proc().wf()
        &&& self.spec_post_proc().spec_bind().spec_resources()[0]->Texture_0.spec_format()
            == TexFormat::Rgba16Float
    }

    /// The wrapped post-processing bind.
    pub closed spec fn spec_post_proc(&self) -> PostProc {
        self.post_proc
    }

    /// Create the offscreen target: a sixteen-bit float texture of the
    /// given size, usable as a render attachment and for sampling, read
    /// through a nearest-filtering sampler.
    pub fn new(render_context: &RenderContext, width: u32, height: u32) -> (r: Hdr)
        requires
            width >= 1,
            height >= 1,
        ensures
            r.wf(),
            r.spec_post_proc().synced(),
            r.spec_post_proc().spec_texture_extent() == (Extent {
                width,
                height,
                depth_or_array_layers: 1u32,
            }),
            r.spec_post_proc().spec_bind().spec_resources()[0]->Texture_0.spec_usage()
                == TexUsage::spec_attachment_binding(),
            r.spec_post_proc().spec_bind().spec_resources()[1]->Sampler_0.spec_kind()
                == SamplerKind::Nearest,
    {
        let cfg = TextureConfig {
            mip_level_count: None,
            sample_count: None,
            format: Some(TexFormat::Rgba16Float),
            usages: Some(TexUsage::attachment_binding()),
        };
        proof {
            crate::texture::lemma_max_mip_count_at_least_one(
                TexDim::D2,
                Extent { width, height, depth_or_array_layers: 1u32 },
            );
        }
        let texture = RawTexture::new(
            render_context,
            TexDim::D2,
            Extent { width, height, depth_or_array_layers: 1 },
            &cfg,
        );
        let sampler = TexSampler::new_nearest(render_context);
        Hdr {
            post_proc: PostProc::new_with(
                render_context,
                SampledTexture { texture, sampler },
            ),
        }
    }

    /// The wrapped post-processing bind.
    pub fn post_proc(&self) -> (r: &PostProc)
        ensures
            *r == self.spec_post_proc(),
    {
        &self.post_proc
    }

    /// The offscreen render texture.
    pub fn texture(&self) -> (r: &RawTexture)
        requires
            self.wf(),
        ensures
            *r == self.spec_post_proc().spec_bind().spec_resources()[0]->Texture_0,
    {
        self.post_proc.raw_texture()
    }

    /// Resize the offscreen texture; the bind is stale until refreshed.
    pub fn resize(&mut self, render_context: &RenderContext, width: u32, height: u32)
        requires
            old(self).wf(),
            old(self).spec_post_proc().spec_texture_generation() < u64::MAX,
            width >= 1,
            height >= 1,
        ensures
            final(self).wf(),
            final(self).spec_post_proc().spec_texture_extent() == (Extent {
                width,
                height,
                depth_or_array_layers: 1u32,
            }),
    {
        self.post_proc.resize(render_context, width, height);
    }
}

impl crate::session::FrameEncoder {
    /// Begin a render pass onto the offscreen target's current view with
    /// the given load operation, with an optional depth attachment.
    pub fn hdr_render_pass(
        &mut self,
        hdr: &Hdr,
        load: Option<wgpu::LoadOp<wgpu::Color>>,
        depth_stencil_attachment: Option<wgpu::RenderPassDepthStencilAttachment>,
    ) -> (r: RenderSession)
        requires
            hdr.wf(),
        ensures
            final(self).spec_log() == old(self).spec_log(),
            r.wf(),
            r.spec_stage() is Empty,
            r.spec_tag() is None,
            r.spec_log() == Seq::<Cmd>::empty(),
    {
        self.render_pass(hdr.texture().view(), load, depth_stencil_attachment)
    }
}

/// A mesh paired with the shader it is drawn with; drawing it applies the
/// shader and issues the mesh's one indexed draw.
pub struct ShadedMesh {
    mesh: SimpleMesh,
    shader: ShaderPipeline,
}

impl ShadedMesh {
    /// The mesh's tag equals the shader's layout's vertex requirement, so
    /// the pair can always be drawn together.
    pub open spec fn wf(&self) -> bool {
        &&& self.spec_mesh().wf()
        &&& self.spec_mesh().spec_req() == self.spec_shader().spec_tag().1
    }

    /// The mesh of the pair.
    pub closed spec fn spec_mesh(&self) -> SimpleMesh {
        self.mesh
    }

    /// The shader of the pair.
    pub closed spec fn spec_shader(&self) -> ShaderPipeline {
        self.shader
    }

    /// Pair a mesh with a shader; the mesh must satisfy the vertex
    /// requirement of the shader's layout.
    pub fn new(mesh: SimpleMesh, shader: ShaderPipeline) -> (r: ShadedMesh)
        requires
            mesh.wf(),
            mesh.spec_req() == shader.spec_tag().1,
        ensures
            r.wf(),
            r.spec_mesh() == mesh,
            r.spec_shader() == shader,
    {
        ShadedMesh { mesh, shader }
    }

    /// The mesh of the pair.
    pub fn mesh(&self) -> (r: &SimpleMesh)
        ensures
            *r == self.spec_mesh(),
    {
        &self.mesh
    }

    /// The shader of the pair.
    pub fn shader(&self) -> (r: &ShaderPipeline)
        ensures
            *r == self.spec_shader(),
    {
        &self.shader
    }

    /// Apply the pair's shader with its default settings and draw its
    /// mesh: the session must hold the shader's layout, and the recording
    /// ends with the mesh's one indexed draw.
    pub fn draw(&self, session: RenderSession) -> (r: PassRecord)
        requires
            self.wf(),
            session.wf(),
            session.spec_stage() is LayoutBound,
            session.spec_tag() == Some(self.spec_shader().spec_tag()),
        ensures
            r.wf(),
            r.spec_log() == session.spec_log().push(Cmd::SetPipeline) + bind_buffer_cmds(
                self.spec_mesh().spec_req(),
            ).push(Cmd::SetIndexBuffer { uint32: self.spec_mesh().spec_uint32() }).push(
                Cmd::DrawIndexed {
                    index_count: self.spec_mesh().spec_index_count(),
                    base_vertex: 0,
                    instance_start: 0,
                    instance_end: 1,
                },
            ),
    {
        session.apply_shader_with_default(&self.shader).draw_mesh(&self.mesh)
    }
}

} // verus!
