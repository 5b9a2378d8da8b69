//! Frame encoding and the command-recording session.
//!
//! A `RenderSession` exclusively owns one device render-pass recording and
//! threads it through ordered states: shared data is bound first, then a
//! pipeline whose layout identity equals the bound one, then settings, then
//! optionally per-instance data, and only then a draw — each transition
//! consumes the previous session value, so an out-of-order operation is not
//! expressible against the contracts. Alongside the device recording the
//! session keeps a log of the commands it issued, and the terminal draws
//! hand that log back, so what a session recorded can be stated and checked
//! exactly.

use vstd::prelude::*;

use crate::bind::Bind;
use crate::context::RenderContext;
use crate::gpu;
use crate::mesh::SimpleInstances;
use crate::mesh::SimpleMesh;
use crate::pipeline::ComputeShaderPipeline;
use crate::pipeline::LayoutTag;
use crate::pipeline::RawComputeLayout;
use crate::pipeline::RawLayout;
use crate::pipeline::ShaderPipeline;
use crate::schema::BindingEntry;
use crate::texture::RawTexture;
use crate::vertex::VertexFormat;

verus! {

/// One recorded pass command.
#[derive(Clone, Copy, Debug, PartialEq, Eq, Structural)]
pub enum Cmd {
    SetBindGroup { index: u32 },
    SetPipeline,
    SetVertexBuffer { slot: u32 },
    SetIndexBuffer { uint32: bool },
    DrawIndexed { index_count: u32, base_vertex: i32, instance_start: u32, instance_end: u32 },
    Draw { vertex_start: u32, vertex_end: u32, instance_start: u32, instance_end: u32 },
    DispatchWorkgroups { x: u32, y: u32, z: u32 },
    CopyTexture { width: u32, height: u32 },
}

/// Whether some pipeline has been set in the sequence.
pub open spec fn has_pipeline(log: Seq<Cmd>) -> bool {
    exists|j: int| 0 <= j < log.len() && (#[trigger] log[j]) is SetPipeline
}

/// Whether a command draws or dispatches work.
pub open spec fn is_work(c: Cmd) -> bool {
    c is DrawIndexed || c is Draw || c is DispatchWorkgroups
}

/// In a recorded command sequence, every draw and every dispatch comes
/// after some pipeline was set.
pub open spec fn draws_follow_pipeline(log: Seq<Cmd>) -> bool {
    forall|i: int|
        0 <= i < log.len() && is_work(#[trigger] log[i]) ==> exists|j: int|
            0 <= j < i && (#[trigger] log[j]) is SetPipeline
}

/// Appending a command that neither draws nor dispatches keeps every draw
/// behind a pipeline.
proof fn lemma_push_nondraw(log: Seq<Cmd>, c: Cmd)
    requires
        draws_follow_pipeline(log),
        !is_work(c),
    ensures
        draws_follow_pipeline(log.push(c)),
{
    assert forall|i: int|
        0 <= i < log.push(c).len() && is_work(#[trigger] log.push(c)[i]) implies exists|j: int|
        0 <= j < i && (#[trigger] log.push(c)[j]) is SetPipeline by {
        assert(log.push(c)[i] == log[i]);
        let j = choose|j: int| 0 <= j < i && (#[trigger] log[j]) is SetPipeline;
        assert(log.push(c)[j] is SetPipeline);
    }
}

/// Appending anything keeps an already-set pipeline set.
proof fn lemma_push_keeps_pipeline(log: Seq<Cmd>, c: Cmd)
    requires
        has_pipeline(log),
    ensures
        has_pipeline(log.push(c)),
{
    let j = choose|j: int| 0 <= j < log.len() && (#[trigger] log[j]) is SetPipeline;
    assert(log.push(c)[j] is SetPipeline);
}

/// Appending any command to a sequence with a pipeline already set keeps
/// every draw behind a pipeline.
proof fn lemma_push_draw(log: Seq<Cmd>, c: Cmd)
    requires
        draws_follow_pipeline(log),
        has_pipeline(log),
    ensures
        draws_follow_pipeline(log.push(c)),
{
    assert forall|i: int|
        0 <= i < log.push(c).len() && is_work(#[trigger] log.push(c)[i]) implies exists|j: int|
        0 <= j < i && (#[trigger] log.push(c)[j]) is SetPipeline by {
        if i < log.len() {
            assert(log.push(c)[i] == log[i]);
            let j = choose|j: int| 0 <= j < i && (#[trigger] log[j]) is SetPipeline;
            assert(log.push(c)[j] is SetPipeline);
        } else {
            let j = choose|j: int| 0 <= j < log.len() && (#[trigger] log[j]) is SetPipeline;
            assert(log.push(c)[j] is SetPipeline);
        }
    }
}

/// Appending a pipeline command sets the pipeline.
proof fn lemma_push_pipeline(log: Seq<Cmd>)
    ensures
        has_pipeline(log.push(Cmd::SetPipeline)),
{
    assert(log.push(Cmd::SetPipeline)[log.len() as int] is SetPipeline);
}

/// The commands that bind the buffers of a requirements tag, one per
/// entry, in tag order.
pub open spec fn bind_buffer_cmds(req: Seq<(u32, Seq<VertexFormat>)>) -> Seq<Cmd> {
    Seq::new(req.len(), |i: int| Cmd::SetVertexBuffer { slot: req[i].0 })
}

/// The logical state of a recording session.
#[derive(Clone, Copy, Debug, PartialEq, Eq, Structural)]
pub enum Stage {
    Empty,
    LayoutBound,
    ShaderBound,
    SettingsApplied,
    InstancesBound,
}

/// What a finished recording hands back: the commands it issued, in order.
pub struct PassRecord {
    commands: Vec<Cmd>,
}

impl PassRecord {
    /// The recorded commands, in order.
    pub closed spec fn spec_log(&self) -> Seq<Cmd> {
        self.commands@
    }

    /// Every recorded draw came after a pipeline was set.
    pub open spec fn wf(&self) -> bool {
        draws_follow_pipeline(self.spec_log())
    }

    /// The recorded commands, in order.
    pub fn commands(&self) -> (r: &Vec<Cmd>)
        ensures
            r@ == self.spec_log(),
    {
        &self.commands
    }
}

/// In a well-formed record, no draw or dispatch stands before the first
/// pipeline: work can only have been recorded after a shader was applied.
pub proof fn lemma_record_draws_follow_pipeline(record: PassRecord, i: int)
    requires
        record.wf(),
        0 <= i < record.spec_log().len(),
        is_work(record.spec_log()[i]),
    ensures
        exists|j: int| 0 <= j < i && (#[trigger] record.spec_log()[j]) is SetPipeline,
{
}

/// One render-pass recording, exclusively owned, threaded through ordered
/// states.
pub struct RenderSession {
    pass: wgpu::RenderPass<'static>,
    stage: Stage,
    tag: Option<LayoutTag>,
    instances: u32,
    log: Vec<Cmd>,
}

impl RenderSession {
    /// The session's logical state.
    pub closed spec fn spec_stage(&self) -> Stage {
        self.stage
    }

    /// The identity of the layout whose shared data is bound, once one is.
    pub closed spec fn spec_tag(&self) -> Option<<LayoutTag as View>::V> {
        match self.tag {
            Some(t) => Some(t@),
            None => None,
        }
    }

    /// The instance count bound by `set_instance_requirements`.
    pub closed spec fn spec_instances(&self) -> u32 {
        self.instances
    }

    /// The commands issued so far, in order.
    pub closed spec fn spec_log(&self) -> Seq<Cmd> {
        self.log@
    }

    /// A layout is known in every state but `Empty`; from `ShaderBound` on
    /// a pipeline has been set; and the log never holds a draw that no
    /// pipeline preceded.
    pub open spec fn wf(&self) -> bool {
        &&& (self.spec_stage() is Empty <==> self.spec_tag() is None)
        &&& (self.spec_stage() is ShaderBound || self.spec_stage() is SettingsApplied
            || self.spec_stage() is InstancesBound) ==> has_pipeline(self.spec_log())
        &&& draws_follow_pipeline(self.spec_log())
    }

    /// The session's logical state.
    pub fn stage(&self) -> (r: Stage)
        ensures
            r == self.spec_stage(),
    {
        self.stage
    }

    /// The identity of the bound layout, once one is bound.
    pub fn current_tag(&self) -> (r: Option<&LayoutTag>)
        ensures
            match r {
                Some(t) => self.spec_tag() == Some(t@),
                None => self.spec_tag() is None,
            },
    {
        match &self.tag {
            Some(t) => Some(t),
            None => None,
        }
    }

    /// The commands issued so far, in order.
    pub fn log(&self) -> (r: &Vec<Cmd>)
        ensures
            r@ == self.spec_log(),
    {
        &self.log
    }

    /// Bind a layout's shared data at bind-group index zero. The bind must
    /// have been built against the layout's first bind-group schema. The
    /// session re-enters the layout-bound state whatever it held before:
    /// this is also the explicit escape hatch that discards a previous
    /// tag.
    pub fn set_shared_data(self, layout: &RawLayout, shared: &Bind) -> (r: RenderSession)
        requires
            self.wf(),
            layout.spec_tag().0.len() > 0,
            shared.spec_schema() == layout.spec_tag().0[0],
        ensures
            r.wf(),
            r.spec_stage() is LayoutBound,
            r.spec_tag() == Some(layout.spec_tag()),
            r.spec_log() == self.spec_log().push(Cmd::SetBindGroup { index: 0 }),
    {
        let ghost orig_log = self.spec_log();
        let RenderSession { mut pass, stage: _, tag: _, instances, mut log } = self;
        gpu::w_set_bind_group(&mut pass, 0, shared.bind_group());
        log.push(Cmd::SetBindGroup { index: 0 });
        proof {
            lemma_push_nondraw(orig_log, Cmd::SetBindGroup { index: 0 });
        }
        RenderSession {
            pass,
            stage: Stage::LayoutBound,
            tag: Some(layout.tag().duplicate()),
            instances,
            log,
        }
    }

    /// Discard the layout tag and re-enter the empty state, keeping the
    /// recording; the escape hatch for callers that manage ordering
    /// themselves.
    pub fn wipe(self) -> (r: RenderSession)
        requires
            self.wf(),
        ensures
            r.wf(),
            r.spec_stage() is Empty,
            r.spec_tag() is None,
            r.spec_log() == self.spec_log(),
    {
        let RenderSession { pass, stage: _, tag: _, instances, log } = self;
        RenderSession { pass, stage: Stage::Empty, tag: None, instances, log }
    }

    /// Set the pipeline of a shader compiled against the bound layout: its
    /// layout identity must equal the one whose shared data is bound.
    pub fn apply_shader(self, shader: &ShaderPipeline) -> (r: RenderSession)
        requires
            self.wf(),
            self.spec_stage() is LayoutBound,
            self.spec_tag() == Some(shader.spec_tag()),
        ensures
            r.wf(),
            r.spec_stage() is ShaderBound,
            r.spec_tag() == self.spec_tag(),
            r.spec_log() == self.spec_log().push(Cmd::SetPipeline),
    {
        let ghost orig_log = self.spec_log();
        let RenderSession { mut pass, stage: _, tag, instances, mut log } = self;
        gpu::w_set_pipeline(&mut pass, shader.get_pipeline());
        log.push(Cmd::SetPipeline);
        proof {
            lemma_push_nondraw(orig_log, Cmd::SetPipeline);
            lemma_push_pipeline(orig_log);
        }
        RenderSession { pass, stage: Stage::ShaderBound, tag, instances, log }
    }

    /// Apply the active shader's settings. The settings of a plain shader
    /// are empty, so nothing is recorded; the state still advances, which
    /// is what licenses a draw.
    pub fn apply_settings(self) -> (r: RenderSession)
        requires
            self.wf(),
            self.spec_stage() is ShaderBound,
        ensures
            r.wf(),
            r.spec_stage() is SettingsApplied,
            r.spec_tag() == self.spec_tag(),
            r.spec_log() == self.spec_log(),
    {
        let RenderSession { pass, stage: _, tag, instances, log } = self;
        RenderSession { pass, stage: Stage::SettingsApplied, tag, instances, log }
    }

    /// Set a shader's pipeline and apply its default settings in one step.
    pub fn apply_shader_with_default(self, shader: &ShaderPipeline) -> (r: RenderSession)
        requires
            self.wf(),
            self.spec_stage() is LayoutBound,
            self.spec_tag() == Some(shader.spec_tag()),
        ensures
            r.wf(),
            r.spec_stage() is SettingsApplied,
            r.spec_tag() == self.spec_tag(),
            r.spec_log() == self.spec_log().push(Cmd::SetPipeline),
    {
        self.apply_shader(shader).apply_settings()
    }

    /// Bind per-instance data matching the layout's instance requirement:
    /// one vertex buffer per tag entry, at its declared slot, in order.
    /// The instance count becomes the draw's instance range.
    pub fn set_instance_requirements(self, instances: &SimpleInstances) -> (r: RenderSession)
        requires
            self.wf(),
            self.spec_stage() is SettingsApplied,
            self.spec_tag() matches Some(t) && instances.spec_req() == t.2,
            instances.wf(),
        ensures
            r.wf(),
            r.spec_stage() is InstancesBound,
            r.spec_tag() == self.spec_tag(),
            r.spec_instances() == instances.spec_count(),
            r.spec_log() == self.spec_log() + bind_buffer_cmds(instances.spec_req()),
    {
        let ghost orig_log = self.spec_log();
        let RenderSession { mut pass, stage: _, tag, instances: _, mut log } = self;
        let n = instances.req().markers.len();
        let mut i: usize = 0;
        while i < n
            invariant
                n == instances.spec_req().len(),
                instances.wf(),
                0 <= i <= n,
                log@ == orig_log + bind_buffer_cmds(instances.spec_req()).take(i as int),
                draws_follow_pipeline(log@),
                has_pipeline(log@),
            decreases n - i,
        {
            let ghost lpre = log@;
            gpu::w_set_vertex_buffer(&mut pass, instances.slot(i), instances.buffer(i));
            log.push(Cmd::SetVertexBuffer { slot: instances.slot(i) });
            proof {
                lemma_push_nondraw(lpre, Cmd::SetVertexBuffer { slot: instances.spec_req()[i as int].0 });
                lemma_push_keeps_pipeline(lpre, Cmd::SetVertexBuffer { slot: instances.spec_req()[i as int].0 });
            }
            i = i + 1;
            proof {
                assert(log@ =~= orig_log + bind_buffer_cmds(instances.spec_req()).take(i as int));
            }
        }
        proof {
            assert(log@ =~= orig_log + bind_buffer_cmds(instances.spec_req()));
        }
        RenderSession {
            pass,
            stage: Stage::InstancesBound,
            tag,
            instances: instances.count(),
            log,
        }
    }

    /// Draw a mesh whose vertex requirements equal the bound layout's:
    /// binds the mesh's vertex buffers at their declared slots, in tag
    /// order, then its index buffer, and issues exactly one indexed draw
    /// over all of the mesh's indices, base vertex zero, one instance.
    /// Consumes the session: the recording ends here.
    pub fn draw_mesh(self, mesh: &SimpleMesh) -> (r: PassRecord)
        requires
            self.wf(),
            self.spec_stage() is SettingsApplied,
            self.spec_tag() matches Some(t) && mesh.spec_req() == t.1,
            mesh.wf(),
        ensures
            r.wf(),
            r.spec_log() == self.spec_log() + bind_buffer_cmds(mesh.spec_req()).push(
                Cmd::SetIndexBuffer { uint32: mesh.spec_uint32() },
            ).push(
                Cmd::DrawIndexed {
                    index_count: mesh.spec_index_count(),
                    base_vertex: 0,
                    instance_start: 0,
                    instance_end: 1,
                },
            ),
    {
        self.draw_mesh_range(mesh, 0, 1)
    }

    /// Draw a mesh once per bound instance: as `draw_mesh`, with the
    /// instance range covering exactly the instances that were bound.
    pub fn draw_mesh_instanced(self, mesh: &SimpleMesh) -> (r: PassRecord)
        requires
            self.wf(),
            self.spec_stage() is InstancesBound,
            self.spec_tag() matches Some(t) && mesh.spec_req() == t.1,
            mesh.wf(),
        ensures
            r.wf(),
            r.spec_log() == self.spec_log() + bind_buffer_cmds(mesh.spec_req()).push(
                Cmd::SetIndexBuffer { uint32: mesh.spec_uint32() },
            ).push(
                Cmd::DrawIndexed {
                    index_count: mesh.spec_index_count(),
                    base_vertex: 0,
                    instance_start: 0,
                    instance_end: self.spec_instances(),
                },
            ),
    {
        let end = self.instances;
        self.draw_mesh_range(mesh, 0, end)
    }

    /// Bind a mesh's buffers and issue one indexed draw over the given
    /// instance range.
    fn draw_mesh_range(self, mesh: &SimpleMesh, instance_start: u32, instance_end: u32) -> (r:
        PassRecord)
        requires
            self.wf(),
            self.spec_stage() is SettingsApplied || self.spec_stage() is InstancesBound,
            mesh.wf(),
            instance_start <= instance_end,
        ensures
            r.wf(),
            r.spec_log() == self.spec_log() + bind_buffer_cmds(mesh.spec_req()).push(
                Cmd::SetIndexBuffer { uint32: mesh.spec_uint32() },
            ).push(
                Cmd::DrawIndexed {
                    index_count: mesh.spec_index_count(),
                    base_vertex: 0,
                    instance_start,
                    instance_end,
                },
            ),
    {
        let ghost orig_log = self.spec_log();
        let RenderSession { mut pass, stage: _, tag: _, instances: _, mut log } = self;
        let n = mesh.req().markers.len();
        let mut i: usize = 0;
        while i < n
            invariant
                n == mesh.spec_req().len(),
                mesh.wf(),
                0 <= i <= n,
                log@ == orig_log + bind_buffer_cmds(mesh.spec_req()).take(i as int),
                draws_follow_pipeline(log@),
                has_pipeline(log@),
            decreases n - i,
        {
            let ghost lpre = log@;
            gpu::w_set_vertex_buffer(&mut pass, mesh.slot(i), mesh.vertex_buffer(i));
            log.push(Cmd::SetVertexBuffer { slot: mesh.slot(i) });
            proof {
                lemma_push_nondraw(lpre, Cmd::SetVertexBuffer { slot: mesh.spec_req()[i as int].0 });
                lemma_push_keeps_pipeline(lpre, Cmd::SetVertexBuffer { slot: mesh.spec_req()[i as int].0 });
            }
            i = i + 1;
            proof {
                assert(log@ =~= orig_log + bind_buffer_cmds(mesh.spec_req()).take(i as int));
            }
        }
        let ghost l1 = log@;
        gpu::w_set_index_buffer(&mut pass, mesh.index_buffer(), mesh.is_uint32());
        log.push(Cmd::SetIndexBuffer { uint32: mesh.is_uint32() });
        proof {
            lemma_push_nondraw(l1, Cmd::SetIndexBuffer { uint32: mesh.spec_uint32() });
            lemma_push_keeps_pipeline(l1, Cmd::SetIndexBuffer { uint32: mesh.spec_uint32() });
        }
        let ghost l2 = log@;
        gpu::w_draw_indexed(&mut pass, mesh.index_count(), 0, instance_start, instance_end);
        log.push(
            Cmd::DrawIndexed {
                index_count: mesh.index_count(),
                base_vertex: 0,
                instance_start,
                instance_end,
            },
        );
        proof {
            lemma_push_draw(
                l2,
                Cmd::DrawIndexed {
                    index_count: mesh.spec_index_count(),
                    base_vertex: 0,
                    instance_start,
                    instance_end,
                },
            );
        }
        let r = PassRecord { commands: log };
        proof {
            assert(r.spec_log() =~= orig_log + bind_buffer_cmds(mesh.spec_req()).push(
                Cmd::SetIndexBuffer { uint32: mesh.spec_uint32() },
            ).push(
                Cmd::DrawIndexed {
                    index_count: mesh.spec_index_count(),
                    base_vertex: 0,
                    instance_start,
                    instance_end,
                },
            ));
        }
        r
    }

    /// Issue the full-screen-triangle draw: three vertices, one instance,
    /// no vertex buffer. Only a layout that requires no vertex input may
    /// record it, and only once a shader is bound — the device rejects a
    /// draw with no pipeline set, so the loosest orderings the type-level
    /// escape hatches once admitted are not offered here. Consumes the
    /// session: the recording ends here.
    pub fn draw_screen_quad(self) -> (r: PassRecord)
        requires
            self.wf(),
            self.spec_stage() is ShaderBound || self.spec_stage() is SettingsApplied,
            self.spec_tag() matches Some(t) && t.1.len() == 0,
        ensures
            r.wf(),
            r.spec_log() == self.spec_log().push(
                Cmd::Draw { vertex_start: 0, vertex_end: 3, instance_start: 0, instance_end: 1 },
            ),
    {
        let ghost orig_log = self.spec_log();
        let RenderSession { mut pass, stage: _, tag: _, instances: _, mut log } = self;
        gpu::w_draw(&mut pass, 0, 3, 0, 1);
        log.push(Cmd::Draw { vertex_start: 0, vertex_end: 3, instance_start: 0, instance_end: 1 });
        proof {
            lemma_push_draw(
                orig_log,
                Cmd::Draw { vertex_start: 0, vertex_end: 3, instance_start: 0, instance_end: 1 },
            );
        }
        PassRecord { commands: log }
    }
}

/// One compute-pass recording, mirroring the render session's shape with
/// an apply-compute-shader and dispatch in place of shader and draw.
pub struct ComputeSession {
    pass: wgpu::ComputePass<'static>,
    stage: Stage,
    schemas: Vec<Vec<BindingEntry>>,
    log: Vec<Cmd>,
}

impl ComputeSession {
    /// The session's logical state.
    pub closed spec fn spec_stage(&self) -> Stage {
        self.stage
    }

    /// The bind-group schemas of the bound layout.
    pub closed spec fn spec_schemas(&self) -> Seq<Seq<BindingEntry>> {
        crate::pipeline::schemas_view(self.schemas@)
    }

    /// The commands issued so far, in order.
    pub closed spec fn spec_log(&self) -> Seq<Cmd> {
        self.log@
    }

    /// From `ShaderBound` on a pipeline has been set, and the log never
    /// holds a dispatch that no pipeline preceded.
    pub open spec fn wf(&self) -> bool {
        &&& self.spec_stage() is Empty || self.spec_stage() is LayoutBound || self.spec_stage()
            is ShaderBound
        &&& self.spec_stage() is ShaderBound ==> has_pipeline(self.spec_log())
        &&& draws_follow_pipeline(self.spec_log())
    }

    /// The commands issued so far, in order.
    pub fn log(&self) -> (r: &Vec<Cmd>)
        ensures
            r@ == self.spec_log(),
    {
        &self.log
    }

    /// The session's logical state.
    pub fn stage(&self) -> (r: Stage)
        ensures
            r == self.spec_stage(),
    {
        self.stage
    }

    /// Discard the layout and re-enter the empty state, keeping the
    /// recording.
    pub fn wipe(self) -> (r: ComputeSession)
        requires
            self.wf(),
        ensures
            r.wf(),
            r.spec_stage() is Empty,
            r.spec_log() == self.spec_log(),
    {
        let ComputeSession { pass, stage: _, schemas: _, log } = self;
        ComputeSession { pass, stage: Stage::Empty, schemas: Vec::new(), log }
    }

    /// Bind a compute layout's shared data at bind-group index zero; the
    /// bind must match the layout's first bind-group schema.
    pub fn set_shared_data(self, layout: &RawComputeLayout, shared: &Bind) -> (r: ComputeSession)
        requires
            self.wf(),
            layout.spec_schemas().len() > 0,
            shared.spec_schema() == layout.spec_schemas()[0],
        ensures
            r.wf(),
            r.spec_stage() is LayoutBound,
            r.spec_schemas() == layout.spec_schemas(),
            r.spec_log() == self.spec_log().push(Cmd::SetBindGroup { index: 0 }),
    {
        let ghost orig_log = self.spec_log();
        let ComputeSession { mut pass, stage: _, schemas: _, mut log } = self;
        gpu::w_cp_set_bind_group(&mut pass, 0, shared.bind_group());
        log.push(Cmd::SetBindGroup { index: 0 });
        proof {
            lemma_push_nondraw(orig_log, Cmd::SetBindGroup { index: 0 });
        }
        ComputeSession { pass, stage: Stage::LayoutBound, schemas: layout.schemas_copy(), log }
    }

    /// Set the pipeline of a compute shader compiled against the bound
    /// layout.
    pub fn apply_compute_shader(self, shader: &ComputeShaderPipeline) -> (r: ComputeSession)
        requires
            self.wf(),
            self.spec_stage() is LayoutBound,
            self.spec_schemas() == shader.spec_schemas(),
        ensures
            r.wf(),
            r.spec_stage() is ShaderBound,
            r.spec_schemas() == self.spec_schemas(),
            r.spec_log() == self.spec_log().push(Cmd::SetPipeline),
    {
        let ghost orig_log = self.spec_log();
        let ComputeSession { mut pass, stage: _, schemas, mut log } = self;
        gpu::w_cp_set_pipeline(&mut pass, shader.get_pipeline());
        log.push(Cmd::SetPipeline);
        proof {
            lemma_push_nondraw(orig_log, Cmd::SetPipeline);
            lemma_push_pipeline(orig_log);
        }
        ComputeSession { pass, stage: Stage::ShaderBound, schemas, log }
    }

    /// Dispatch the given workgroup counts with the bound pipeline.
    pub fn dispatch_workgroups(&mut self, x: u32, y: u32, z: u32)
        requires
            old(self).wf(),
            old(self).spec_stage() is ShaderBound,
        ensures
            final(self).wf(),
            final(self).spec_stage() is ShaderBound,
            final(self).spec_schemas() == old(self).spec_schemas(),
            final(self).spec_log() == old(self).spec_log().push(
                Cmd::DispatchWorkgroups { x, y, z },
            ),
    {
        gpu::w_dispatch_workgroups(&mut self.pass, x, y, z);
        let ghost lpre = self.log@;
        self.log.push(Cmd::DispatchWorkgroups { x, y, z });
        proof {
            lemma_push_draw(lpre, Cmd::DispatchWorkgroups { x, y, z });
            lemma_push_keeps_pipeline(lpre, Cmd::DispatchWorkgroups { x, y, z });
        }
    }

    /// End the recording and hand back the commands it issued.
    pub fn finish(self) -> (r: PassRecord)
        requires
            self.wf(),
        ensures
            r.wf(),
            r.spec_log() == self.spec_log(),
    {
        let ComputeSession { pass: _, stage: _, schemas: _, log } = self;
        PassRecord { commands: log }
    }
}

/// One frame's command encoder: passes are recorded on it one at a time,
/// and submitting it hands the recorded work to the queue. Alongside the
/// device encoder it keeps a log of the encoder-level commands it issued,
/// as the sessions do for pass commands.
pub struct FrameEncoder {
    encoder: wgpu::CommandEncoder,
    log: Vec<Cmd>,
}

impl FrameEncoder {
    /// The encoder-level commands issued so far, in order.
    pub closed spec fn spec_log(&self) -> Seq<Cmd> {
        self.log@
    }

    /// The encoder-level commands issued so far, in order.
    pub fn commands(&self) -> (r: &Vec<Cmd>)
        ensures
            r@ == self.spec_log(),
    {
        &self.log
    }
}

impl RenderContext {
    /// Begin encoding one frame's commands; nothing is recorded yet.
    pub fn command_encoder(&self) -> (r: FrameEncoder)
        ensures
            r.spec_log() == Seq::<Cmd>::empty(),
    {
        let r = FrameEncoder { encoder: gpu::w_create_command_encoder(self.device()), log: Vec::new() };
        proof {
            assert(r.spec_log() =~= Seq::<Cmd>::empty());
        }
        r
    }
}

impl FrameEncoder {
    /// Begin a render pass onto the given color view with the given load
    /// operation (a clear to transparent where none is given), with an
    /// optional depth attachment. The session starts empty with nothing
    /// recorded; it must be finished or dropped before the encoder is
    /// submitted.
    pub fn render_pass(
        &mut self,
        view: &wgpu::TextureView,
        load: Option<wgpu::LoadOp<wgpu::Color>>,
        depth_stencil_attachment: Option<wgpu::RenderPassDepthStencilAttachment>,
    ) -> (r: RenderSession)
        ensures
            final(self).spec_log() == old(self).spec_log(),
            r.wf(),
            r.spec_stage() is Empty,
            r.spec_tag() is None,
            r.spec_log() == Seq::<Cmd>::empty(),
    {
        let pass = gpu::w_begin_render_pass(
            &mut self.encoder,
            view,
            load,
            depth_stencil_attachment,
        );
        let r = RenderSession { pass, stage: Stage::Empty, tag: None, instances: 0, log: Vec::new() };
        proof {
            assert(r.spec_log() =~= Seq::<Cmd>::empty());
        }
        r
    }

    /// Begin a compute pass. The session starts empty with nothing
    /// recorded; it must be finished or dropped before the encoder is
    /// submitted.
    pub fn compute_pass(&mut self) -> (r: ComputeSession)
        ensures
            final(self).spec_log() == old(self).spec_log(),
            r.wf(),
            r.spec_stage() is Empty,
            r.spec_log() == Seq::<Cmd>::empty(),
    {
        let pass = gpu::w_begin_compute_pass(&mut self.encoder);
        let r = ComputeSession { pass, stage: Stage::Empty, schemas: Vec::new(), log: Vec::new() };
        proof {
            assert(r.spec_log() =~= Seq::<Cmd>::empty());
        }
        r
    }

    /// Submit everything recorded on this encoder to the queue.
    pub fn submit(self, render_context: &RenderContext) {
        gpu::w_submit(render_context.queue(), gpu::w_finish(self.encoder));
    }
}

impl RawTexture {
    /// Record a texture-to-texture copy of this texture's first mip level
    /// into the destination, over this texture's extent. The formats must
    /// be equal, the copied region must fit in the destination, this
    /// texture must be a copy source and the destination a copy
    /// destination with the same sample count: the cases the device treats
    /// as fatal. The encoder's log gains exactly this one copy.
    pub fn copy_to(&self, dst: &RawTexture, encoder: &mut FrameEncoder)
        requires
            self.spec_format() == dst.spec_format(),
            self.spec_sample_count() == dst.spec_sample_count(),
            self.spec_extent().width <= dst.spec_extent().width,
            self.spec_extent().height <= dst.spec_extent().height,
            self.spec_usage().copy_src,
            dst.spec_usage().copy_dst,
        ensures
            final(encoder).spec_log() == old(encoder).spec_log().push(
                Cmd::CopyTexture {
                    width: self.spec_extent().width,
                    height: self.spec_extent().height,
                },
            ),
    {
        gpu::w_copy_texture(
            &mut encoder.encoder,
            self.inner(),
            dst.inner(),
            self.extent().width,
            self.extent().height,
        );
        encoder.log.push(
            Cmd::CopyTexture { width: self.extent().width, height: self.extent().height },
        );
    }
}

} // verus!
