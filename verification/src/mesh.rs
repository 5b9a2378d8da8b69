//! Meshes and per-instance data buffers.
//!
//! A mesh owns one vertex buffer per entry of its vertex requirements tag
//! and an index buffer; an instance buffer owns one buffer per entry of its
//! instance requirements tag and the common instance count. A draw is only
//! recorded for a mesh whose tag equals the active pipeline's.

use vstd::prelude::*;

use crate::context::RenderContext;
use crate::gpu;
use crate::gpu::SizedBuffer;
use crate::vertex::InstanceRequirements;
use crate::vertex::VertexFormat;
use crate::vertex::VertexRequirements;
use crate::vertex::stride_of;

verus! {

/// A marker type for each index width.
pub trait IndexFormat {
    /// Whether indices of this format are thirty-two bit wide.
    spec fn spec_wide() -> bool;

    /// Whether indices of this format are thirty-two bit wide.
    fn is_uint32() -> (r: bool)
        ensures
            r == Self::spec_wide(),
    ;
}

/// Sixteen-bit mesh indices.
#[derive(Clone, Copy, Debug, Default, PartialEq, Eq, Structural)]
pub struct Uint16;

/// Thirty-two-bit mesh indices.
#[derive(Clone, Copy, Debug, Default, PartialEq, Eq, Structural)]
pub struct Uint32;

impl IndexFormat for Uint16 {
    open spec fn spec_wide() -> bool {
        false
    }

    fn is_uint32() -> (r: bool) {
        false
    }
}

impl IndexFormat for Uint32 {
    open spec fn spec_wide() -> bool {
        true
    }

    fn is_uint32() -> (r: bool) {
        true
    }
}

/// A mesh: vertex buffers in tag order, an index buffer, and the tag that
/// says which pipelines it may be drawn with.
pub struct SimpleMesh {
    vertex_buffers: Vec<SizedBuffer>,
    index_buffer: SizedBuffer,
    index_count: u32,
    uint32: bool,
    req: VertexRequirements,
}

impl SimpleMesh {
    /// The number of indices a draw of this mesh covers.
    pub closed spec fn spec_index_count(&self) -> u32 {
        self.index_count
    }

    /// Whether the indices are thirty-two bit wide.
    pub closed spec fn spec_uint32(&self) -> bool {
        self.uint32
    }

    /// The vertex requirements tag the mesh satisfies.
    pub closed spec fn spec_req(&self) -> Seq<(u32, Seq<VertexFormat>)> {
        self.req@
    }

    /// The byte sizes of the vertex buffers, in tag order.
    pub closed spec fn spec_sizes(&self) -> Seq<u64> {
        self.vertex_buffers@.map_values(|b: SizedBuffer| b.spec_size())
    }

    /// The byte size of the index data.
    pub closed spec fn spec_index_bytes(&self) -> u64 {
        self.index_buffer.spec_size()
    }

    /// One buffer per tag entry, none of them empty, and a non-empty index
    /// buffer: what a recorded draw relies on.
    pub open spec fn wf(&self) -> bool {
        &&& self.spec_sizes().len() == self.spec_req().len()
        &&& forall|i: int| 0 <= i < self.spec_sizes().len() ==> #[trigger] self.spec_sizes()[i] > 0
        &&& self.spec_index_bytes() > 0
        &&& self.spec_index_count() > 0
    }

    /// Build a mesh with sixteen-bit indices: one vertex buffer per tag
    /// entry, in order, holding the given bytes.
    pub fn new_uint16(
        render_context: &RenderContext,
        req: VertexRequirements,
        vertex_data: &Vec<Vec<u8>>,
        indices: &[u16],
    ) -> (r: SimpleMesh)
        requires
            vertex_data@.len() == req@.len(),
            forall|i: int| 0 <= i < vertex_data@.len() ==> (#[trigger] vertex_data@[i])@.len() > 0,
            0 < indices@.len() <= u32::MAX,
        ensures
            r.wf(),
            r.spec_req() == req@,
            r.spec_index_count() == indices@.len(),
            !r.spec_uint32(),
    {
        let vertex_buffers = create_vertex_buffers(render_context, vertex_data);
        let index_buffer = gpu::w_create_index_buffer_u16(render_context.device(), indices);
        SimpleMesh {
            vertex_buffers,
            index_buffer,
            index_count: indices.len() as u32,
            uint32: false,
            req,
        }
    }

    /// Build a mesh with thirty-two-bit indices: one vertex buffer per tag
    /// entry, in order, holding the given bytes.
    pub fn new_uint32(
        render_context: &RenderContext,
        req: VertexRequirements,
        vertex_data: &Vec<Vec<u8>>,
        indices: &[u32],
    ) -> (r: SimpleMesh)
        requires
            vertex_data@.len() == req@.len(),
            forall|i: int| 0 <= i < vertex_data@.len() ==> (#[trigger] vertex_data@[i])@.len() > 0,
            0 < indices@.len() <= u32::MAX,
        ensures
            r.wf(),
            r.spec_req() == req@,
            r.spec_index_count() == indices@.len(),
            r.spec_uint32(),
    {
        let vertex_buffers = create_vertex_buffers(render_context, vertex_data);
        let index_buffer = gpu::w_create_index_buffer_u32(render_context.device(), indices);
        SimpleMesh {
            vertex_buffers,
            index_buffer,
            index_count: indices.len() as u32,
            uint32: true,
            req,
        }
    }

    /// The number of indices.
    pub fn index_count(&self) -> (r: u32)
        ensures
            r == self.spec_index_count(),
    {
        self.index_count
    }

    /// The vertex requirements tag.
    pub fn req(&self) -> (r: &VertexRequirements)
        ensures
            r@ == self.spec_req(),
    {
        &self.req
    }

    /// Whether the indices are thirty-two bit wide.
    pub fn is_uint32(&self) -> (r: bool)
        ensures
            r == self.spec_uint32(),
    {
        self.uint32
    }

    /// The vertex buffer of one tag entry.
    pub(crate) fn vertex_buffer(&self, i: usize) -> (r: &SizedBuffer)
        requires
            i < self.spec_sizes().len(),
        ensures
            r.spec_size() == self.spec_sizes()[i as int],
    {
        &self.vertex_buffers[i]
    }

    /// The slot of one tag entry.
    pub(crate) fn slot(&self, i: usize) -> (r: u32)
        requires
            i < self.spec_req().len(),
        ensures
            r == self.spec_req()[i as int].0,
    {
        self.req.markers[i].slot
    }

    /// The index buffer.
    pub(crate) fn index_buffer(&self) -> (r: &SizedBuffer)
        ensures
            r.spec_size() == self.spec_index_bytes(),
    {
        &self.index_buffer
    }
}

/// One vertex buffer per byte block, each paired with its length.
fn create_vertex_buffers(render_context: &RenderContext, vertex_data: &Vec<Vec<u8>>) -> (r: Vec<
    SizedBuffer,
>)
    requires
        forall|i: int| 0 <= i < vertex_data@.len() ==> (#[trigger] vertex_data@[i])@.len() > 0,
    ensures
        r@.len() == vertex_data@.len(),
        forall|i: int|
            0 <= i < vertex_data@.len() ==> (#[trigger] r@[i]).spec_size()
                == vertex_data@[i]@.len(),
{
    let mut buffers: Vec<SizedBuffer> = Vec::new();
    let mut i: usize = 0;
    while i < vertex_data.len()
        invariant
            0 <= i <= vertex_data@.len(),
            buffers@.len() == i,
            forall|j: int| 0 <= j < vertex_data@.len() ==> (#[trigger] vertex_data@[j])@.len() > 0,
            forall|j: int|
                0 <= j < i ==> (#[trigger] buffers@[j]).spec_size() == vertex_data@[j]@.len(),
        decreases vertex_data@.len() - i,
    {
        buffers.push(gpu::w_create_vertex_buffer(render_context.device(), vertex_data[i].as_slice()));
        i = i + 1;
    }
    buffers
}

/// Per-instance data: one buffer per instance-tag entry and the common
/// instance count.
pub struct SimpleInstances {
    buffers: Vec<SizedBuffer>,
    count: u32,
    req: InstanceRequirements,
}

impl SimpleInstances {
    /// The number of instances each buffer holds.
    pub closed spec fn spec_count(&self) -> u32 {
        self.count
    }

    /// The instance requirements tag the buffers satisfy.
    pub closed spec fn spec_req(&self) -> Seq<(u32, Seq<VertexFormat>)> {
        self.req@
    }

    /// The byte sizes of the buffers, in tag order.
    pub closed spec fn spec_sizes(&self) -> Seq<u64> {
        self.buffers@.map_values(|b: SizedBuffer| b.spec_size())
    }

    /// One non-empty buffer per tag entry and at least one instance.
    pub open spec fn wf(&self) -> bool {
        &&& self.spec_sizes().len() == self.spec_req().len()
        &&& forall|i: int| 0 <= i < self.spec_sizes().len() ==> #[trigger] self.spec_sizes()[i] > 0
        &&& self.spec_count() > 0
    }

    /// Build instance buffers: one per tag entry, in order, each holding
    /// `count` instances of its entry's stride — the byte lengths must
    /// agree with that count, which is how mismatched buffer lengths are
    /// rejected at construction.
    pub fn new(
        render_context: &RenderContext,
        req: InstanceRequirements,
        data: &Vec<Vec<u8>>,
        count: u32,
    ) -> (r: SimpleInstances)
        requires
            data@.len() == req@.len(),
            count > 0,
            forall|i: int|
                0 <= i < data@.len() ==> (#[trigger] data@[i])@.len() == count * stride_of(
                    req@[i].1,
                ) && data@[i]@.len() > 0,
        ensures
            r.wf(),
            r.spec_req() == req@,
            r.spec_count() == count,
    {
        let mut buffers: Vec<SizedBuffer> = Vec::new();
        let mut i: usize = 0;
        while i < data.len()
            invariant
                0 <= i <= data@.len(),
                buffers@.len() == i,
                forall|j: int| 0 <= j < data@.len() ==> (#[trigger] data@[j])@.len() > 0,
                forall|j: int| 0 <= j < i ==> (#[trigger] buffers@[j]).spec_size() > 0,
            decreases data@.len() - i,
        {
            buffers.push(gpu::w_create_vertex_buffer(render_context.device(), data[i].as_slice()));
            i = i + 1;
        }
        SimpleInstances { buffers, count, req }
    }

    /// The number of instances.
    pub fn count(&self) -> (r: u32)
        ensures
            r == self.spec_count(),
    {
        self.count
    }

    /// The instance requirements tag.
    pub fn req(&self) -> (r: &InstanceRequirements)
        ensures
            r@ == self.spec_req(),
    {
        &self.req
    }

    /// The buffer of one tag entry.
    pub(crate) fn buffer(&self, i: usize) -> (r: &SizedBuffer)
        requires
            i < self.spec_sizes().len(),
        ensures
            r.spec_size() == self.spec_sizes()[i as int],
    {
        &self.buffers[i]
    }

    /// The slot of one tag entry.
    pub(crate) fn slot(&self, i: usize) -> (r: u32)
        requires
            i < self.spec_req().len(),
        ensures
            r == self.spec_req()[i as int].0,
    {
        self.req.markers[i].slot
    }
}

} // verus!
