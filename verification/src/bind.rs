//! Bind-group layouts and realized binds.
//!
//! A `BindLayout` turns a validated `BindingSchema` into a device
//! bind-group layout, one device row per schema entry, in declared order. A
//! `Bind` owns one resource handle per schema entry and the device bind
//! group realized from them. `refresh` rebuilds the bind group from the
//! current handles: the layout never changes, and the logical bindings only
//! change where a resource itself has changed (a resized texture carries a
//! new generation).

use vstd::prelude::*;

use crate::buffer::DynamicBuffer;
use crate::buffer::StorageBuffer;
use crate::buffer::UniformBuffer;
use crate::context::RenderContext;
use crate::gpu;
use crate::schema::BindingEntry;
use crate::schema::BindingKind;
use crate::schema::BindingSchema;
use crate::gpu::TexFormat;
use crate::schema::slots_unique;
use crate::texture::RawTexture;
use crate::texture::TexSampler;

verus! {

/// One resource handle, of the kind a schema entry declares.
pub enum BindResource {
    Uniform(UniformBuffer),
    Storage(StorageBuffer),
    Dynamic(DynamicBuffer),
    Texture(RawTexture),
    Sampler(TexSampler),
}

/// Whether a resource is of the kind a schema entry declares. A sampled
/// texture entry is float-filterable, which a depth-format texture cannot
/// satisfy, and a storage-texture entry takes exactly the format it
/// declares.
pub open spec fn resource_matches(r: BindResource, kind: BindingKind) -> bool {
    match (r, kind) {
        (BindResource::Uniform(_), BindingKind::Uniform) => true,
        (BindResource::Storage(_), BindingKind::Storage) => true,
        (BindResource::Dynamic(_), BindingKind::DynamicStorage) => true,
        (BindResource::Texture(t), BindingKind::Texture) => t.spec_format()
            != TexFormat::Depth32Float,
        (BindResource::Texture(t), BindingKind::StorageTexture { format }) => t.spec_format()
            == format,
        (BindResource::Sampler(_), BindingKind::Sampler) => true,
        _ => false,
    }
}

/// Whether a resource list supplies every schema entry with a resource of
/// its kind, in order.
pub open spec fn resources_match(schema: Seq<BindingEntry>, resources: Seq<BindResource>) -> bool {
    &&& resources.len() == schema.len()
    &&& forall|i: int|
        0 <= i < schema.len() ==> resource_matches(#[trigger] resources[i], schema[i].kind)
}

/// The logical content of one realized binding: its slot, and, for a
/// texture, the generation of the view that was bound. Two binds with equal
/// `BindingRef` rows over the same resources hold the same bindings.
#[derive(Clone, Copy, Debug, PartialEq, Eq, Structural)]
pub struct BindingRef {
    pub slot: u32,
    pub texture_generation: Option<u64>,
}

/// The logical binding of one schema entry realized with one resource.
pub open spec fn binding_ref_of(entry: BindingEntry, r: BindResource) -> BindingRef {
    BindingRef {
        slot: entry.slot,
        texture_generation: match r {
            BindResource::Texture(t) => Some(t.spec_generation()),
            _ => None,
        },
    }
}

/// The logical content of a bind group built from the given schema and
/// resources: one row per entry, in declared order.
pub open spec fn spec_bound_of(schema: Seq<BindingEntry>, resources: Seq<BindResource>) -> Seq<
    BindingRef,
> {
    Seq::new(schema.len(), |i: int| binding_ref_of(schema[i], resources[i]))
}

/// The error a bind constructor reports.
#[derive(Clone, Copy, Debug, PartialEq, Eq, Structural)]
pub enum BindError {
    /// The number of resources does not equal the number of schema entries.
    CountMismatch { expected: usize, got: usize },
    /// The resource at `index` is not of the kind its entry declares.
    KindMismatch { index: usize },
}

/// An immutable, shareable device bind-group layout derived from a schema.
pub struct BindLayout {
    layout: wgpu::BindGroupLayout,
    schema: BindingSchema,
}

impl BindLayout {
    /// The schema the layout was built from.
    pub closed spec fn spec_schema(&self) -> Seq<BindingEntry> {
        self.schema@
    }

    /// The slots of the layout's schema are unique.
    pub open spec fn wf(&self) -> bool {
        slots_unique(self.spec_schema())
    }

    /// Build the device bind-group layout of a schema: one device row per
    /// entry, in declared order. Issues exactly one device layout creation.
    pub fn new(render_context: &RenderContext, schema: BindingSchema) -> (r: BindLayout)
        requires
            schema.wf(),
        ensures
            r.spec_schema() == schema@,
            r.wf(),
    {
        let mut rows: Vec<wgpu::BindGroupLayoutEntry> = Vec::new();
        let n = schema.len();
        let mut i: usize = 0;
        while i < n
            invariant
                n == schema@.len(),
                0 <= i <= n,
            decreases n - i,
        {
            rows.push(gpu::layout_entry_of(schema.entry(i)));
            i = i + 1;
        }
        let layout = gpu::w_create_bind_group_layout(render_context.device(), &rows);
        BindLayout { layout, schema }
    }

    /// The underlying device layout.
    pub fn wgpu_layout(&self) -> (r: &wgpu::BindGroupLayout) {
        &self.layout
    }

    /// The schema, in declared order.
    pub fn schema(&self) -> (r: &BindingSchema)
        ensures
            r@ == self.spec_schema(),
    {
        &self.schema
    }
}

/// Concrete resource handles in one-to-one correspondence with a layout's
/// schema, together with the realized device bind group.
pub struct Bind {
    bind_group: wgpu::BindGroup,
    layout: BindLayout,
    resources: Vec<BindResource>,
    bound: Vec<BindingRef>,
}

impl Bind {
    /// The schema of the layout this bind was built against.
    pub closed spec fn spec_schema(&self) -> Seq<BindingEntry> {
        self.layout.spec_schema()
    }

    /// The resource handles, one per schema entry.
    pub closed spec fn spec_resources(&self) -> Seq<BindResource> {
        self.resources@
    }

    /// The logical content of the realized bind group.
    pub closed spec fn spec_bound(&self) -> Seq<BindingRef> {
        self.bound@
    }

    /// Resources match the schema, and the realized bind group holds
    /// exactly the bindings the current resources give.
    pub open spec fn wf(&self) -> bool {
        &&& slots_unique(self.spec_schema())
        &&& resources_match(self.spec_schema(), self.spec_resources())
        &&& self.spec_bound() == spec_bound_of(self.spec_schema(), self.spec_resources())
    }

    /// Realize a bind group: succeeds if and only if the resources supply
    /// every schema entry with a resource of its kind, in order. On a count
    /// mismatch the expected and given counts are reported; otherwise the
    /// first entry whose kind is wrong is. Issues exactly one device
    /// bind-group creation.
    pub fn new(render_context: &RenderContext, layout: BindLayout, resources: Vec<BindResource>) -> (r:
        Result<Bind, BindError>)
        requires
            layout.wf(),
        ensures
            r is Ok <==> resources_match(layout.spec_schema(), resources@),
            r matches Ok(b) ==> {
                &&& b.wf()
                &&& b.spec_schema() == layout.spec_schema()
                &&& b.spec_resources() == resources@
                &&& b.spec_bound() == spec_bound_of(layout.spec_schema(), resources@)
            },
            r matches Err(BindError::CountMismatch { expected, got }) ==> expected
                == layout.spec_schema().len() && got == resources@.len() && expected != got,
            r matches Err(BindError::KindMismatch { index }) ==> {
                &&& resources@.len() == layout.spec_schema().len()
                &&& index < resources@.len()
                &&& !resource_matches(resources@[index as int], layout.spec_schema()[index as int].kind)
                &&& forall|j: int|
                    0 <= j < index ==> resource_matches(
                        #[trigger] resources@[j],
                        layout.spec_schema()[j].kind,
                    )
            },
    {
        let n = layout.schema.len();
        if resources.len() != n {
            return Err(BindError::CountMismatch { expected: n, got: resources.len() });
        }
        let mut i: usize = 0;
        while i < n
            invariant
                n == layout.spec_schema().len(),
                resources@.len() == n,
                0 <= i <= n,
                forall|j: int|
                    0 <= j < i ==> resource_matches(
                        #[trigger] resources@[j],
                        layout.spec_schema()[j].kind,
                    ),
            decreases n - i,
        {
            if !resource_kind_ok(&resources[i], &layout.schema.entry(i).kind) {
                return Err(BindError::KindMismatch { index: i });
            }
            i = i + 1;
        }
        let bind_group = realize_bind_group(render_context, &layout, &resources);
        let bound = bound_of(&layout, &resources);
        Ok(Bind { bind_group, layout, resources, bound })
    }

    /// Rebuild the device bind group from the current resource handles; the
    /// layout does not change, and the logical bindings become exactly
    /// those of the current resources — so a refresh on unchanged handles
    /// reproduces the same logical bindings, and one after a texture
    /// resize binds the new view in the old slot.
    pub fn refresh(&mut self, render_context: &RenderContext)
        requires
            resources_match(old(self).spec_schema(), old(self).spec_resources()),
        ensures
            final(self).spec_schema() == old(self).spec_schema(),
            final(self).spec_resources() == old(self).spec_resources(),
            final(self).spec_bound() == spec_bound_of(
                old(self).spec_schema(),
                old(self).spec_resources(),
            ),
            old(self).wf() ==> final(self).spec_bound() == old(self).spec_bound(),
            old(self).wf() ==> final(self).wf(),
    {
        let bind_group = realize_bind_group(render_context, &self.layout, &self.resources);
        let bound = bound_of(&self.layout, &self.resources);
        self.bind_group = bind_group;
        self.bound = bound;
    }

    /// The realized device bind group.
    pub fn bind_group(&self) -> (r: &wgpu::BindGroup) {
        &self.bind_group
    }

    /// The layout the bind was built against.
    pub fn layout(&self) -> (r: &BindLayout)
        ensures
            r.spec_schema() == self.spec_schema(),
    {
        &self.layout
    }

    /// The logical content of the realized bind group, one row per entry.
    pub fn bound(&self) -> (r: &Vec<BindingRef>)
        ensures
            r@ == self.spec_bound(),
    {
        &self.bound
    }

    /// The resource at a schema index.
    pub fn resource(&self, i: usize) -> (r: &BindResource)
        requires
            i < self.spec_resources().len(),
        ensures
            *r == self.spec_resources()[i as int],
    {
        &self.resources[i]
    }

    /// The uniform buffer at a schema index that holds one.
    pub fn uniform_at(&self, i: usize) -> (r: &UniformBuffer)
        requires
            i < self.spec_resources().len(),
            self.spec_resources()[i as int] is Uniform,
        ensures
            *r == self.spec_resources()[i as int]->Uniform_0,
    {
        match &self.resources[i] {
            BindResource::Uniform(b) => b,
            _ => {
                proof {
                    assert(false);
                }
                unreached()
            },
        }
    }

    /// The storage buffer at a schema index that holds one.
    pub fn storage_at(&self, i: usize) -> (r: &StorageBuffer)
        requires
            i < self.spec_resources().len(),
            self.spec_resources()[i as int] is Storage,
        ensures
            *r == self.spec_resources()[i as int]->Storage_0,
    {
        match &self.resources[i] {
            BindResource::Storage(b) => b,
            _ => {
                proof {
                    assert(false);
                }
                unreached()
            },
        }
    }

    /// The dynamic buffer at a schema index that holds one.
    pub fn dynamic_at(&self, i: usize) -> (r: &DynamicBuffer)
        requires
            i < self.spec_resources().len(),
            self.spec_resources()[i as int] is Dynamic,
        ensures
            *r == self.spec_resources()[i as int]->Dynamic_0,
    {
        match &self.resources[i] {
            BindResource::Dynamic(b) => b,
            _ => {
                proof {
                    assert(false);
                }
                unreached()
            },
        }
    }

    /// The sampler at a schema index that holds one.
    pub fn sampler_at(&self, i: usize) -> (r: &TexSampler)
        requires
            i < self.spec_resources().len(),
            self.spec_resources()[i as int] is Sampler,
        ensures
            *r == self.spec_resources()[i as int]->Sampler_0,
    {
        match &self.resources[i] {
            BindResource::Sampler(s) => s,
            _ => {
                proof {
                    assert(false);
                }
                unreached()
            },
        }
    }

    /// The texture at a schema index that holds one.
    pub fn texture_at(&self, i: usize) -> (r: &RawTexture)
        requires
            i < self.spec_resources().len(),
            self.spec_resources()[i as int] is Texture,
        ensures
            *r == self.spec_resources()[i as int]->Texture_0,
    {
        match &self.resources[i] {
            BindResource::Texture(t) => t,
            _ => {
                proof {
                    assert(false);
                }
                unreached()
            },
        }
    }

    /// Write into the dynamic buffer at a schema index, rejecting exactly
    /// the writes that would end past its capacity; on success its logical
    /// size becomes the write's end. The bind group stays valid: the
    /// buffer handle itself never changes, so no refresh is due.
    pub fn write_dynamic_at(
        &mut self,
        render_context: &RenderContext,
        i: usize,
        data: &[u8],
        offset: u64,
    ) -> (r: Result<(), crate::buffer::BufferError>)
        requires
            i < old(self).spec_resources().len(),
            old(self).spec_resources()[i as int] is Dynamic,
            offset % 4 == 0,
            data@.len() % 4 == 0,
        ensures
            final(self).spec_schema() == old(self).spec_schema(),
            final(self).spec_bound() == old(self).spec_bound(),
            final(self).spec_resources().len() == old(self).spec_resources().len(),
            forall|j: int|
                0 <= j < old(self).spec_resources().len() && j != i
                    ==> #[trigger] final(self).spec_resources()[j] == old(self).spec_resources()[j],
            final(self).spec_resources()[i as int] is Dynamic,
            r is Ok <==> offset + data@.len() <= (old(self).spec_resources()[
                i as int
            ])->Dynamic_0.spec_max_size(),
            r is Ok ==> (final(self).spec_resources()[i as int])->Dynamic_0.spec_size() == offset
                + data@.len(),
            r is Err ==> final(self).spec_resources()[i as int] == old(self).spec_resources()[
                i as int
            ],
            (final(self).spec_resources()[i as int])->Dynamic_0.spec_max_size() == (old(
                self,
            ).spec_resources()[i as int])->Dynamic_0.spec_max_size(),
    {
        let slot = &mut self.resources[i];
        match slot {
            BindResource::Dynamic(b) => b.try_write_at_offset(render_context, data, offset),
            _ => {
                proof {
                    assert(false);
                }
                unreached()
            },
        }
    }

    /// Resize the texture at a schema index in place. Its generation
    /// advances, so the realized bind group is stale until `refresh` is
    /// called: the logical bindings still name the old generation. The new
    /// extent must be one the texture's unchanged description stays valid
    /// at.
    pub fn resize_texture(&mut self, render_context: &RenderContext, i: usize, size: crate::texture::Extent)
        requires
            i < old(self).spec_resources().len(),
            old(self).spec_resources()[i as int] is Texture,
            (old(self).spec_resources()[i as int])->Texture_0.wf(),
            (old(self).spec_resources()[i as int])->Texture_0.spec_generation() < u64::MAX,
            size.width >= 1 && size.height >= 1 && size.depth_or_array_layers >= 1,
            (old(self).spec_resources()[i as int])->Texture_0.spec_mip_level_count()
                <= crate::texture::max_mip_count(
                (old(self).spec_resources()[i as int])->Texture_0.spec_dim(),
                size,
            ),
            (old(self).spec_resources()[i as int])->Texture_0.spec_dim() is D1 ==> size.height == 1
                && size.depth_or_array_layers == 1,
            (old(self).spec_resources()[i as int])->Texture_0.spec_sample_count() != 1
                ==> size.depth_or_array_layers == 1,
        ensures
            final(self).spec_schema() == old(self).spec_schema(),
            final(self).spec_bound() == old(self).spec_bound(),
            final(self).spec_resources().len() == old(self).spec_resources().len(),
            forall|j: int|
                0 <= j < old(self).spec_resources().len() && j != i
                    ==> #[trigger] final(self).spec_resources()[j] == old(self).spec_resources()[j],
            final(self).spec_resources()[i as int] is Texture,
            (final(self).spec_resources()[i as int])->Texture_0.wf(),
            (final(self).spec_resources()[i as int])->Texture_0.spec_generation()
                == (old(self).spec_resources()[i as int])->Texture_0.spec_generation() + 1,
            (final(self).spec_resources()[i as int])->Texture_0.spec_extent() == size,
            (final(self).spec_resources()[i as int])->Texture_0.spec_format()
                == (old(self).spec_resources()[i as int])->Texture_0.spec_format(),
            (final(self).spec_resources()[i as int])->Texture_0.spec_dim()
                == (old(self).spec_resources()[i as int])->Texture_0.spec_dim(),
            (final(self).spec_resources()[i as int])->Texture_0.spec_usage()
                == (old(self).spec_resources()[i as int])->Texture_0.spec_usage(),
            (final(self).spec_resources()[i as int])->Texture_0.spec_mip_level_count()
                == (old(self).spec_resources()[i as int])->Texture_0.spec_mip_level_count(),
            (final(self).spec_resources()[i as int])->Texture_0.spec_sample_count()
                == (old(self).spec_resources()[i as int])->Texture_0.spec_sample_count(),
    {
        let slot = &mut self.resources[i];
        match slot {
            BindResource::Texture(t) => {
                t.resize(render_context, size);
            },
            _ => {
                proof {
                    assert(false);
                }
            },
        }
    }
}

/// Whether a resource is of the kind an entry declares.
fn resource_kind_ok(r: &BindResource, kind: &BindingKind) -> (ok: bool)
    ensures
        ok == resource_matches(*r, *kind),
{
    match (r, kind) {
        (BindResource::Uniform(_), BindingKind::Uniform) => true,
        (BindResource::Storage(_), BindingKind::Storage) => true,
        (BindResource::Dynamic(_), BindingKind::DynamicStorage) => true,
        (BindResource::Texture(t), BindingKind::Texture) => t.format()
            != TexFormat::Depth32Float,
        (BindResource::Texture(t), BindingKind::StorageTexture { format }) => t.format()
            == *format,
        (BindResource::Sampler(_), BindingKind::Sampler) => true,
        _ => false,
    }
}

/// Create the device bind group of the resources at their declared slots.
fn realize_bind_group(
    render_context: &RenderContext,
    layout: &BindLayout,
    resources: &Vec<BindResource>,
) -> (r: wgpu::BindGroup)
    requires
        resources@.len() == layout.spec_schema().len(),
{
    let n = resources.len();
    let mut entries: Vec<wgpu::BindGroupEntry> = Vec::new();
    let mut i: usize = 0;
    while i < n
        invariant
            n == resources@.len(),
            n == layout.spec_schema().len(),
            0 <= i <= n,
        decreases n - i,
    {
        let slot = layout.schema.entry(i).slot;
        let entry = match &resources[i] {
            BindResource::Uniform(b) => gpu::w_bind_entry_buffer(slot, b.wgpu_buffer()),
            BindResource::Storage(b) => gpu::w_bind_entry_buffer(slot, b.wgpu_buffer()),
            BindResource::Dynamic(b) => gpu::w_bind_entry_buffer(slot, b.wgpu_buffer()),
            BindResource::Texture(t) => gpu::w_bind_entry_texture(slot, t.view()),
            BindResource::Sampler(s) => gpu::w_bind_entry_sampler(slot, s.inner()),
        };
        entries.push(entry);
        i = i + 1;
    }
    gpu::w_create_bind_group(render_context.device(), layout.wgpu_layout(), &entries)
}

/// The logical content the bind group will hold: one row per entry.
fn bound_of(layout: &BindLayout, resources: &Vec<BindResource>) -> (r: Vec<BindingRef>)
    requires
        resources@.len() == layout.spec_schema().len(),
    ensures
        r@ == spec_bound_of(layout.spec_schema(), resources@),
{
    let n = resources.len();
    let mut r: Vec<BindingRef> = Vec::new();
    let mut i: usize = 0;
    while i < n
        invariant
            n == resources@.len(),
            n == layout.spec_schema().len(),
            0 <= i <= n,
            r@ == spec_bound_of(layout.spec_schema(), resources@).take(i as int),
        decreases n - i,
    {
        let generation: Option<u64> = match &resources[i] {
            BindResource::Texture(t) => Some(t.generation()),
            _ => None,
        };
        r.push(BindingRef { slot: layout.schema.entry(i).slot, texture_generation: generation });
        i = i + 1;
        proof {
            assert(r@ =~= spec_bound_of(layout.spec_schema(), resources@).take(i as int));
        }
    }
    proof {
        assert(r@ =~= spec_bound_of(layout.spec_schema(), resources@));
    }
    r
}

/// Replacing the texture at one entry by a resized one (any texture of a
/// different generation) and rebuilding the logical bindings changes the
/// bound texture-view reference at that entry and nothing else: the slot
/// stays, every other row stays, and the schema was never touched.
pub proof fn lemma_refresh_after_resize(
    schema: Seq<BindingEntry>,
    resources: Seq<BindResource>,
    i: int,
    resized: RawTexture,
)
    requires
        resources_match(schema, resources),
        0 <= i < resources.len(),
        resources[i] is Texture,
        resized.spec_generation() != resources[i]->Texture_0.spec_generation(),
    ensures
        spec_bound_of(schema, resources.update(i, BindResource::Texture(resized)))[i]
            .texture_generation != spec_bound_of(schema, resources)[i].texture_generation,
        spec_bound_of(schema, resources.update(i, BindResource::Texture(resized)))[i].slot
            == spec_bound_of(schema, resources)[i].slot,
        forall|j: int|
            0 <= j < resources.len() && j != i ==> spec_bound_of(
                schema,
                resources.update(i, BindResource::Texture(resized)),
            )[j] == spec_bound_of(schema, resources)[j],
{
}

} // verus!
