//! Declarative resource-binding schemas.
//!
//! A `BindingSchema` is an ordered table of binding entries: the slot the
//! resource attaches to, the shader stages it is visible to, the kind of
//! resource, and an optional array count. The table compiles, in declared
//! order, into a device bind-group-layout; a `Bind` then supplies one
//! resource handle per entry.

use vstd::prelude::*;

use crate::gpu::TexFormat;

verus! {

/// The kind of resource a binding slot accepts.
#[derive(Clone, Copy, Debug, PartialEq, Eq, Structural)]
pub enum BindingKind {
    /// A uniform buffer.
    Uniform,
    /// A read-only storage buffer.
    Storage,
    /// A read-write storage buffer with a dynamic offset.
    DynamicStorage,
    /// A sampled two-dimensional texture, float-sampled and filterable.
    Texture,
    /// A write-only storage texture of the given format.
    StorageTexture { format: TexFormat },
    /// A filtering sampler.
    Sampler,
}

/// The shader stages a binding is visible to.
#[derive(Clone, Copy, Debug, PartialEq, Eq, Structural)]
pub struct Stages {
    pub vertex: bool,
    pub fragment: bool,
    pub compute: bool,
}

impl Stages {
    /// Visible to the vertex stage only.
    pub fn vertex_only() -> (r: Stages)
        ensures
            r == (Stages { vertex: true, fragment: false, compute: false }),
    {
        Stages { vertex: true, fragment: false, compute: false }
    }

    /// Visible to the fragment stage only.
    pub fn fragment_only() -> (r: Stages)
        ensures
            r == (Stages { vertex: false, fragment: true, compute: false }),
    {
        Stages { vertex: false, fragment: true, compute: false }
    }

    /// Visible to the compute stage only.
    pub fn compute_only() -> (r: Stages)
        ensures
            r == (Stages { vertex: false, fragment: false, compute: true }),
    {
        Stages { vertex: false, fragment: false, compute: true }
    }
}

/// One row of a binding schema.
#[derive(Clone, Copy, Debug, PartialEq, Eq, Structural)]
pub struct BindingEntry {
    pub slot: u32,
    pub visibility: Stages,
    pub kind: BindingKind,
    pub count: Option<u32>,
}

/// The error a schema constructor reports.
#[derive(Clone, Copy, Debug, PartialEq, Eq, Structural)]
pub enum SchemaError {
    /// Two entries claim the same binding slot.
    DuplicateSlot,
}

/// Whether every slot in the table is claimed by at most one entry.
pub open spec fn slots_unique(entries: Seq<BindingEntry>) -> bool {
    forall|i: int, j: int|
        0 <= i < j < entries.len() ==> (#[trigger] entries[i]).slot != (#[trigger] entries[j]).slot
}

/// A validated, ordered table of binding entries with unique slots.
#[derive(Clone, Debug)]
pub struct BindingSchema {
    entries: Vec<BindingEntry>,
}

impl View for BindingSchema {
    type V = Seq<BindingEntry>;

    closed spec fn view(&self) -> Seq<BindingEntry> {
        self.entries@
    }
}

impl BindingSchema {
    /// Every schema that can be constructed has unique slots.
    pub open spec fn wf(&self) -> bool {
        slots_unique(self@)
    }

    /// Validate a binding table: succeeds, keeping the declared order, if
    /// and only if no two entries claim the same slot.
    pub fn new(entries: Vec<BindingEntry>) -> (r: Result<BindingSchema, SchemaError>)
        ensures
            r is Ok <==> slots_unique(entries@),
            r matches Ok(s) ==> s@ == entries@ && s.wf(),
            r matches Err(e) ==> e == SchemaError::DuplicateSlot,
    {
        let n = entries.len();
        let mut i: usize = 0;
        while i < n
            invariant
                0 <= i <= n,
                n == entries@.len(),
                forall|p: int, q: int|
                    0 <= p < q < entries@.len() && p < i ==> (#[trigger] entries@[p]).slot != (
                    #[trigger] entries@[q]).slot,
            decreases n - i,
        {
            let mut j: usize = i + 1;
            while j < n
                invariant
                    0 <= i < j <= n,
                    n == entries@.len(),
                    forall|q: int|
                        i < q < j ==> entries@[i as int].slot != (#[trigger] entries@[q]).slot,
                decreases n - j,
            {
                if entries[i].slot == entries[j].slot {
                    return Err(SchemaError::DuplicateSlot);
                }
                j = j + 1;
            }
            i = i + 1;
        }
        Ok(BindingSchema { entries })
    }

    /// The number of entries.
    pub fn len(&self) -> (r: usize)
        ensures
            r == self@.len(),
    {
        self.entries.len()
    }

    /// The entry at an index, in declared order.
    pub fn entry(&self, i: usize) -> (r: &BindingEntry)
        requires
            i < self@.len(),
        ensures
            *r == self@[i as int],
    {
        &self.entries[i]
    }

    /// The entries, in declared order.
    pub fn entries(&self) -> (r: &Vec<BindingEntry>)
        ensures
            r@ == self@,
    {
        &self.entries
    }
}

} // verus!
