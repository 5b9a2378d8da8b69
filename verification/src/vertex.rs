//! Vertex and instance attribute schemas, and their composition into
//! compound vertex-buffer layouts.
//!
//! A vertex struct is described by the ordered list of its field formats
//! (`VertexAttr`). One or more such schemas, each tagged per-vertex or
//! per-instance, compose into one buffer-layout array: byte offsets are the
//! running sum of the preceding field sizes within each struct, and shader
//! locations are assigned in declaration order across all structs.

use vstd::prelude::*;

verus! {

/// The format of one vertex attribute field.
#[derive(Clone, Copy, Debug, PartialEq, Eq, Structural)]
pub enum VertexFormat {
    Float32,
    Float32x2,
    Float32x3,
    Float32x4,
    Uint32,
}

/// Byte size of one attribute format.
pub open spec fn format_size(f: VertexFormat) -> int {
    match f {
        VertexFormat::Float32 => 4,
        VertexFormat::Float32x2 => 8,
        VertexFormat::Float32x3 => 12,
        VertexFormat::Float32x4 => 16,
        VertexFormat::Uint32 => 4,
    }
}

impl VertexFormat {
    /// Byte size of this format.
    pub fn byte_size(&self) -> (r: u64)
        ensures
            r == format_size(*self),
    {
        match self {
            VertexFormat::Float32 => 4,
            VertexFormat::Float32x2 => 8,
            VertexFormat::Float32x3 => 12,
            VertexFormat::Float32x4 => 16,
            VertexFormat::Uint32 => 4,
        }
    }
}

/// Whether a composed buffer advances per vertex or per instance.
#[derive(Clone, Copy, Debug, PartialEq, Eq, Structural)]
pub enum StepMode {
    Vertex,
    Instance,
}

/// The attribute schema of one vertex or instance struct: its field formats
/// in declaration order.
#[derive(Clone, Debug)]
pub struct VertexAttr {
    pub formats: Vec<VertexFormat>,
}

/// One entry of a realized buffer layout: a format placed at a byte offset
/// within the struct and at an absolute shader location.
#[derive(Clone, Copy, Debug, PartialEq, Eq, Structural)]
pub struct AttributeEntry {
    pub format: VertexFormat,
    pub offset: u64,
    pub shader_location: u32,
}

/// The realized layout of one buffer: the struct's total byte stride, its
/// step mode, and its attribute entries.
#[derive(Clone, Debug)]
pub struct BufferLayout {
    pub array_stride: u64,
    pub step_mode: StepMode,
    pub attributes: Vec<AttributeEntry>,
}

/// One attribute schema tagged with its step mode, as handed to the
/// composition.
#[derive(Clone, Debug)]
pub struct TaggedAttr {
    pub schema: VertexAttr,
    pub step: StepMode,
}

/// Sum of the byte sizes of the first `i` formats.
pub open spec fn prefix_bytes(formats: Seq<VertexFormat>, i: int) -> int
    decreases i,
{
    if i <= 0 {
        0
    } else {
        prefix_bytes(formats, i - 1) + format_size(formats[i - 1])
    }
}

/// Total byte stride of a struct with the given field formats.
pub open spec fn stride_of(formats: Seq<VertexFormat>) -> int {
    prefix_bytes(formats, formats.len() as int)
}

/// The attribute entries of one struct, with field offsets at the running
/// sum of the preceding sizes and locations starting at `base_loc`.
pub open spec fn attrs_of(formats: Seq<VertexFormat>, base_loc: int) -> Seq<AttributeEntry> {
    Seq::new(
        formats.len(),
        |i: int|
            AttributeEntry {
                format: formats[i],
                offset: prefix_bytes(formats, i) as u64,
                shader_location: (base_loc + i) as u32,
            },
    )
}

/// The first shader location of the `k`-th struct: the number of locations
/// consumed by all preceding structs.
pub open spec fn loc_base(parts: Seq<TaggedAttr>, k: int) -> int
    decreases k,
{
    if k <= 0 {
        0
    } else {
        loc_base(parts, k - 1) + parts[k - 1].schema.formats@.len()
    }
}

/// `prefix_bytes` grows monotonically and is bounded by the stride.
pub proof fn lemma_prefix_bytes_le(formats: Seq<VertexFormat>, i: int, j: int)
    requires
        0 <= i <= j <= formats.len(),
    ensures
        prefix_bytes(formats, i) <= prefix_bytes(formats, j),
    decreases j - i,
{
    if i < j {
        lemma_prefix_bytes_le(formats, i, j - 1);
    }
}

/// `loc_base` grows monotonically in the struct index.
pub proof fn lemma_loc_base_le(parts: Seq<TaggedAttr>, i: int, j: int)
    requires
        0 <= i <= j <= parts.len(),
    ensures
        loc_base(parts, i) <= loc_base(parts, j),
    decreases j - i,
{
    if i < j {
        lemma_loc_base_le(parts, i, j - 1);
    }
}

impl VertexAttr {
    /// Build the attribute entries of this struct with locations starting at
    /// `base_loc`.
    pub fn attrs(&self, base_loc: u32) -> (r: Vec<AttributeEntry>)
        requires
            base_loc + self.formats@.len() <= u32::MAX,
            stride_of(self.formats@) <= u64::MAX,
        ensures
            r@ == attrs_of(self.formats@, base_loc as int),
    {
        let mut r: Vec<AttributeEntry> = Vec::new();
        let mut off: u64 = 0;
        let mut i: usize = 0;
        while i < self.formats.len()
            invariant
                0 <= i <= self.formats@.len(),
                base_loc + self.formats@.len() <= u32::MAX,
                stride_of(self.formats@) <= u64::MAX,
                off == prefix_bytes(self.formats@, i as int),
                r@ == attrs_of(self.formats@, base_loc as int).take(i as int),
            decreases self.formats@.len() - i,
    {
            proof {
                lemma_prefix_bytes_le(self.formats@, i as int + 1, self.formats@.len() as int);
            }
            let f = self.formats[i];
            r.push(AttributeEntry {
                format: f,
                offset: off,
                shader_location: base_loc + (i as u32),
            });
            off = off + f.byte_size();
            i = i + 1;
            proof {
                assert(r@ =~= attrs_of(self.formats@, base_loc as int).take(i as int));
            }
        }
        proof {
            assert(r@ =~= attrs_of(self.formats@, base_loc as int));
        }
        r
    }

    /// Total byte stride of this struct.
    pub fn stride(&self) -> (r: u64)
        requires
            stride_of(self.formats@) <= u64::MAX,
        ensures
            r == stride_of(self.formats@),
    {
        let mut off: u64 = 0;
        let mut i: usize = 0;
        while i < self.formats.len()
            invariant
                0 <= i <= self.formats@.len(),
                stride_of(self.formats@) <= u64::MAX,
                off == prefix_bytes(self.formats@, i as int),
            decreases self.formats@.len() - i,
        {
            proof {
                lemma_prefix_bytes_le(self.formats@, i as int + 1, self.formats@.len() as int);
            }
            off = off + self.formats[i].byte_size();
            i = i + 1;
        }
        off
    }
}

/// Compose one or more tagged attribute schemas into a compound buffer
/// layout: one entry per struct, in declaration order, with shader locations
/// assigned by a running counter across all structs and byte offsets by the
/// running sum of sizes within each struct.
pub fn compose_layout(parts: &Vec<TaggedAttr>) -> (r: Vec<BufferLayout>)
    requires
        loc_base(parts@, parts@.len() as int) <= u32::MAX,
        forall|k: int|
            0 <= k < parts@.len() ==> stride_of(#[trigger] parts@[k].schema.formats@) <= u64::MAX,
    ensures
        r@.len() == parts@.len(),
        forall|k: int|
            0 <= k < parts@.len() ==> {
                &&& (#[trigger] r@[k]).array_stride == stride_of(parts@[k].schema.formats@)
                &&& r@[k].step_mode == parts@[k].step
                &&& r@[k].attributes@ == attrs_of(
                    parts@[k].schema.formats@,
                    loc_base(parts@, k),
                )
            },
{
    let mut r: Vec<BufferLayout> = Vec::new();
    let mut loc: u32 = 0;
    let mut k: usize = 0;
    while k < parts.len()
        invariant
            0 <= k <= parts@.len(),
            loc_base(parts@, parts@.len() as int) <= u32::MAX,
            forall|j: int|
                0 <= j < parts@.len() ==> stride_of(#[trigger] parts@[j].schema.formats@)
                    <= u64::MAX,
            loc == loc_base(parts@, k as int),
            r@.len() == k,
            forall|j: int|
                0 <= j < k ==> {
                    &&& (#[trigger] r@[j]).array_stride == stride_of(parts@[j].schema.formats@)
                    &&& r@[j].step_mode == parts@[j].step
                    &&& r@[j].attributes@ == attrs_of(
                        parts@[j].schema.formats@,
                        loc_base(parts@, j),
                    )
                },
        decreases parts@.len() - k,
    {
        proof {
            lemma_loc_base_le(parts@, k as int + 1, parts@.len() as int);
        }
        let part = &parts[k];
        let attributes = part.schema.attrs(loc);
        let stride = part.schema.stride();
        r.push(BufferLayout { array_stride: stride, step_mode: part.step, attributes });
        loc = loc + (part.schema.formats.len() as u32);
        k = k + 1;
    }
    r
}

/// One entry of a requirements tag: the buffer slot a struct occupies and
/// its field formats.
#[derive(Clone, Debug)]
pub struct VertexAttrMarker {
    pub slot: u32,
    pub formats: Vec<VertexFormat>,
}

impl View for VertexAttrMarker {
    type V = (u32, Seq<VertexFormat>);

    open spec fn view(&self) -> (u32, Seq<VertexFormat>) {
        (self.slot, self.formats@)
    }
}

/// The per-vertex half of a layout's requirements tag: which buffer slots a
/// compatible mesh must fill, and with which formats.
#[derive(Clone, Debug)]
pub struct VertexRequirements {
    pub markers: Vec<VertexAttrMarker>,
}

impl View for VertexRequirements {
    type V = Seq<(u32, Seq<VertexFormat>)>;

    open spec fn view(&self) -> Seq<(u32, Seq<VertexFormat>)> {
        self.markers@.map_values(|m: VertexAttrMarker| m@)
    }
}

/// The per-instance half of a layout's requirements tag: which buffer slots
/// a compatible instance-data buffer must fill.
#[derive(Clone, Debug)]
pub struct InstanceRequirements {
    pub markers: Vec<VertexAttrMarker>,
}

impl View for InstanceRequirements {
    type V = Seq<(u32, Seq<VertexFormat>)>;

    open spec fn view(&self) -> Seq<(u32, Seq<VertexFormat>)> {
        self.markers@.map_values(|m: VertexAttrMarker| m@)
    }
}

/// The requirement markers of the structs with the given step mode: each
/// contributes its buffer slot index and formats, in declaration order.
pub open spec fn markers_of(parts: Seq<TaggedAttr>, step: StepMode) -> Seq<
    (u32, Seq<VertexFormat>),
>
    decreases parts.len(),
{
    if parts.len() == 0 {
        seq![]
    } else {
        let prefix = markers_of(parts.drop_last(), step);
        if parts.last().step == step {
            prefix.push((((parts.len() - 1) as u32), parts.last().schema.formats@))
        } else {
            prefix
        }
    }
}

/// Extract the requirement markers of the structs with the given step mode.
fn extract_markers(parts: &Vec<TaggedAttr>, step: StepMode) -> (r: Vec<VertexAttrMarker>)
    requires
        parts@.len() <= u32::MAX,
    ensures
        r@.map_values(|m: VertexAttrMarker| m@) == markers_of(parts@, step),
{
    let mut r: Vec<VertexAttrMarker> = Vec::new();
    let mut k: usize = 0;
    while k < parts.len()
        invariant
            0 <= k <= parts@.len(),
            parts@.len() <= u32::MAX,
            r@.map_values(|m: VertexAttrMarker| m@) == markers_of(parts@.take(k as int), step),
        decreases parts@.len() - k,
    {
        let ghost prev = parts@.take(k as int);
        let part = &parts[k];
        if matches_step(part.step, step) {
            r.push(VertexAttrMarker { slot: k as u32, formats: part.schema.formats.clone() });
        }
        k = k + 1;
        proof {
            assert(parts@.take(k as int).drop_last() =~= prev);
            assert(r@.map_values(|m: VertexAttrMarker| m@) =~= markers_of(
                parts@.take(k as int),
                step,
            ));
        }
    }
    proof {
        assert(parts@.take(parts@.len() as int) =~= parts@);
    }
    r
}

/// Whether two step modes are the same.
fn matches_step(a: StepMode, b: StepMode) -> (r: bool)
    ensures
        r == (a == b),
{
    match (a, b) {
        (StepMode::Vertex, StepMode::Vertex) => true,
        (StepMode::Instance, StepMode::Instance) => true,
        _ => false,
    }
}

impl VertexRequirements {
    /// The per-vertex requirements tag of a composed layout.
    pub fn of_layout(parts: &Vec<TaggedAttr>) -> (r: VertexRequirements)
        requires
            parts@.len() <= u32::MAX,
        ensures
            r@ == markers_of(parts@, StepMode::Vertex),
    {
        VertexRequirements { markers: extract_markers(parts, StepMode::Vertex) }
    }

    /// Whether this tag is the same as another; compatibility of a mesh with
    /// a pipeline is equality of their tags.
    pub fn matches(&self, other: &VertexRequirements) -> (r: bool)
        ensures
            r == (self@ == other@),
    {
        markers_eq(&self.markers, &other.markers)
    }

    /// A tag demanding no vertex input at all, as a screen-quad pass uses.
    pub fn none() -> (r: VertexRequirements)
        ensures
            r@ == Seq::<(u32, Seq<VertexFormat>)>::empty(),
    {
        let r = VertexRequirements { markers: Vec::new() };
        proof {
            assert(r@ =~= Seq::<(u32, Seq<VertexFormat>)>::empty());
        }
        r
    }
}

impl InstanceRequirements {
    /// The per-instance requirements tag of a composed layout.
    pub fn of_layout(parts: &Vec<TaggedAttr>) -> (r: InstanceRequirements)
        requires
            parts@.len() <= u32::MAX,
        ensures
            r@ == markers_of(parts@, StepMode::Instance),
    {
        InstanceRequirements { markers: extract_markers(parts, StepMode::Instance) }
    }

    /// Whether this tag is the same as another.
    pub fn matches(&self, other: &InstanceRequirements) -> (r: bool)
        ensures
            r == (self@ == other@),
    {
        markers_eq(&self.markers, &other.markers)
    }
}

/// Whether two format lists are equal.
fn formats_eq(a: &Vec<VertexFormat>, b: &Vec<VertexFormat>) -> (r: bool)
    ensures
        r == (a@ == b@),
{
    if a.len() != b.len() {
        proof {
            assert(a@.len() != b@.len());
        }
        return false;
    }
    let mut i: usize = 0;
    while i < a.len()
        invariant
            0 <= i <= a@.len(),
            a@.len() == b@.len(),
            forall|j: int| 0 <= j < i ==> a@[j] == b@[j],
        decreases a@.len() - i,
    {
        if a[i] != b[i] {
            return false;
        }
        i = i + 1;
    }
    proof {
        assert(a@ =~= b@);
    }
    true
}

/// Whether two marker lists denote the same requirements.
fn markers_eq(a: &Vec<VertexAttrMarker>, b: &Vec<VertexAttrMarker>) -> (r: bool)
    ensures
        r == (a@.map_values(|m: VertexAttrMarker| m@) == b@.map_values(
            |m: VertexAttrMarker| m@,
        )),
{
    let ghost av = a@.map_values(|m: VertexAttrMarker| m@);
    let ghost bv = b@.map_values(|m: VertexAttrMarker| m@);
    if a.len() != b.len() {
        proof {
            assert(av.len() != bv.len());
        }
        return false;
    }
    let mut i: usize = 0;
    while i < a.len()
        invariant
            0 <= i <= a@.len(),
            a@.len() == b@.len(),
            av == a@.map_values(|m: VertexAttrMarker| m@),
            bv == b@.map_values(|m: VertexAttrMarker| m@),
            forall|j: int| 0 <= j < i ==> av[j] == bv[j],
        decreases a@.len() - i,
    {
        if a[i].slot != b[i].slot {
            proof {
                assert(av[i as int].0 != bv[i as int].0);
            }
            return false;
        }
        if !formats_eq(&a[i].formats, &b[i].formats) {
            proof {
                assert(av[i as int].1 != bv[i as int].1);
            }
            return false;
        }
        i = i + 1;
    }
    proof {
        assert(av =~= bv);
    }
    true
}

} // verus!
