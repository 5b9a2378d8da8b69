//! Vertex layout composition: generated attribute arrays against
//! hand-written ones with explicit offsets and locations.

use r3_core::vertex::AttributeEntry;
use r3_core::vertex::BufferLayout;
use r3_core::vertex::InstanceRequirements;
use r3_core::vertex::StepMode;
use r3_core::vertex::TaggedAttr;
use r3_core::vertex::VertexAttr;
use r3_core::vertex::VertexFormat;
use r3_core::vertex::VertexRequirements;
use r3_core::vertex::compose_layout;

fn attr(formats: &[VertexFormat]) -> VertexAttr {
    VertexAttr { formats: formats.to_vec() }
}

fn tagged(formats: &[VertexFormat], step: StepMode) -> TaggedAttr {
    TaggedAttr { schema: attr(formats), step }
}

fn layouts_equal(a: &[BufferLayout], b: &[BufferLayout]) -> bool {
    if a.len() != b.len() {
        return false;
    }
    for (x, y) in a.iter().zip(b.iter()) {
        if x.array_stride != y.array_stride {
            return false;
        }
        if x.step_mode != y.step_mode {
            return false;
        }
        if x.attributes != y.attributes {
            return false;
        }
    }
    true
}

#[test]
fn check_layout() {
    // The composed layout of vertex {f32x3, f32x4}, instance {f32x2, f32},
    // vertex {f32} must equal the one written out by hand with explicit
    // location offsets 0, 2 and 4.
    let parts = vec![
        tagged(&[VertexFormat::Float32x3, VertexFormat::Float32x4], StepMode::Vertex),
        tagged(&[VertexFormat::Float32x2, VertexFormat::Float32], StepMode::Instance),
        tagged(&[VertexFormat::Float32], StepMode::Vertex),
    ];
    let composed = compose_layout(&parts);

    let raw = vec![
        BufferLayout {
            array_stride: 28,
            step_mode: StepMode::Vertex,
            attributes: vec![
                AttributeEntry { format: VertexFormat::Float32x3, offset: 0, shader_location: 0 },
                AttributeEntry { format: VertexFormat::Float32x4, offset: 12, shader_location: 1 },
            ],
        },
        BufferLayout {
            array_stride: 12,
            step_mode: StepMode::Instance,
            attributes: vec![
                AttributeEntry { format: VertexFormat::Float32x2, offset: 0, shader_location: 2 },
                AttributeEntry { format: VertexFormat::Float32, offset: 8, shader_location: 3 },
            ],
        },
        BufferLayout {
            array_stride: 4,
            step_mode: StepMode::Vertex,
            attributes: vec![
                AttributeEntry { format: VertexFormat::Float32, offset: 0, shader_location: 4 },
            ],
        },
    ];

    assert!(layouts_equal(&composed, &raw));
}

#[test]
fn composed_pair_matches_handwritten() {
    // A vertex struct {pos: f32x3, color: f32x4} at locations 0 and 1 and
    // an instance struct {pos: f32x2, rot: f32} at locations 2 and 3.
    let parts = vec![
        tagged(&[VertexFormat::Float32x3, VertexFormat::Float32x4], StepMode::Vertex),
        tagged(&[VertexFormat::Float32x2, VertexFormat::Float32], StepMode::Instance),
    ];
    let composed = compose_layout(&parts);

    let handwritten = vec![
        BufferLayout {
            array_stride: 28,
            step_mode: StepMode::Vertex,
            attributes: vec![
                AttributeEntry { format: VertexFormat::Float32x3, offset: 0, shader_location: 0 },
                AttributeEntry { format: VertexFormat::Float32x4, offset: 12, shader_location: 1 },
            ],
        },
        BufferLayout {
            array_stride: 12,
            step_mode: StepMode::Instance,
            attributes: vec![
                AttributeEntry { format: VertexFormat::Float32x2, offset: 0, shader_location: 2 },
                AttributeEntry { format: VertexFormat::Float32, offset: 8, shader_location: 3 },
            ],
        },
    ];

    assert!(layouts_equal(&composed, &handwritten));
}

#[test]
fn empty_layout_composes_to_nothing() {
    let parts: Vec<TaggedAttr> = Vec::new();
    let composed = compose_layout(&parts);
    assert!(composed.is_empty());
}

#[test]
fn format_sizes() {
    assert_eq!(VertexFormat::Float32.byte_size(), 4);
    assert_eq!(VertexFormat::Float32x2.byte_size(), 8);
    assert_eq!(VertexFormat::Float32x3.byte_size(), 12);
    assert_eq!(VertexFormat::Float32x4.byte_size(), 16);
    assert_eq!(VertexFormat::Uint32.byte_size(), 4);
}

#[test]
fn requirements_take_buffer_slots_by_step_mode() {
    let parts = vec![
        tagged(&[VertexFormat::Float32x3, VertexFormat::Float32x4], StepMode::Vertex),
        tagged(&[VertexFormat::Float32x2, VertexFormat::Float32], StepMode::Instance),
        tagged(&[VertexFormat::Float32], StepMode::Vertex),
    ];
    let vreq = VertexRequirements::of_layout(&parts);
    let slots: Vec<u32> = vreq.markers.iter().map(|m| m.slot).collect();
    assert_eq!(slots, vec![0, 2]);
    assert_eq!(vreq.markers[0].formats, vec![
        VertexFormat::Float32x3,
        VertexFormat::Float32x4,
    ]);
    assert_eq!(vreq.markers[1].formats, vec![VertexFormat::Float32]);

    let ireq = InstanceRequirements::of_layout(&parts);
    let islots: Vec<u32> = ireq.markers.iter().map(|m| m.slot).collect();
    assert_eq!(islots, vec![1]);
    assert_eq!(ireq.markers[0].formats, vec![
        VertexFormat::Float32x2,
        VertexFormat::Float32,
    ]);
}

#[test]
fn requirements_matching_is_tag_equality() {
    let parts_a = vec![tagged(&[VertexFormat::Float32x3], StepMode::Vertex)];
    let parts_b = vec![tagged(&[VertexFormat::Float32x3], StepMode::Vertex)];
    let parts_c = vec![tagged(&[VertexFormat::Float32x4], StepMode::Vertex)];
    let a = VertexRequirements::of_layout(&parts_a);
    let b = VertexRequirements::of_layout(&parts_b);
    let c = VertexRequirements::of_layout(&parts_c);
    assert!(a.matches(&b));
    assert!(!a.matches(&c));
    assert!(!a.matches(&VertexRequirements::none()));
}
