//! Pipeline configuration resolution and layout-tag identity.

use r3_core::gpu::TexFormat;
use r3_core::pipeline::CullFace;
use r3_core::pipeline::DepthCompare;
use r3_core::pipeline::DepthConfig;
use r3_core::pipeline::LayoutTag;
use r3_core::pipeline::MultisampleConfig;
use r3_core::pipeline::PrimitiveConfig;
use r3_core::pipeline::ShaderConfig;
use r3_core::pipeline::Topology;
use r3_core::pipeline::entry_or;
use r3_core::pipeline::label_of;
use r3_core::schema::BindingEntry;
use r3_core::schema::BindingKind;
use r3_core::schema::Stages;
use r3_core::vertex::InstanceRequirements;
use r3_core::vertex::VertexAttrMarker;
use r3_core::vertex::VertexFormat;
use r3_core::vertex::VertexRequirements;

#[test]
fn config_defaults_are_the_documented_ones() {
    let resolved = ShaderConfig::default().resolve();
    assert_eq!(
        resolved.primitive,
        PrimitiveConfig { topology: Topology::TriangleList, ccw_front_face: true, cull: CullFace::Back }
    );
    assert_eq!(
        resolved.depth_stencil,
        Some(DepthConfig {
            format: TexFormat::Depth32Float,
            depth_write_enabled: true,
            compare: DepthCompare::Less,
        })
    );
    assert_eq!(resolved.multisample, MultisampleConfig { count: 1, alpha_to_coverage: false });
}

#[test]
fn config_overrides_are_taken_as_given() {
    let cfg = ShaderConfig {
        label: Some(String::from("lines")),
        primitive: Some(PrimitiveConfig {
            topology: Topology::LineStrip,
            ccw_front_face: false,
            cull: CullFace::Off,
        }),
        depth_stencil: Some(None),
        multisample: Some(MultisampleConfig { count: 4, alpha_to_coverage: true }),
        multiview: None,
        vertex_entry: Some(String::from("main_vs")),
        fragment_entry: None,
    };
    let resolved = cfg.resolve();
    assert_eq!(resolved.primitive.topology, Topology::LineStrip);
    assert!(!resolved.primitive.ccw_front_face);
    assert_eq!(resolved.primitive.cull, CullFace::Off);
    assert_eq!(resolved.depth_stencil, None);
    assert_eq!(resolved.multisample.count, 4);
    assert_eq!(entry_or(&cfg.vertex_entry, "vs"), "main_vs");
    assert_eq!(entry_or(&cfg.fragment_entry, "fs"), "fs");
    assert_eq!(label_of(&cfg.label), Some("lines"));
    assert_eq!(label_of(&None), None::<&str>);
}

fn sample_tag(format: TexFormat) -> LayoutTag {
    LayoutTag {
        schemas: vec![vec![BindingEntry {
            slot: 0,
            visibility: Stages::vertex_only(),
            kind: BindingKind::Uniform,
            count: None,
        }]],
        vreq: VertexRequirements {
            markers: vec![VertexAttrMarker { slot: 0, formats: vec![VertexFormat::Float32x3] }],
        },
        ireq: InstanceRequirements { markers: Vec::new() },
        format,
    }
}

#[test]
fn layout_tags_match_exactly_on_their_identity() {
    let a = sample_tag(TexFormat::Bgra8UnormSrgb);
    let b = sample_tag(TexFormat::Bgra8UnormSrgb);
    let c = sample_tag(TexFormat::Rgba16Float);
    assert!(a.matches(&b));
    assert!(!a.matches(&c));

    let copy = a.duplicate();
    assert!(copy.matches(&a));

    let mut different_slot = sample_tag(TexFormat::Bgra8UnormSrgb);
    different_slot.vreq.markers[0].slot = 1;
    assert!(!a.matches(&different_slot));

    let mut different_schema = sample_tag(TexFormat::Bgra8UnormSrgb);
    different_schema.schemas[0][0].slot = 3;
    assert!(!a.matches(&different_schema));
}
