//! Binding schema validation: slot uniqueness and declared order.

use r3_core::gpu::TexFormat;
use r3_core::schema::BindingEntry;
use r3_core::schema::BindingKind;
use r3_core::schema::BindingSchema;
use r3_core::schema::SchemaError;
use r3_core::schema::Stages;

fn entry(slot: u32, kind: BindingKind) -> BindingEntry {
    BindingEntry { slot, visibility: Stages::fragment_only(), kind, count: None }
}

#[test]
fn schema_keeps_declared_order() {
    let entries = vec![
        entry(2, BindingKind::Uniform),
        entry(0, BindingKind::Texture),
        entry(1, BindingKind::Sampler),
    ];
    let schema = BindingSchema::new(entries.clone()).unwrap();
    assert_eq!(schema.len(), 3);
    assert_eq!(*schema.entry(0), entries[0]);
    assert_eq!(*schema.entry(1), entries[1]);
    assert_eq!(*schema.entry(2), entries[2]);
}

#[test]
fn duplicate_slots_are_rejected() {
    let entries = vec![
        entry(0, BindingKind::Uniform),
        entry(1, BindingKind::Sampler),
        entry(0, BindingKind::Texture),
    ];
    match BindingSchema::new(entries) {
        Err(SchemaError::DuplicateSlot) => {},
        Ok(_) => panic!("a schema with two entries at slot zero must be rejected"),
    }
}

#[test]
fn empty_schema_is_accepted() {
    let schema = BindingSchema::new(Vec::new()).unwrap();
    assert_eq!(schema.len(), 0);
}

#[test]
fn storage_texture_keeps_its_format() {
    let entries = vec![entry(0, BindingKind::StorageTexture { format: TexFormat::Rgba16Float })];
    let schema = BindingSchema::new(entries).unwrap();
    assert_eq!(
        schema.entry(0).kind,
        BindingKind::StorageTexture { format: TexFormat::Rgba16Float }
    );
}
