use siphasher::sip::SipHasher13;
use std::hash::Hasher;
use uniffi_meta::hasher::truncate_digest;
use uniffi_meta::{checksum, Checksum, ChecksumHasher, FieldMetadata, RecordMetadata, Type};

fn point() -> RecordMetadata {
    RecordMetadata {
        mod_path: "geometry".to_string(),
        name: "Point".to_string(),
        fields: vec![
            FieldMetadata { name: "x".to_string(), ty: Type::Float64, default: None },
            FieldMetadata { name: "y".to_string(), ty: Type::Float64, default: None },
        ],
    }
}

#[test]
fn truncation_keeps_low_16_bits() {
    assert_eq!(truncate_digest(0), 0);
    assert_eq!(truncate_digest(0xffff), 0xffff);
    assert_eq!(truncate_digest(0x1_0000), 0);
    assert_eq!(truncate_digest(0x1234_5678_9abc_def0), 0xdef0);
    assert_eq!(truncate_digest(u64::MAX), 0xffff);
}

#[test]
fn checksum_is_truncated_digest_of_encoding() {
    let mut state = ChecksumHasher::new();
    point().checksum(&mut state);
    assert_eq!(checksum(&point()), truncate_digest(state.finish()));
}

#[test]
fn digest_is_siphash_1_3_with_zero_key() {
    let mut state = ChecksumHasher::new();
    state.write(b"hello");
    let mut reference = SipHasher13::new_with_keys(0, 0);
    reference.write(b"hello");
    assert_eq!(state.finish(), reference.finish());
    assert_ne!(state.finish(), 0x68656c6c6f);
}

#[test]
fn digest_of_nothing() {
    let state = ChecksumHasher::new();
    assert_eq!(state.finish(), SipHasher13::new().finish());
}

#[test]
fn digest_does_not_depend_on_how_writes_are_split() {
    let mut whole = ChecksumHasher::new();
    whole.write(&[1, 2, 3, 4, 5, 6, 7, 8, 9, 10, 11]);
    let mut pieces = ChecksumHasher::new();
    pieces.write(&[1, 2, 3]);
    pieces.write_u8(4);
    pieces.write(&[5, 6, 7, 8, 9]);
    pieces.write(&[]);
    pieces.write(&[10, 11]);
    assert_eq!(whole.finish(), pieces.finish());
}

#[test]
fn checksum_agrees_with_streaming_hasher() {
    let mut reference = SipHasher13::new();
    reference.write(b"geometry");
    reference.write_u8(0xff);
    reference.write(b"Point");
    reference.write_u8(0xff);
    reference.write(&2u64.to_le_bytes());
    for name in ["x", "y"] {
        reference.write(name.as_bytes());
        reference.write_u8(0xff);
        reference.write(&9u64.to_le_bytes());
        reference.write(&0u64.to_le_bytes());
    }
    assert_eq!(checksum(&point()), (reference.finish() & 0xffff) as u16);
}

#[test]
fn checksum_of_primitives_agrees_with_streaming_hasher() {
    let mut reference = SipHasher13::new();
    reference.write_u8(1);
    assert_eq!(checksum(&true), (reference.finish() & 0xffff) as u16);
    let mut reference = SipHasher13::new();
    reference.write(&42u64.to_le_bytes());
    assert_eq!(checksum(&42u64), (reference.finish() & 0xffff) as u16);
    let mut reference = SipHasher13::new();
    reference.write(&(-42i64).to_le_bytes());
    assert_eq!(checksum(&-42i64), (reference.finish() & 0xffff) as u16);
}

#[test]
fn equal_trees_built_apart_have_equal_checksums() {
    let first = point();
    let second = RecordMetadata {
        mod_path: ["geo", "metry"].concat(),
        name: String::from("Point"),
        fields: ["x", "y"]
            .iter()
            .map(|name| FieldMetadata { name: name.to_string(), ty: Type::Float64, default: None })
            .collect(),
    };
    assert_eq!(checksum(&first), checksum(&second));
    assert_eq!(checksum(&first), checksum(&first.clone()));
}

#[test]
fn point_with_swapped_fields_has_another_checksum() {
    let mut swapped = point();
    swapped.fields.reverse();
    assert_ne!(checksum(&point()), checksum(&swapped));
}
