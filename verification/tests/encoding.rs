use std::collections::BTreeMap;
use std::rc::Rc;
use std::sync::Arc;
use uniffi_meta::{Checksum, ChecksumHasher};

fn encode<T: Checksum + ?Sized>(value: &T) -> Vec<u8> {
    let mut state = ChecksumHasher::new();
    value.checksum(&mut state);
    state.as_bytes().to_vec()
}

#[test]
fn new_state_holds_no_bytes() {
    let state = ChecksumHasher::new();
    assert!(state.as_bytes().is_empty());
}

#[test]
fn writes_append_in_order() {
    let mut state = ChecksumHasher::new();
    state.write(&[1, 2]);
    state.write_u8(3);
    state.write(&[]);
    state.write_u64(0x0102_0304_0506_0708);
    state.write_len(9);
    assert_eq!(
        state.as_bytes(),
        &[1, 2, 3, 8, 7, 6, 5, 4, 3, 2, 1, 9, 0, 0, 0, 0, 0, 0, 0]
    );
}

#[test]
fn boolean_is_one_byte() {
    assert_eq!(encode(&true), vec![1]);
    assert_eq!(encode(&false), vec![0]);
}

#[test]
fn unsigned_integer_is_little_endian() {
    assert_eq!(encode(&0x0102_0304_0506_0708u64), vec![8, 7, 6, 5, 4, 3, 2, 1]);
    assert_eq!(encode(&0u64), vec![0; 8]);
    assert_eq!(encode(&u64::MAX), vec![0xff; 8]);
}

#[test]
fn signed_integer_is_twos_complement() {
    assert_eq!(encode(&-1i64), vec![0xff; 8]);
    assert_eq!(encode(&-2i64), vec![0xfe, 0xff, 0xff, 0xff, 0xff, 0xff, 0xff, 0xff]);
    assert_eq!(encode(&i64::MIN), vec![0, 0, 0, 0, 0, 0, 0, 0x80]);
    assert_eq!(encode(&258i64), vec![2, 1, 0, 0, 0, 0, 0, 0]);
}

#[test]
fn narrow_integers_are_widened() {
    assert_eq!(encode(&0xabcdu16), vec![0xcd, 0xab, 0, 0, 0, 0, 0, 0]);
    assert_eq!(encode(&0x0a0b_0c0du32), vec![0x0d, 0x0c, 0x0b, 0x0a, 0, 0, 0, 0]);
    assert_eq!(encode(&7u16), encode(&7u64));
    assert_eq!(encode(&7u32), encode(&7u64));
}

#[test]
fn text_ends_with_terminator() {
    assert_eq!(encode("ab"), vec![0x61, 0x62, 0xff]);
    assert_eq!(encode(""), vec![0xff]);
    assert_eq!(encode("\u{e9}"), vec![0xc3, 0xa9, 0xff]);
    assert_eq!(encode(&"ab".to_string()), vec![0x61, 0x62, 0xff]);
    assert_eq!(encode(&"ab"), vec![0x61, 0x62, 0xff]);
}

#[test]
fn text_of_wide_characters_is_utf8() {
    assert_eq!(encode("\u{20ac}"), vec![0xe2, 0x82, 0xac, 0xff]);
    assert_eq!(encode("\u{1f600}"), vec![0xf0, 0x9f, 0x98, 0x80, 0xff]);
    assert_eq!(encode("a\u{1f600}b"), vec![0x61, 0xf0, 0x9f, 0x98, 0x80, 0x62, 0xff]);
}

#[test]
fn state_can_be_read_and_written_on() {
    let mut state = ChecksumHasher::new();
    true.checksum(&mut state);
    let early = state.finish();
    assert_eq!(state.as_bytes(), &[1]);
    false.checksum(&mut state);
    assert_eq!(state.as_bytes(), &[1, 0]);
    assert_ne!(state.finish(), early);
}

#[test]
fn adjacent_texts_do_not_run_together() {
    let split_early = ("a".to_string(), "bc".to_string());
    let split_late = ("ab".to_string(), "c".to_string());
    assert_eq!(encode(&split_early), vec![0x61, 0xff, 0x62, 0x63, 0xff]);
    assert_eq!(encode(&split_late), vec![0x61, 0x62, 0xff, 0x63, 0xff]);
    assert_ne!(encode(&split_early), encode(&split_late));
}

#[test]
fn sequence_is_length_then_items() {
    let items: Vec<u64> = vec![3, 4];
    assert_eq!(
        encode(&items),
        vec![2, 0, 0, 0, 0, 0, 0, 0, 3, 0, 0, 0, 0, 0, 0, 0, 4, 0, 0, 0, 0, 0, 0, 0]
    );
    let none: Vec<bool> = Vec::new();
    assert_eq!(encode(&none), vec![0; 8]);
    assert_eq!(encode(&items[..]), encode(&items));
}

#[test]
fn sequences_of_same_concatenation_differ() {
    let one: Vec<String> = vec!["ab".to_string()];
    let two: Vec<String> = vec!["a".to_string(), "b".to_string()];
    assert_eq!(encode(&one), vec![1, 0, 0, 0, 0, 0, 0, 0, 0x61, 0x62, 0xff]);
    assert_eq!(encode(&two), vec![2, 0, 0, 0, 0, 0, 0, 0, 0x61, 0xff, 0x62, 0xff]);
    assert_ne!(uniffi_meta::checksum(&one), uniffi_meta::checksum(&two));
}

#[test]
fn nested_sequences_keep_their_structure() {
    let grouped: Vec<Vec<bool>> = vec![vec![true], vec![]];
    let regrouped: Vec<Vec<bool>> = vec![vec![], vec![true]];
    assert_eq!(
        encode(&grouped),
        vec![2, 0, 0, 0, 0, 0, 0, 0, 1, 0, 0, 0, 0, 0, 0, 0, 1, 0, 0, 0, 0, 0, 0, 0, 0]
    );
    assert_ne!(encode(&grouped), encode(&regrouped));
}

#[test]
fn optional_is_discriminant_then_value() {
    let absent: Option<bool> = None;
    assert_eq!(encode(&absent), vec![0; 8]);
    assert_eq!(encode(&Some(true)), vec![1, 0, 0, 0, 0, 0, 0, 0, 1]);
    assert_eq!(
        encode(&Some(5u64)),
        vec![1, 0, 0, 0, 0, 0, 0, 0, 5, 0, 0, 0, 0, 0, 0, 0]
    );
    assert_ne!(encode(&Some(0u64)), encode(&None::<u64>));
}

#[test]
fn boxed_value_adds_no_framing() {
    assert_eq!(encode(&Box::new(5u64)), encode(&5u64));
    assert_eq!(encode(&Box::new("x".to_string())), vec![0x78, 0xff]);
}

#[test]
fn shared_value_adds_no_framing() {
    assert_eq!(encode(&Rc::new(5u64)), encode(&5u64));
    assert_eq!(encode(&Arc::new(vec![true, false])), encode(&vec![true, false]));
    let shared = Arc::new("x".to_string());
    let again = Arc::clone(&shared);
    assert_eq!(encode(&shared), vec![0x78, 0xff]);
    assert_eq!(encode(&again), encode(&shared));
}

#[test]
fn pair_is_first_then_second() {
    assert_eq!(encode(&(true, 2u64)), vec![1, 2, 0, 0, 0, 0, 0, 0, 0]);
}

#[test]
fn map_is_length_then_entries_by_key() {
    let mut map: BTreeMap<u64, bool> = BTreeMap::new();
    map.insert(2, true);
    map.insert(1, false);
    assert_eq!(
        encode(&map),
        vec![2, 0, 0, 0, 0, 0, 0, 0, 1, 0, 0, 0, 0, 0, 0, 0, 0, 2, 0, 0, 0, 0, 0, 0, 0, 1]
    );
    let empty: BTreeMap<u64, bool> = BTreeMap::new();
    assert_eq!(encode(&empty), vec![0; 8]);
}

#[test]
fn map_ignores_insertion_order() {
    let mut forward: BTreeMap<u64, String> = BTreeMap::new();
    forward.insert(1, "one".to_string());
    forward.insert(2, "two".to_string());
    let mut backward: BTreeMap<u64, String> = BTreeMap::new();
    backward.insert(2, "two".to_string());
    backward.insert(1, "one".to_string());
    assert_eq!(encode(&forward), encode(&backward));
    assert_eq!(uniffi_meta::checksum(&forward), uniffi_meta::checksum(&backward));
}

#[test]
fn map_keeps_last_value_of_a_key() {
    let mut map: BTreeMap<u64, bool> = BTreeMap::new();
    map.insert(7, false);
    map.insert(7, true);
    assert_eq!(encode(&map), vec![1, 0, 0, 0, 0, 0, 0, 0, 7, 0, 0, 0, 0, 0, 0, 0, 1]);
}
