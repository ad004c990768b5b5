//! What holds of the canonical encoding and of the checksum, whatever the
//! values.

use crate::encoding::{lemma_u64_prefix_free, list_encoding, seq_encoding, Checksum};
use crate::hasher::{checksum_of, siphash13};
use crate::literal::{lemma_literal_prefix_free, literal_encoding, SpecLiteralMetadata};
use crate::record::RecordMetadata;
use crate::types::SpecType;
use std::collections::BTreeMap;
use vstd::prelude::*;

verus! {

/// The checksum that [`crate::encoding::checksum`] returns for a value.
pub open spec fn spec_checksum<T: Checksum>(val: &T) -> u16 {
    checksum_of(T::encoding(val.deep_view()))
}

/// Two values with the same content have the same checksum, however and
/// wherever they were built.
pub proof fn lemma_checksum_deterministic<T: Checksum>(a: &T, b: &T)
    requires
        a.deep_view() == b.deep_view(),
    ensures
        spec_checksum(a) == spec_checksum(b),
{
}

/// Two values have the same encoding exactly when they have the same content.
pub proof fn lemma_encoding_injective<T: Checksum>(a: &T, b: &T)
    ensures
        T::encoding(a.deep_view()) == T::encoding(b.deep_view()) <==> a.deep_view()
            == b.deep_view(),
{
    if T::encoding(a.deep_view()) == T::encoding(b.deep_view()) {
        T::lemma_prefix_free(a, b, Seq::empty(), Seq::empty());
    }
}

/// Two values with different checksums differ in content: a checksum never
/// reports a drift that is not there.
pub proof fn lemma_different_checksums_different_content<T: Checksum>(a: &T, b: &T)
    requires
        spec_checksum(a) != spec_checksum(b),
    ensures
        a.deep_view() != b.deep_view(),
{
}

/// Two records that hold different sequences of fields, be it the same fields
/// in another order, have different encodings.
pub proof fn lemma_record_order_matters(a: &RecordMetadata, b: &RecordMetadata)
    requires
        a.deep_view().fields != b.deep_view().fields,
    ensures
        RecordMetadata::encoding(a.deep_view()) != RecordMetadata::encoding(b.deep_view()),
{
    lemma_encoding_injective(a, b);
}

/// A record with the fields `[x, y]` and one with the fields `[y, x]` have
/// different encodings, unless `x` and `y` are the same field.
pub proof fn lemma_swapped_fields_differ(a: &RecordMetadata, b: &RecordMetadata)
    requires
        a.fields@.len() == 2,
        b.fields@.len() == 2,
        a.fields@[0].deep_view() == b.fields@[1].deep_view(),
        a.fields@[1].deep_view() == b.fields@[0].deep_view(),
        a.fields@[0].deep_view() != a.fields@[1].deep_view(),
    ensures
        RecordMetadata::encoding(a.deep_view()) != RecordMetadata::encoding(b.deep_view()),
{
    assert(a.deep_view().fields[0] == a.fields@[0].deep_view());
    assert(b.deep_view().fields[0] == b.fields@[0].deep_view());
    lemma_record_order_matters(a, b);
}

/// Two sequences of different lengths have different encodings, whatever
/// their items are.
pub proof fn lemma_length_discriminates<T: Checksum>(a: Seq<T::V>, b: Seq<T::V>)
    requires
        a.len() <= u64::MAX,
        b.len() <= u64::MAX,
        a.len() != b.len(),
    ensures
        list_encoding::<T>(a) != list_encoding::<T>(b),
{
    if list_encoding::<T>(a) == list_encoding::<T>(b) {
        lemma_u64_prefix_free(
            a.len() as u64,
            b.len() as u64,
            seq_encoding::<T>(a),
            seq_encoding::<T>(b),
        );
    }
}

/// A map that got `k1` before `k2` and one that got `k2` before `k1` have the
/// same encoding: they feed a hash state the same bytes, and two states that
/// were alike before are alike after, and give the same digest and checksum.
pub proof fn lemma_insertion_order_is_irrelevant<V: Checksum>(
    m: Map<u64, V::V>,
    k1: u64,
    v1: V::V,
    k2: u64,
    v2: V::V,
    written: Seq<u8>,
)
    requires
        k1 != k2,
    ensures
        ({
            let forward = BTreeMap::<u64, V>::encoding(m.insert(k1, v1).insert(k2, v2));
            let backward = BTreeMap::<u64, V>::encoding(m.insert(k2, v2).insert(k1, v1));
            &&& forward == backward
            &&& written + forward == written + backward
            &&& siphash13(written + forward) == siphash13(written + backward)
            &&& checksum_of(forward) == checksum_of(backward)
        }),
{
    assert(m.insert(k1, v1).insert(k2, v2) =~= m.insert(k2, v2).insert(k1, v1));
}

/// Two maps with the same entries feed a hash state the same bytes, however
/// each of them was filled: two states that were alike before are alike
/// after, and give the same digest.
pub proof fn lemma_equal_maps_hash_alike<V: Checksum>(
    a: &BTreeMap<u64, V>,
    b: &BTreeMap<u64, V>,
    written: Seq<u8>,
)
    requires
        a.deep_view() == b.deep_view(),
    ensures
        written + BTreeMap::<u64, V>::encoding(a.deep_view()) == written + BTreeMap::<
            u64,
            V,
        >::encoding(b.deep_view()),
        siphash13(written + BTreeMap::<u64, V>::encoding(a.deep_view())) == siphash13(
            written + BTreeMap::<u64, V>::encoding(b.deep_view()),
        ),
        spec_checksum(a) == spec_checksum(b),
{
}

/// A float literal is hashed as the text that was typed: two float literals
/// have the same encoding exactly when they have the same text and the same
/// type.
pub proof fn lemma_float_text_is_hashed_verbatim(
    text_a: Seq<char>,
    ty_a: SpecType,
    text_b: Seq<char>,
    ty_b: SpecType,
)
    ensures
        literal_encoding(SpecLiteralMetadata::Float(text_a, ty_a)) == literal_encoding(
            SpecLiteralMetadata::Float(text_b, ty_b),
        ) <==> text_a == text_b && ty_a == ty_b,
{
    let a = SpecLiteralMetadata::Float(text_a, ty_a);
    let b = SpecLiteralMetadata::Float(text_b, ty_b);
    if literal_encoding(a) == literal_encoding(b) {
        lemma_literal_prefix_free(a, b, Seq::empty(), Seq::empty());
    }
}

} // verus!
