//! Literal values, as they appear in default values of parameters and fields.

use crate::encoding::{
    lemma_concat_assoc, lemma_concat_empty, lemma_text_prefix_free, lemma_u64_prefix_free,
    text_encoding, Checksum,
};
use crate::hasher::{u64_le_bytes, ChecksumHasher};
use crate::types::{lemma_type_prefix_free, type_encoding, SpecType, Type};
use vstd::prelude::*;

verus! {

/// The radix in which an integer literal was written. It is kept so that the
/// literal can be rendered as it was typed. The variants stand in the order
/// of their bases, so that radices compare as their bases do.
#[derive(Debug, Clone, Copy, PartialEq, Eq, PartialOrd, Ord)]
pub enum Radix {
    Octal,
    Decimal,
    Hexadecimal,
}

impl DeepView for Radix {
    type V = Radix;

    open spec fn deep_view(&self) -> Radix {
        *self
    }
}

impl Radix {
    /// The base that the radix stands for.
    pub open spec fn spec_base(self) -> u64 {
        match self {
            Radix::Decimal => 10,
            Radix::Octal => 8,
            Radix::Hexadecimal => 16,
        }
    }

    /// The base that the radix stands for: 10, 8 or 16.
    pub fn base(&self) -> (base: u64)
        ensures
            base == self.spec_base(),
    {
        match self {
            Radix::Decimal => 10,
            Radix::Octal => 8,
            Radix::Hexadecimal => 16,
        }
    }
}

/// A radix is its base as a 64-bit integer.
impl Checksum for Radix {
    open spec fn encoding(v: Radix) -> Seq<u8> {
        u64_le_bytes(v.spec_base())
    }

    fn checksum(&self, state: &mut ChecksumHasher) {
        state.write_u64(self.base());
    }

    proof fn lemma_prefix_free(a: &Self, b: &Self, rest_a: Seq<u8>, rest_b: Seq<u8>) {
        lemma_u64_prefix_free(a.spec_base(), b.spec_base(), rest_a, rest_b);
    }
}

/// A literal value.
///
/// Integers are held in the widest representation, with the radix they were
/// written in and their declared type. A float is held as the text that was
/// typed, so that no precision is lost on the way.
#[derive(Clone, Debug, PartialEq, Eq, PartialOrd, Ord)]
pub enum LiteralMetadata {
    Boolean(bool),
    String(String),
    UInt(u64, Radix, Type),
    Int(i64, Radix, Type),
    Float(String, Type),
    Enum(String, Type),
    EmptySequence,
    EmptyMap,
    Null,
}

/// The logical content of a [`LiteralMetadata`].
pub enum SpecLiteralMetadata {
    Boolean(bool),
    String(Seq<char>),
    UInt(u64, Radix, SpecType),
    Int(i64, Radix, SpecType),
    Float(Seq<char>, SpecType),
    Enum(Seq<char>, SpecType),
    EmptySequence,
    EmptyMap,
    Null,
}

impl DeepView for LiteralMetadata {
    type V = SpecLiteralMetadata;

    open spec fn deep_view(&self) -> SpecLiteralMetadata {
        match *self {
            LiteralMetadata::Boolean(value) => SpecLiteralMetadata::Boolean(value),
            LiteralMetadata::String(text) => SpecLiteralMetadata::String(text@),
            LiteralMetadata::UInt(value, radix, ty) => SpecLiteralMetadata::UInt(
                value,
                radix,
                ty.deep_view(),
            ),
            LiteralMetadata::Int(value, radix, ty) => SpecLiteralMetadata::Int(
                value,
                radix,
                ty.deep_view(),
            ),
            LiteralMetadata::Float(text, ty) => SpecLiteralMetadata::Float(text@, ty.deep_view()),
            LiteralMetadata::Enum(case, ty) => SpecLiteralMetadata::Enum(case@, ty.deep_view()),
            LiteralMetadata::EmptySequence => SpecLiteralMetadata::EmptySequence,
            LiteralMetadata::EmptyMap => SpecLiteralMetadata::EmptyMap,
            LiteralMetadata::Null => SpecLiteralMetadata::Null,
        }
    }
}

/// The position of a literal's variant in the declaration.
pub open spec fn literal_tag(v: SpecLiteralMetadata) -> u64 {
    match v {
        SpecLiteralMetadata::Boolean(..) => 0,
        SpecLiteralMetadata::String(..) => 1,
        SpecLiteralMetadata::UInt(..) => 2,
        SpecLiteralMetadata::Int(..) => 3,
        SpecLiteralMetadata::Float(..) => 4,
        SpecLiteralMetadata::Enum(..) => 5,
        SpecLiteralMetadata::EmptySequence => 6,
        SpecLiteralMetadata::EmptyMap => 7,
        SpecLiteralMetadata::Null => 8,
    }
}

/// The encodings of the fields of a literal's variant, in declaration order.
pub open spec fn literal_fields_encoding(v: SpecLiteralMetadata) -> Seq<u8> {
    match v {
        SpecLiteralMetadata::Boolean(value) => bool::encoding(value),
        SpecLiteralMetadata::String(text) => text_encoding(text),
        SpecLiteralMetadata::UInt(value, radix, ty) => u64::encoding(value) + Radix::encoding(radix)
            + type_encoding(ty),
        SpecLiteralMetadata::Int(value, radix, ty) => i64::encoding(value) + Radix::encoding(radix)
            + type_encoding(ty),
        SpecLiteralMetadata::Float(text, ty) => text_encoding(text) + type_encoding(ty),
        SpecLiteralMetadata::Enum(case, ty) => text_encoding(case) + type_encoding(ty),
        _ => Seq::empty(),
    }
}

/// The encoding of a literal: the position of its variant, then the variant's
/// fields in declaration order.
pub open spec fn literal_encoding(v: SpecLiteralMetadata) -> Seq<u8> {
    u64_le_bytes(literal_tag(v)) + literal_fields_encoding(v)
}

/// The prefix-free law for an integer, its radix and its type.
proof fn lemma_integer_fields_prefix_free(
    value_a: u64,
    radix_a: Radix,
    ty_a: SpecType,
    value_b: u64,
    radix_b: Radix,
    ty_b: SpecType,
    rest_a: Seq<u8>,
    rest_b: Seq<u8>,
)
    requires
        u64_le_bytes(value_a) + Radix::encoding(radix_a) + type_encoding(ty_a) + rest_a
            == u64_le_bytes(value_b) + Radix::encoding(radix_b) + type_encoding(ty_b) + rest_b,
    ensures
        value_a == value_b,
        radix_a == radix_b,
        ty_a == ty_b,
        rest_a == rest_b,
{
    let t2a = type_encoding(ty_a) + rest_a;
    let t2b = type_encoding(ty_b) + rest_b;
    let t1a = Radix::encoding(radix_a) + t2a;
    let t1b = Radix::encoding(radix_b) + t2b;
    assert(u64_le_bytes(value_a) + Radix::encoding(radix_a) + type_encoding(ty_a) + rest_a
        =~= u64_le_bytes(value_a) + t1a);
    assert(u64_le_bytes(value_b) + Radix::encoding(radix_b) + type_encoding(ty_b) + rest_b
        =~= u64_le_bytes(value_b) + t1b);
    lemma_u64_prefix_free(value_a, value_b, t1a, t1b);
    Radix::lemma_prefix_free(&radix_a, &radix_b, t2a, t2b);
    lemma_type_prefix_free(ty_a, ty_b, rest_a, rest_b);
}

/// The prefix-free law for a text and a type.
proof fn lemma_typed_text_prefix_free(
    text_a: Seq<char>,
    ty_a: SpecType,
    text_b: Seq<char>,
    ty_b: SpecType,
    rest_a: Seq<u8>,
    rest_b: Seq<u8>,
)
    requires
        text_encoding(text_a) + type_encoding(ty_a) + rest_a == text_encoding(text_b)
            + type_encoding(ty_b) + rest_b,
    ensures
        text_a == text_b,
        ty_a == ty_b,
        rest_a == rest_b,
{
    let t1a = type_encoding(ty_a) + rest_a;
    let t1b = type_encoding(ty_b) + rest_b;
    assert(text_encoding(text_a) + type_encoding(ty_a) + rest_a =~= text_encoding(text_a) + t1a);
    assert(text_encoding(text_b) + type_encoding(ty_b) + rest_b =~= text_encoding(text_b) + t1b);
    lemma_text_prefix_free(text_a, text_b, t1a, t1b);
    lemma_type_prefix_free(ty_a, ty_b, rest_a, rest_b);
}

/// Two streams that agree and start with encoded literals agree on the
/// variant and on what follows the variant's position.
proof fn lemma_literal_tag_prefix_free(
    va: SpecLiteralMetadata,
    vb: SpecLiteralMetadata,
    rest_a: Seq<u8>,
    rest_b: Seq<u8>,
)
    requires
        literal_encoding(va) + rest_a == literal_encoding(vb) + rest_b,
    ensures
        literal_tag(va) == literal_tag(vb),
        literal_fields_encoding(va) + rest_a == literal_fields_encoding(vb) + rest_b,
{
    let fa = literal_fields_encoding(va) + rest_a;
    let fb = literal_fields_encoding(vb) + rest_b;
    assert(literal_encoding(va) + rest_a =~= u64_le_bytes(literal_tag(va)) + fa);
    assert(literal_encoding(vb) + rest_b =~= u64_le_bytes(literal_tag(vb)) + fb);
    lemma_u64_prefix_free(literal_tag(va), literal_tag(vb), fa, fb);
}

/// The prefix-free law for literals.
pub proof fn lemma_literal_prefix_free(
    va: SpecLiteralMetadata,
    vb: SpecLiteralMetadata,
    rest_a: Seq<u8>,
    rest_b: Seq<u8>,
)
    requires
        literal_encoding(va) + rest_a == literal_encoding(vb) + rest_b,
    ensures
        va == vb,
        rest_a == rest_b,
{
    lemma_literal_tag_prefix_free(va, vb, rest_a, rest_b);
    match va {
        SpecLiteralMetadata::Boolean(value) => {
            bool::lemma_prefix_free(&value, &vb->Boolean_0, rest_a, rest_b);
        },
        SpecLiteralMetadata::String(text) => {
            lemma_text_prefix_free(text, vb->String_0, rest_a, rest_b);
        },
        SpecLiteralMetadata::UInt(value, radix, ty) => {
            lemma_integer_fields_prefix_free(
                value,
                radix,
                ty,
                vb->UInt_0,
                vb->UInt_1,
                vb->UInt_2,
                rest_a,
                rest_b,
            );
        },
        SpecLiteralMetadata::Int(value, radix, ty) => {
            let other = vb->Int_0;
            lemma_integer_fields_prefix_free(
                value as u64,
                radix,
                ty,
                other as u64,
                vb->Int_1,
                vb->Int_2,
                rest_a,
                rest_b,
            );
            assert(value == other) by (bit_vector)
                requires
                    value as u64 == other as u64,
            ;
        },
        SpecLiteralMetadata::Float(text, ty) => {
            lemma_typed_text_prefix_free(text, ty, vb->Float_0, vb->Float_1, rest_a, rest_b);
        },
        SpecLiteralMetadata::Enum(case, ty) => {
            lemma_typed_text_prefix_free(case, ty, vb->Enum_0, vb->Enum_1, rest_a, rest_b);
        },
        _ => {
            assert(literal_fields_encoding(va) + rest_a =~= rest_a);
            assert(literal_fields_encoding(vb) + rest_b =~= rest_b);
        },
    }
}

/// A literal is the position of its variant, then the variant's fields in
/// declaration order.
impl Checksum for LiteralMetadata {
    open spec fn encoding(v: SpecLiteralMetadata) -> Seq<u8> {
        literal_encoding(v)
    }

    fn checksum(&self, state: &mut ChecksumHasher) {
        let ghost start = state@;
        let ghost v = self.deep_view();
        let ghost tagged = start + u64_le_bytes(literal_tag(v));
        match self {
            LiteralMetadata::Boolean(value) => {
                state.write_u64(0);
                value.checksum(state);
            },
            LiteralMetadata::String(text) => {
                state.write_u64(1);
                text.checksum(state);
            },
            LiteralMetadata::UInt(value, radix, ty) => {
                state.write_u64(2);
                value.checksum(state);
                radix.checksum(state);
                ty.checksum(state);
                proof {
                    let upto_radix = u64::encoding(*value) + Radix::encoding(*radix);
                    lemma_concat_assoc(tagged, u64::encoding(*value), Radix::encoding(*radix));
                    lemma_concat_assoc(tagged, upto_radix, type_encoding(ty.deep_view()));
                }
            },
            LiteralMetadata::Int(value, radix, ty) => {
                state.write_u64(3);
                value.checksum(state);
                radix.checksum(state);
                ty.checksum(state);
                proof {
                    let upto_radix = i64::encoding(*value) + Radix::encoding(*radix);
                    lemma_concat_assoc(tagged, i64::encoding(*value), Radix::encoding(*radix));
                    lemma_concat_assoc(tagged, upto_radix, type_encoding(ty.deep_view()));
                }
            },
            LiteralMetadata::Float(text, ty) => {
                state.write_u64(4);
                text.checksum(state);
                ty.checksum(state);
                proof {
                    lemma_concat_assoc(tagged, text_encoding(text@), type_encoding(ty.deep_view()));
                }
            },
            LiteralMetadata::Enum(case, ty) => {
                state.write_u64(5);
                case.checksum(state);
                ty.checksum(state);
                proof {
                    lemma_concat_assoc(tagged, text_encoding(case@), type_encoding(ty.deep_view()));
                }
            },
            LiteralMetadata::EmptySequence => state.write_u64(6),
            LiteralMetadata::EmptyMap => state.write_u64(7),
            LiteralMetadata::Null => state.write_u64(8),
        }
        proof {
            lemma_concat_empty(tagged);
            assert(state@ == tagged + literal_fields_encoding(v));
            lemma_concat_assoc(start, u64_le_bytes(literal_tag(v)), literal_fields_encoding(v));
        }
    }

    proof fn lemma_prefix_free(a: &Self, b: &Self, rest_a: Seq<u8>, rest_b: Seq<u8>) {
        lemma_literal_prefix_free(a.deep_view(), b.deep_view(), rest_a, rest_b);
    }
}

} // verus!
