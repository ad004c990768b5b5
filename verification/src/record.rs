//! Data declarations: records, enums and errors, and their fields.

use crate::encoding::{lemma_concat_assoc, lemma_u64_prefix_free, Checksum};
use crate::hasher::{u64_le_bytes, ChecksumHasher};
use crate::literal::{LiteralMetadata, SpecLiteralMetadata};
use crate::types::{SpecType, Type};
use vstd::prelude::*;

verus! {

/// A field of a record or of an enum variant.
#[derive(Clone, Debug, PartialEq, Eq, PartialOrd, Ord)]
pub struct FieldMetadata {
    pub name: String,
    pub ty: Type,
    pub default: Option<LiteralMetadata>,
}

/// The logical content of a [`FieldMetadata`].
pub struct SpecFieldMetadata {
    pub name: Seq<char>,
    pub ty: SpecType,
    pub default: Option<SpecLiteralMetadata>,
}

impl DeepView for FieldMetadata {
    type V = SpecFieldMetadata;

    open spec fn deep_view(&self) -> SpecFieldMetadata {
        SpecFieldMetadata {
            name: self.name.deep_view(),
            ty: self.ty.deep_view(),
            default: self.default.deep_view(),
        }
    }
}

/// A field is its fields in declaration order.
impl Checksum for FieldMetadata {
    open spec fn encoding(v: SpecFieldMetadata) -> Seq<u8> {
        String::encoding(v.name) + Type::encoding(v.ty)
            + Option::<LiteralMetadata>::encoding(v.default)
    }

    fn checksum(&self, state: &mut ChecksumHasher) {
        self.name.checksum(state);
        self.ty.checksum(state);
        self.default.checksum(state);
        proof {
            let v = self.deep_view();
            let start = old(state)@;
            let upto_name = String::encoding(v.name);
            lemma_concat_assoc(start, upto_name, Type::encoding(v.ty));
            let upto_ty = upto_name + Type::encoding(v.ty);
            lemma_concat_assoc(start, upto_ty, Option::<LiteralMetadata>::encoding(v.default));
        }
    }

    proof fn lemma_prefix_free(a: &Self, b: &Self, rest_a: Seq<u8>, rest_b: Seq<u8>) {
        let va = a.deep_view();
        let vb = b.deep_view();
        let upto_name_a = String::encoding(va.name);
        let upto_name_b = String::encoding(vb.name);
        let upto_ty_a = upto_name_a + Type::encoding(va.ty);
        let upto_ty_b = upto_name_b + Type::encoding(vb.ty);
        let after_ty_a = Option::<LiteralMetadata>::encoding(va.default) + rest_a;
        lemma_concat_assoc(upto_ty_a, Option::<LiteralMetadata>::encoding(va.default), rest_a);
        let after_ty_b = Option::<LiteralMetadata>::encoding(vb.default) + rest_b;
        lemma_concat_assoc(upto_ty_b, Option::<LiteralMetadata>::encoding(vb.default), rest_b);
        let after_name_a = Type::encoding(va.ty) + after_ty_a;
        lemma_concat_assoc(upto_name_a, Type::encoding(va.ty), after_ty_a);
        let after_name_b = Type::encoding(vb.ty) + after_ty_b;
        lemma_concat_assoc(upto_name_b, Type::encoding(vb.ty), after_ty_b);
        String::lemma_prefix_free(&a.name, &b.name, after_name_a, after_name_b);
        Type::lemma_prefix_free(&a.ty, &b.ty, after_ty_a, after_ty_b);
        Option::<LiteralMetadata>::lemma_prefix_free(&a.default, &b.default, rest_a, rest_b);
    }
}

/// A record. The order of its fields is part of the contract.
#[derive(Clone, Debug, PartialEq, Eq, PartialOrd, Ord)]
pub struct RecordMetadata {
    pub mod_path: String,
    pub name: String,
    pub fields: Vec<FieldMetadata>,
}

/// The logical content of a [`RecordMetadata`].
pub struct SpecRecordMetadata {
    pub mod_path: Seq<char>,
    pub name: Seq<char>,
    pub fields: Seq<SpecFieldMetadata>,
}

impl DeepView for RecordMetadata {
    type V = SpecRecordMetadata;

    open spec fn deep_view(&self) -> SpecRecordMetadata {
        SpecRecordMetadata {
            mod_path: self.mod_path.deep_view(),
            name: self.name.deep_view(),
            fields: self.fields.deep_view(),
        }
    }
}

/// A record is its path, its name, and its fields in the order in which they
/// were declared.
impl Checksum for RecordMetadata {
    open spec fn encoding(v: SpecRecordMetadata) -> Seq<u8> {
        String::encoding(v.mod_path) + String::encoding(v.name)
            + Vec::<FieldMetadata>::encoding(v.fields)
    }

    fn checksum(&self, state: &mut ChecksumHasher) {
        self.mod_path.checksum(state);
        self.name.checksum(state);
        self.fields.checksum(state);
        proof {
            let v = self.deep_view();
            let start = old(state)@;
            let upto_mod_path = String::encoding(v.mod_path);
            lemma_concat_assoc(start, upto_mod_path, String::encoding(v.name));
            let upto_name = upto_mod_path + String::encoding(v.name);
            lemma_concat_assoc(start, upto_name, Vec::<FieldMetadata>::encoding(v.fields));
        }
    }

    proof fn lemma_prefix_free(a: &Self, b: &Self, rest_a: Seq<u8>, rest_b: Seq<u8>) {
        let va = a.deep_view();
        let vb = b.deep_view();
        let upto_mod_path_a = String::encoding(va.mod_path);
        let upto_mod_path_b = String::encoding(vb.mod_path);
        let upto_name_a = upto_mod_path_a + String::encoding(va.name);
        let upto_name_b = upto_mod_path_b + String::encoding(vb.name);
        let after_name_a = Vec::<FieldMetadata>::encoding(va.fields) + rest_a;
        lemma_concat_assoc(upto_name_a, Vec::<FieldMetadata>::encoding(va.fields), rest_a);
        let after_name_b = Vec::<FieldMetadata>::encoding(vb.fields) + rest_b;
        lemma_concat_assoc(upto_name_b, Vec::<FieldMetadata>::encoding(vb.fields), rest_b);
        let after_mod_path_a = String::encoding(va.name) + after_name_a;
        lemma_concat_assoc(upto_mod_path_a, String::encoding(va.name), after_name_a);
        let after_mod_path_b = String::encoding(vb.name) + after_name_b;
        lemma_concat_assoc(upto_mod_path_b, String::encoding(vb.name), after_name_b);
        String::lemma_prefix_free(&a.mod_path, &b.mod_path, after_mod_path_a, after_mod_path_b);
        String::lemma_prefix_free(&a.name, &b.name, after_name_a, after_name_b);
        Vec::<FieldMetadata>::lemma_prefix_free(&a.fields, &b.fields, rest_a, rest_b);
    }
}

/// A variant of an enum, with the fields it carries, if any.
#[derive(Clone, Debug, PartialEq, Eq, PartialOrd, Ord)]
pub struct VariantMetadata {
    pub name: String,
    pub fields: Vec<FieldMetadata>,
}

/// The logical content of a [`VariantMetadata`].
pub struct SpecVariantMetadata {
    pub name: Seq<char>,
    pub fields: Seq<SpecFieldMetadata>,
}

impl DeepView for VariantMetadata {
    type V = SpecVariantMetadata;

    open spec fn deep_view(&self) -> SpecVariantMetadata {
        SpecVariantMetadata {
            name: self.name.deep_view(),
            fields: self.fields.deep_view(),
        }
    }
}

/// A variant is its name and its fields in declaration order.
impl Checksum for VariantMetadata {
    open spec fn encoding(v: SpecVariantMetadata) -> Seq<u8> {
        String::encoding(v.name) + Vec::<FieldMetadata>::encoding(v.fields)
    }

    fn checksum(&self, state: &mut ChecksumHasher) {
        self.name.checksum(state);
        self.fields.checksum(state);
        proof {
            let v = self.deep_view();
            let start = old(state)@;
            let upto_name = String::encoding(v.name);
            lemma_concat_assoc(start, upto_name, Vec::<FieldMetadata>::encoding(v.fields));
        }
    }

    proof fn lemma_prefix_free(a: &Self, b: &Self, rest_a: Seq<u8>, rest_b: Seq<u8>) {
        let va = a.deep_view();
        let vb = b.deep_view();
        let upto_name_a = String::encoding(va.name);
        let upto_name_b = String::encoding(vb.name);
        let after_name_a = Vec::<FieldMetadata>::encoding(va.fields) + rest_a;
        lemma_concat_assoc(upto_name_a, Vec::<FieldMetadata>::encoding(va.fields), rest_a);
        let after_name_b = Vec::<FieldMetadata>::encoding(vb.fields) + rest_b;
        lemma_concat_assoc(upto_name_b, Vec::<FieldMetadata>::encoding(vb.fields), rest_b);
        String::lemma_prefix_free(&a.name, &b.name, after_name_a, after_name_b);
        Vec::<FieldMetadata>::lemma_prefix_free(&a.fields, &b.fields, rest_a, rest_b);
    }
}

/// An enum. The order of its variants is part of the contract.
#[derive(Clone, Debug, PartialEq, Eq, PartialOrd, Ord)]
pub struct EnumMetadata {
    pub mod_path: String,
    pub name: String,
    pub variants: Vec<VariantMetadata>,
}

/// The logical content of a [`EnumMetadata`].
pub struct SpecEnumMetadata {
    pub mod_path: Seq<char>,
    pub name: Seq<char>,
    pub variants: Seq<SpecVariantMetadata>,
}

impl DeepView for EnumMetadata {
    type V = SpecEnumMetadata;

    open spec fn deep_view(&self) -> SpecEnumMetadata {
        SpecEnumMetadata {
            mod_path: self.mod_path.deep_view(),
            name: self.name.deep_view(),
            variants: self.variants.deep_view(),
        }
    }
}

/// An enum is its path, its name, and its variants in the order in which they
/// were declared.
impl Checksum for EnumMetadata {
    open spec fn encoding(v: SpecEnumMetadata) -> Seq<u8> {
        String::encoding(v.mod_path) + String::encoding(v.name)
            + Vec::<VariantMetadata>::encoding(v.variants)
    }

    fn checksum(&self, state: &mut ChecksumHasher) {
        self.mod_path.checksum(state);
        self.name.checksum(state);
        self.variants.checksum(state);
        proof {
            let v = self.deep_view();
            let start = old(state)@;
            let upto_mod_path = String::encoding(v.mod_path);
            lemma_concat_assoc(start, upto_mod_path, String::encoding(v.name));
            let upto_name = upto_mod_path + String::encoding(v.name);
            lemma_concat_assoc(start, upto_name, Vec::<VariantMetadata>::encoding(v.variants));
        }
    }

    proof fn lemma_prefix_free(a: &Self, b: &Self, rest_a: Seq<u8>, rest_b: Seq<u8>) {
        let va = a.deep_view();
        let vb = b.deep_view();
        let upto_mod_path_a = String::encoding(va.mod_path);
        let upto_mod_path_b = String::encoding(vb.mod_path);
        let upto_name_a = upto_mod_path_a + String::encoding(va.name);
        let upto_name_b = upto_mod_path_b + String::encoding(vb.name);
        let after_name_a = Vec::<VariantMetadata>::encoding(va.variants) + rest_a;
        lemma_concat_assoc(upto_name_a, Vec::<VariantMetadata>::encoding(va.variants), rest_a);
        let after_name_b = Vec::<VariantMetadata>::encoding(vb.variants) + rest_b;
        lemma_concat_assoc(upto_name_b, Vec::<VariantMetadata>::encoding(vb.variants), rest_b);
        let after_mod_path_a = String::encoding(va.name) + after_name_a;
        lemma_concat_assoc(upto_mod_path_a, String::encoding(va.name), after_name_a);
        let after_mod_path_b = String::encoding(vb.name) + after_name_b;
        lemma_concat_assoc(upto_mod_path_b, String::encoding(vb.name), after_name_b);
        String::lemma_prefix_free(&a.mod_path, &b.mod_path, after_mod_path_a, after_mod_path_b);
        String::lemma_prefix_free(&a.name, &b.name, after_name_a, after_name_b);
        Vec::<VariantMetadata>::lemma_prefix_free(&a.variants, &b.variants, rest_a, rest_b);
    }
}

/// An error: an enum, and whether it is flat, that is, whether its variants
/// are message-only tags that carry no data.
#[derive(Clone, Debug, PartialEq, Eq, PartialOrd, Ord)]
pub enum ErrorMetadata {
    Enum { enum_: EnumMetadata, is_flat: bool },
}

/// The logical content of an [`ErrorMetadata`].
pub enum SpecErrorMetadata {
    Enum { enum_: SpecEnumMetadata, is_flat: bool },
}

impl DeepView for ErrorMetadata {
    type V = SpecErrorMetadata;

    open spec fn deep_view(&self) -> SpecErrorMetadata {
        match *self {
            ErrorMetadata::Enum { enum_, is_flat } => SpecErrorMetadata::Enum {
                enum_: enum_.deep_view(),
                is_flat,
            },
        }
    }
}

impl ErrorMetadata {
    /// The name of the enum that the error wraps.
    pub fn name(&self) -> (name: &String)
        ensures
            name@ == self.deep_view()->enum_.name,
    {
        match self {
            Self::Enum { enum_, .. } => &enum_.name,
        }
    }

    /// The module path of the enum that the error wraps.
    pub fn mod_path(&self) -> (path: &String)
        ensures
            path@ == self.deep_view()->enum_.mod_path,
    {
        match self {
            Self::Enum { enum_, .. } => &enum_.mod_path,
        }
    }
}

/// An error is the position of its variant, then the enum it wraps, then the
/// flag.
impl Checksum for ErrorMetadata {
    open spec fn encoding(v: SpecErrorMetadata) -> Seq<u8> {
        u64_le_bytes(0) + EnumMetadata::encoding(v->enum_) + bool::encoding(v->is_flat)
    }

    fn checksum(&self, state: &mut ChecksumHasher) {
        match self {
            ErrorMetadata::Enum { enum_, is_flat } => {
                state.write_u64(0);
                enum_.checksum(state);
                is_flat.checksum(state);
                proof {
                    let v = self.deep_view();
                    let start = old(state)@;
                    let upto_tag = u64_le_bytes(0);
                    lemma_concat_assoc(start, upto_tag, EnumMetadata::encoding(v->enum_));
                    let upto_enum = upto_tag + EnumMetadata::encoding(v->enum_);
                    lemma_concat_assoc(start, upto_enum, bool::encoding(v->is_flat));
                }
            },
        }
    }

    proof fn lemma_prefix_free(a: &Self, b: &Self, rest_a: Seq<u8>, rest_b: Seq<u8>) {
        let va = a.deep_view();
        let vb = b.deep_view();
        let upto_tag = u64_le_bytes(0);
        let upto_enum_a = upto_tag + EnumMetadata::encoding(va->enum_);
        let upto_enum_b = upto_tag + EnumMetadata::encoding(vb->enum_);
        let after_enum_a = bool::encoding(va->is_flat) + rest_a;
        let after_enum_b = bool::encoding(vb->is_flat) + rest_b;
        lemma_concat_assoc(upto_enum_a, bool::encoding(va->is_flat), rest_a);
        lemma_concat_assoc(upto_enum_b, bool::encoding(vb->is_flat), rest_b);
        let after_tag_a = EnumMetadata::encoding(va->enum_) + after_enum_a;
        let after_tag_b = EnumMetadata::encoding(vb->enum_) + after_enum_b;
        lemma_concat_assoc(upto_tag, EnumMetadata::encoding(va->enum_), after_enum_a);
        lemma_concat_assoc(upto_tag, EnumMetadata::encoding(vb->enum_), after_enum_b);
        lemma_u64_prefix_free(0, 0, after_tag_a, after_tag_b);
        match (a, b) {
            (
                ErrorMetadata::Enum { enum_: enum_a, is_flat: flat_a },
                ErrorMetadata::Enum { enum_: enum_b, is_flat: flat_b },
            ) => {
                EnumMetadata::lemma_prefix_free(enum_a, enum_b, after_enum_a, after_enum_b);
                bool::lemma_prefix_free(flat_a, flat_b, rest_a, rest_b);
            },
        }
    }
}

} // verus!
