//! The types that a declaration can mention.

use crate::encoding::{
    lemma_concat_assoc, lemma_concat_empty, lemma_qualified_name_prefix_free,
    lemma_text_prefix_free, lemma_u64_prefix_free, text_encoding, Checksum,
};
use crate::hasher::{u64_le_bytes, ChecksumHasher};
use vstd::prelude::*;

verus! {

/// How an object is implemented.
#[derive(Debug, Copy, Clone, Eq, PartialEq, Ord, PartialOrd)]
pub enum ObjectImpl {
    Struct,
    Trait,
}

impl DeepView for ObjectImpl {
    type V = ObjectImpl;

    open spec fn deep_view(&self) -> ObjectImpl {
        *self
    }
}

impl ObjectImpl {
    /// The position of the variant in the declaration.
    pub open spec fn tag(self) -> u64 {
        match self {
            ObjectImpl::Struct => 0,
            ObjectImpl::Trait => 1,
        }
    }
}

/// An implementation kind is the position of its variant.
impl Checksum for ObjectImpl {
    open spec fn encoding(v: ObjectImpl) -> Seq<u8> {
        u64_le_bytes(v.tag())
    }

    fn checksum(&self, state: &mut ChecksumHasher) {
        match self {
            ObjectImpl::Struct => state.write_u64(0),
            ObjectImpl::Trait => state.write_u64(1),
        }
    }

    proof fn lemma_prefix_free(a: &Self, b: &Self, rest_a: Seq<u8>, rest_b: Seq<u8>) {
        lemma_u64_prefix_free(a.tag(), b.tag(), rest_a, rest_b);
    }
}

/// What kind of thing a type from another component is.
#[derive(Debug, Copy, Clone, Eq, PartialEq, Ord, PartialOrd)]
pub enum ExternalKind {
    Interface,
    DataClass,
}

impl DeepView for ExternalKind {
    type V = ExternalKind;

    open spec fn deep_view(&self) -> ExternalKind {
        *self
    }
}

impl ExternalKind {
    /// The position of the variant in the declaration.
    pub open spec fn tag(self) -> u64 {
        match self {
            ExternalKind::Interface => 0,
            ExternalKind::DataClass => 1,
        }
    }
}

/// An external kind is the position of its variant.
impl Checksum for ExternalKind {
    open spec fn encoding(v: ExternalKind) -> Seq<u8> {
        u64_le_bytes(v.tag())
    }

    fn checksum(&self, state: &mut ChecksumHasher) {
        match self {
            ExternalKind::Interface => state.write_u64(0),
            ExternalKind::DataClass => state.write_u64(1),
        }
    }

    proof fn lemma_prefix_free(a: &Self, b: &Self, rest_a: Seq<u8>, rest_b: Seq<u8>) {
        lemma_u64_prefix_free(a.tag(), b.tag(), rest_a, rest_b);
    }
}

/// A type as it appears in a declaration. User-defined types are known by
/// module path and name only.
#[derive(Debug, Eq, PartialEq, Ord, PartialOrd)]
pub enum Type {
    UInt8,
    Int8,
    UInt16,
    Int16,
    UInt32,
    Int32,
    UInt64,
    Int64,
    Float32,
    Float64,
    Boolean,
    String,
    Bytes,
    Timestamp,
    Duration,
    Object { mod_path: String, name: String, imp: ObjectImpl },
    Record { mod_path: String, name: String },
    Enum { mod_path: String, name: String },
    CallbackInterface { mod_path: String, name: String },
    Optional { inner_type: Box<Type> },
    Sequence { inner_type: Box<Type> },
    Mapping { key_type: Box<Type>, value_type: Box<Type> },
    External {
        mod_path: String,
        name: String,
        namespace: String,
        kind: ExternalKind,
        tagged: bool,
    },
    Custom { mod_path: String, name: String, builtin: Box<Type> },
}

/// The logical content of a [`Type`].
pub enum SpecType {
    UInt8,
    Int8,
    UInt16,
    Int16,
    UInt32,
    Int32,
    UInt64,
    Int64,
    Float32,
    Float64,
    Boolean,
    String,
    Bytes,
    Timestamp,
    Duration,
    Object { mod_path: Seq<char>, name: Seq<char>, imp: ObjectImpl },
    Record { mod_path: Seq<char>, name: Seq<char> },
    Enum { mod_path: Seq<char>, name: Seq<char> },
    CallbackInterface { mod_path: Seq<char>, name: Seq<char> },
    Optional { inner_type: Box<SpecType> },
    Sequence { inner_type: Box<SpecType> },
    Mapping { key_type: Box<SpecType>, value_type: Box<SpecType> },
    External {
        mod_path: Seq<char>,
        name: Seq<char>,
        namespace: Seq<char>,
        kind: ExternalKind,
        tagged: bool,
    },
    Custom { mod_path: Seq<char>, name: Seq<char>, builtin: Box<SpecType> },
}

/// The logical content of `t`.
pub open spec fn spec_type(t: Type) -> SpecType
    decreases t,
{
    match t {
        Type::UInt8 => SpecType::UInt8,
        Type::Int8 => SpecType::Int8,
        Type::UInt16 => SpecType::UInt16,
        Type::Int16 => SpecType::Int16,
        Type::UInt32 => SpecType::UInt32,
        Type::Int32 => SpecType::Int32,
        Type::UInt64 => SpecType::UInt64,
        Type::Int64 => SpecType::Int64,
        Type::Float32 => SpecType::Float32,
        Type::Float64 => SpecType::Float64,
        Type::Boolean => SpecType::Boolean,
        Type::String => SpecType::String,
        Type::Bytes => SpecType::Bytes,
        Type::Timestamp => SpecType::Timestamp,
        Type::Duration => SpecType::Duration,
        Type::Object { mod_path, name, imp } => SpecType::Object {
            mod_path: mod_path@,
            name: name@,
            imp,
        },
        Type::Record { mod_path, name } => SpecType::Record {
            mod_path: mod_path@,
            name: name@,
        },
        Type::Enum { mod_path, name } => SpecType::Enum {
            mod_path: mod_path@,
            name: name@,
        },
        Type::CallbackInterface { mod_path, name } => SpecType::CallbackInterface {
            mod_path: mod_path@,
            name: name@,
        },
        Type::Optional { inner_type } => SpecType::Optional {
            inner_type: Box::new(spec_type(*inner_type)),
        },
        Type::Sequence { inner_type } => SpecType::Sequence {
            inner_type: Box::new(spec_type(*inner_type)),
        },
        Type::Mapping { key_type, value_type } => SpecType::Mapping {
            key_type: Box::new(spec_type(*key_type)),
            value_type: Box::new(spec_type(*value_type)),
        },
        Type::External { mod_path, name, namespace, kind, tagged } => SpecType::External {
            mod_path: mod_path@,
            name: name@,
            namespace: namespace@,
            kind,
            tagged,
        },
        Type::Custom { mod_path, name, builtin } => SpecType::Custom {
            mod_path: mod_path@,
            name: name@,
            builtin: Box::new(spec_type(*builtin)),
        },
    }
}

impl DeepView for Type {
    type V = SpecType;

    open spec fn deep_view(&self) -> SpecType {
        spec_type(*self)
    }
}

/// A copy of `t` with the same content.
pub fn clone_type(t: &Type) -> (copy: Type)
    ensures
        copy.deep_view() == t.deep_view(),
    decreases t,
{
    match t {
        Type::UInt8 => Type::UInt8,
        Type::Int8 => Type::Int8,
        Type::UInt16 => Type::UInt16,
        Type::Int16 => Type::Int16,
        Type::UInt32 => Type::UInt32,
        Type::Int32 => Type::Int32,
        Type::UInt64 => Type::UInt64,
        Type::Int64 => Type::Int64,
        Type::Float32 => Type::Float32,
        Type::Float64 => Type::Float64,
        Type::Boolean => Type::Boolean,
        Type::String => Type::String,
        Type::Bytes => Type::Bytes,
        Type::Timestamp => Type::Timestamp,
        Type::Duration => Type::Duration,
        Type::Object { mod_path, name, imp } => Type::Object {
            mod_path: mod_path.clone(),
            name: name.clone(),
            imp: *imp,
        },
        Type::Record { mod_path, name } => Type::Record {
            mod_path: mod_path.clone(),
            name: name.clone(),
        },
        Type::Enum { mod_path, name } => Type::Enum {
            mod_path: mod_path.clone(),
            name: name.clone(),
        },
        Type::CallbackInterface { mod_path, name } => Type::CallbackInterface {
            mod_path: mod_path.clone(),
            name: name.clone(),
        },
        Type::Optional { inner_type } => Type::Optional {
            inner_type: Box::new(clone_type(inner_type)),
        },
        Type::Sequence { inner_type } => Type::Sequence {
            inner_type: Box::new(clone_type(inner_type)),
        },
        Type::Mapping { key_type, value_type } => Type::Mapping {
            key_type: Box::new(clone_type(key_type)),
            value_type: Box::new(clone_type(value_type)),
        },
        Type::External { mod_path, name, namespace, kind, tagged } => Type::External {
            mod_path: mod_path.clone(),
            name: name.clone(),
            namespace: namespace.clone(),
            kind: *kind,
            tagged: *tagged,
        },
        Type::Custom { mod_path, name, builtin } => Type::Custom {
            mod_path: mod_path.clone(),
            name: name.clone(),
            builtin: Box::new(clone_type(builtin)),
        },
    }
}

impl Clone for Type {
    fn clone(&self) -> (copy: Self)
        ensures
            copy.deep_view() == self.deep_view(),
    {
        clone_type(self)
    }
}

/// The position of a type's variant in the declaration.
pub open spec fn type_tag(v: SpecType) -> u64 {
    match v {
        SpecType::UInt8 => 0,
        SpecType::Int8 => 1,
        SpecType::UInt16 => 2,
        SpecType::Int16 => 3,
        SpecType::UInt32 => 4,
        SpecType::Int32 => 5,
        SpecType::UInt64 => 6,
        SpecType::Int64 => 7,
        SpecType::Float32 => 8,
        SpecType::Float64 => 9,
        SpecType::Boolean => 10,
        SpecType::String => 11,
        SpecType::Bytes => 12,
        SpecType::Timestamp => 13,
        SpecType::Duration => 14,
        SpecType::Object { .. } => 15,
        SpecType::Record { .. } => 16,
        SpecType::Enum { .. } => 17,
        SpecType::CallbackInterface { .. } => 18,
        SpecType::Optional { .. } => 19,
        SpecType::Sequence { .. } => 20,
        SpecType::Mapping { .. } => 21,
        SpecType::External { .. } => 22,
        SpecType::Custom { .. } => 23,
    }
}

/// The encoding of a type: the position of its variant, then the variant's
/// fields in declaration order.
pub open spec fn type_encoding(v: SpecType) -> Seq<u8>
    decreases v, 1int,
{
    u64_le_bytes(type_tag(v)) + type_fields_encoding(v)
}

/// The encodings of the fields of a type's variant, in declaration order.
pub open spec fn type_fields_encoding(v: SpecType) -> Seq<u8>
    decreases v, 0int,
{
    match v {
        SpecType::Object { mod_path, name, imp } => text_encoding(mod_path) + text_encoding(
            name,
        ) + ObjectImpl::encoding(imp),
        SpecType::Record { mod_path, name } => text_encoding(mod_path) + text_encoding(name),
        SpecType::Enum { mod_path, name } => text_encoding(mod_path) + text_encoding(name),
        SpecType::CallbackInterface { mod_path, name } => text_encoding(mod_path)
            + text_encoding(name),
        SpecType::Optional { inner_type } => type_encoding(*inner_type),
        SpecType::Sequence { inner_type } => type_encoding(*inner_type),
        SpecType::Mapping { key_type, value_type } => type_encoding(*key_type) + type_encoding(
            *value_type,
        ),
        SpecType::External { mod_path, name, namespace, kind, tagged } => text_encoding(
            mod_path,
        ) + text_encoding(name) + text_encoding(namespace) + ExternalKind::encoding(kind)
            + bool::encoding(tagged),
        SpecType::Custom { mod_path, name, builtin } => text_encoding(mod_path)
            + text_encoding(name) + type_encoding(*builtin),
        _ => Seq::empty(),
    }
}

/// Writes the encoding of `t` to `state`.
pub fn checksum_type(t: &Type, state: &mut ChecksumHasher)
    ensures
        final(state)@ == old(state)@ + type_encoding(t.deep_view()),
    decreases t,
{
    let ghost start = state@;
    let ghost v = t.deep_view();
    let ghost tagged = start + u64_le_bytes(type_tag(v));
    match t {
        Type::UInt8 => state.write_u64(0),
        Type::Int8 => state.write_u64(1),
        Type::UInt16 => state.write_u64(2),
        Type::Int16 => state.write_u64(3),
        Type::UInt32 => state.write_u64(4),
        Type::Int32 => state.write_u64(5),
        Type::UInt64 => state.write_u64(6),
        Type::Int64 => state.write_u64(7),
        Type::Float32 => state.write_u64(8),
        Type::Float64 => state.write_u64(9),
        Type::Boolean => state.write_u64(10),
        Type::String => state.write_u64(11),
        Type::Bytes => state.write_u64(12),
        Type::Timestamp => state.write_u64(13),
        Type::Duration => state.write_u64(14),
        Type::Object { mod_path, name, imp } => {
            state.write_u64(15);
            mod_path.checksum(state);
            name.checksum(state);
            imp.checksum(state);
            proof {
                let path_and_name = text_encoding(mod_path@) + text_encoding(name@);
                lemma_concat_assoc(tagged, text_encoding(mod_path@), text_encoding(name@));
                lemma_concat_assoc(tagged, path_and_name, ObjectImpl::encoding(*imp));
            }
        },
        Type::Record { mod_path, name } => {
            state.write_u64(16);
            mod_path.checksum(state);
            name.checksum(state);
            proof {
                lemma_concat_assoc(tagged, text_encoding(mod_path@), text_encoding(name@));
            }
        },
        Type::Enum { mod_path, name } => {
            state.write_u64(17);
            mod_path.checksum(state);
            name.checksum(state);
            proof {
                lemma_concat_assoc(tagged, text_encoding(mod_path@), text_encoding(name@));
            }
        },
        Type::CallbackInterface { mod_path, name } => {
            state.write_u64(18);
            mod_path.checksum(state);
            name.checksum(state);
            proof {
                lemma_concat_assoc(tagged, text_encoding(mod_path@), text_encoding(name@));
            }
        },
        Type::Optional { inner_type } => {
            state.write_u64(19);
            checksum_type(inner_type, state);
        },
        Type::Sequence { inner_type } => {
            state.write_u64(20);
            checksum_type(inner_type, state);
        },
        Type::Mapping { key_type, value_type } => {
            state.write_u64(21);
            checksum_type(key_type, state);
            checksum_type(value_type, state);
            proof {
                lemma_concat_assoc(
                    tagged,
                    type_encoding(key_type.deep_view()),
                    type_encoding(value_type.deep_view()),
                );
            }
        },
        Type::External { mod_path, name, namespace, kind, tagged: is_tagged } => {
            state.write_u64(22);
            mod_path.checksum(state);
            name.checksum(state);
            namespace.checksum(state);
            kind.checksum(state);
            is_tagged.checksum(state);
            proof {
                let upto_name = text_encoding(mod_path@) + text_encoding(name@);
                let upto_namespace = upto_name + text_encoding(namespace@);
                let upto_kind = upto_namespace + ExternalKind::encoding(*kind);
                lemma_concat_assoc(tagged, text_encoding(mod_path@), text_encoding(name@));
                lemma_concat_assoc(tagged, upto_name, text_encoding(namespace@));
                lemma_concat_assoc(tagged, upto_namespace, ExternalKind::encoding(*kind));
                lemma_concat_assoc(tagged, upto_kind, bool::encoding(*is_tagged));
            }
        },
        Type::Custom { mod_path, name, builtin } => {
            state.write_u64(23);
            mod_path.checksum(state);
            name.checksum(state);
            checksum_type(builtin, state);
            proof {
                let path_and_name = text_encoding(mod_path@) + text_encoding(name@);
                lemma_concat_assoc(tagged, text_encoding(mod_path@), text_encoding(name@));
                lemma_concat_assoc(tagged, path_and_name, type_encoding(builtin.deep_view()));
            }
        },
    }
    proof {
        lemma_concat_empty(tagged);
        assert(state@ == tagged + type_fields_encoding(v));
        lemma_concat_assoc(start, u64_le_bytes(type_tag(v)), type_fields_encoding(v));
    }
}

/// Two streams that agree and start with encoded types agree on the variant
/// and on what follows the variant's position.
proof fn lemma_type_tag_prefix_free(va: SpecType, vb: SpecType, rest_a: Seq<u8>, rest_b: Seq<u8>)
    requires
        type_encoding(va) + rest_a == type_encoding(vb) + rest_b,
    ensures
        type_tag(va) == type_tag(vb),
        type_fields_encoding(va) + rest_a == type_fields_encoding(vb) + rest_b,
{
    let fa = type_fields_encoding(va) + rest_a;
    let fb = type_fields_encoding(vb) + rest_b;
    assert(type_encoding(va) + rest_a =~= u64_le_bytes(type_tag(va)) + fa);
    assert(type_encoding(vb) + rest_b =~= u64_le_bytes(type_tag(vb)) + fb);
    lemma_u64_prefix_free(type_tag(va), type_tag(vb), fa, fb);
}

/// The prefix-free law for the fields of an object type.
proof fn lemma_object_fields_prefix_free(
    path_a: Seq<char>,
    name_a: Seq<char>,
    imp_a: ObjectImpl,
    path_b: Seq<char>,
    name_b: Seq<char>,
    imp_b: ObjectImpl,
    rest_a: Seq<u8>,
    rest_b: Seq<u8>,
)
    requires
        text_encoding(path_a) + text_encoding(name_a) + ObjectImpl::encoding(imp_a) + rest_a
            == text_encoding(path_b) + text_encoding(name_b) + ObjectImpl::encoding(imp_b)
            + rest_b,
    ensures
        path_a == path_b,
        name_a == name_b,
        imp_a == imp_b,
        rest_a == rest_b,
{
    let tail_a = ObjectImpl::encoding(imp_a) + rest_a;
    let tail_b = ObjectImpl::encoding(imp_b) + rest_b;
    lemma_concat_assoc(
        text_encoding(path_a) + text_encoding(name_a),
        ObjectImpl::encoding(imp_a),
        rest_a,
    );
    lemma_concat_assoc(
        text_encoding(path_b) + text_encoding(name_b),
        ObjectImpl::encoding(imp_b),
        rest_b,
    );
    lemma_qualified_name_prefix_free(path_a, name_a, path_b, name_b, tail_a, tail_b);
    ObjectImpl::lemma_prefix_free(&imp_a, &imp_b, rest_a, rest_b);
}

/// The prefix-free law for the fields of an external type.
proof fn lemma_external_fields_prefix_free(
    path_a: Seq<char>,
    name_a: Seq<char>,
    namespace_a: Seq<char>,
    kind_a: ExternalKind,
    tagged_a: bool,
    path_b: Seq<char>,
    name_b: Seq<char>,
    namespace_b: Seq<char>,
    kind_b: ExternalKind,
    tagged_b: bool,
    rest_a: Seq<u8>,
    rest_b: Seq<u8>,
)
    requires
        text_encoding(path_a) + text_encoding(name_a) + text_encoding(namespace_a)
            + ExternalKind::encoding(kind_a) + bool::encoding(tagged_a) + rest_a == text_encoding(
            path_b,
        ) + text_encoding(name_b) + text_encoding(namespace_b) + ExternalKind::encoding(kind_b)
            + bool::encoding(tagged_b) + rest_b,
    ensures
        path_a == path_b,
        name_a == name_b,
        namespace_a == namespace_b,
        kind_a == kind_b,
        tagged_a == tagged_b,
        rest_a == rest_b,
{
    let upto_name_a = text_encoding(path_a) + text_encoding(name_a);
    let upto_name_b = text_encoding(path_b) + text_encoding(name_b);
    let upto_namespace_a = upto_name_a + text_encoding(namespace_a);
    let upto_namespace_b = upto_name_b + text_encoding(namespace_b);
    let upto_kind_a = upto_namespace_a + ExternalKind::encoding(kind_a);
    let upto_kind_b = upto_namespace_b + ExternalKind::encoding(kind_b);
    let t4a = bool::encoding(tagged_a) + rest_a;
    let t4b = bool::encoding(tagged_b) + rest_b;
    lemma_concat_assoc(upto_kind_a, bool::encoding(tagged_a), rest_a);
    lemma_concat_assoc(upto_kind_b, bool::encoding(tagged_b), rest_b);
    let t3a = ExternalKind::encoding(kind_a) + t4a;
    let t3b = ExternalKind::encoding(kind_b) + t4b;
    lemma_concat_assoc(upto_namespace_a, ExternalKind::encoding(kind_a), t4a);
    lemma_concat_assoc(upto_namespace_b, ExternalKind::encoding(kind_b), t4b);
    let t2a = text_encoding(namespace_a) + t3a;
    let t2b = text_encoding(namespace_b) + t3b;
    lemma_concat_assoc(upto_name_a, text_encoding(namespace_a), t3a);
    lemma_concat_assoc(upto_name_b, text_encoding(namespace_b), t3b);
    lemma_qualified_name_prefix_free(path_a, name_a, path_b, name_b, t2a, t2b);
    lemma_text_prefix_free(namespace_a, namespace_b, t3a, t3b);
    ExternalKind::lemma_prefix_free(&kind_a, &kind_b, t4a, t4b);
    bool::lemma_prefix_free(&tagged_a, &tagged_b, rest_a, rest_b);
}

/// Whether a type's variant holds other types.
pub open spec fn is_compound(v: SpecType) -> bool {
    v is Optional || v is Sequence || v is Mapping || v is Custom
}

/// The prefix-free law for the types whose variants hold no other type.
proof fn lemma_simple_type_prefix_free(
    va: SpecType,
    vb: SpecType,
    rest_a: Seq<u8>,
    rest_b: Seq<u8>,
)
    requires
        !is_compound(va),
        type_tag(va) == type_tag(vb),
        type_fields_encoding(va) + rest_a == type_fields_encoding(vb) + rest_b,
    ensures
        va == vb,
        rest_a == rest_b,
{
    match va {
        SpecType::Object { mod_path, name, imp } => {
            lemma_object_fields_prefix_free(
                mod_path,
                name,
                imp,
                vb->Object_mod_path,
                vb->Object_name,
                vb->Object_imp,
                rest_a,
                rest_b,
            );
        },
        SpecType::Record { mod_path, name } => {
            lemma_qualified_name_prefix_free(
                mod_path,
                name,
                vb->Record_mod_path,
                vb->Record_name,
                rest_a,
                rest_b,
            );
        },
        SpecType::Enum { mod_path, name } => {
            lemma_qualified_name_prefix_free(
                mod_path,
                name,
                vb->Enum_mod_path,
                vb->Enum_name,
                rest_a,
                rest_b,
            );
        },
        SpecType::CallbackInterface { mod_path, name } => {
            lemma_qualified_name_prefix_free(
                mod_path,
                name,
                vb->CallbackInterface_mod_path,
                vb->CallbackInterface_name,
                rest_a,
                rest_b,
            );
        },
        SpecType::External { mod_path, name, namespace, kind, tagged } => {
            lemma_external_fields_prefix_free(
                mod_path,
                name,
                namespace,
                kind,
                tagged,
                vb->External_mod_path,
                vb->External_name,
                vb->namespace,
                vb->kind,
                vb->tagged,
                rest_a,
                rest_b,
            );
        },
        _ => {
            assert(type_fields_encoding(va) + rest_a =~= rest_a);
            assert(type_fields_encoding(vb) + rest_b =~= rest_b);
        },
    }
}

/// The prefix-free law for types: an encoded type can be told apart from
/// whatever follows it.
pub proof fn lemma_type_prefix_free(va: SpecType, vb: SpecType, rest_a: Seq<u8>, rest_b: Seq<u8>)
    requires
        type_encoding(va) + rest_a == type_encoding(vb) + rest_b,
    ensures
        va == vb,
        rest_a == rest_b,
    decreases va, 1int,
{
    lemma_type_tag_prefix_free(va, vb, rest_a, rest_b);
    if va is Optional {
        lemma_type_prefix_free(*va->Optional_inner_type, *vb->Optional_inner_type, rest_a, rest_b);
    } else if va is Sequence {
        lemma_type_prefix_free(*va->Sequence_inner_type, *vb->Sequence_inner_type, rest_a, rest_b);
    } else if va is Mapping {
        lemma_mapping_fields_prefix_free(va, vb, rest_a, rest_b);
    } else if va is Custom {
        lemma_custom_fields_prefix_free(va, vb, rest_a, rest_b);
    } else {
        lemma_simple_type_prefix_free(va, vb, rest_a, rest_b);
    }
}

/// The prefix-free law for the fields of two mapping types.
proof fn lemma_mapping_fields_prefix_free(
    va: SpecType,
    vb: SpecType,
    rest_a: Seq<u8>,
    rest_b: Seq<u8>,
)
    requires
        va is Mapping,
        vb is Mapping,
        type_encoding(*va->key_type) + type_encoding(*va->value_type) + rest_a == type_encoding(
            *vb->key_type,
        ) + type_encoding(*vb->value_type) + rest_b,
    ensures
        va == vb,
        rest_a == rest_b,
    decreases va, 0int,
{
    let tail_a = type_encoding(*va->value_type) + rest_a;
    let tail_b = type_encoding(*vb->value_type) + rest_b;
    assert(type_encoding(*va->key_type) + type_encoding(*va->value_type) + rest_a
        =~= type_encoding(*va->key_type) + tail_a);
    assert(type_encoding(*vb->key_type) + type_encoding(*vb->value_type) + rest_b
        =~= type_encoding(*vb->key_type) + tail_b);
    lemma_type_prefix_free(*va->key_type, *vb->key_type, tail_a, tail_b);
    lemma_type_prefix_free(*va->value_type, *vb->value_type, rest_a, rest_b);
}

/// The prefix-free law for the fields of two custom types.
proof fn lemma_custom_fields_prefix_free(
    va: SpecType,
    vb: SpecType,
    rest_a: Seq<u8>,
    rest_b: Seq<u8>,
)
    requires
        va is Custom,
        vb is Custom,
        text_encoding(va->Custom_mod_path) + text_encoding(va->Custom_name) + type_encoding(
            *va->builtin,
        ) + rest_a == text_encoding(vb->Custom_mod_path) + text_encoding(vb->Custom_name)
            + type_encoding(*vb->builtin) + rest_b,
    ensures
        va == vb,
        rest_a == rest_b,
    decreases va, 0int,
{
    let tail_a = type_encoding(*va->builtin) + rest_a;
    let tail_b = type_encoding(*vb->builtin) + rest_b;
    assert(text_encoding(va->Custom_mod_path) + text_encoding(va->Custom_name) + type_encoding(
        *va->builtin,
    ) + rest_a =~= text_encoding(va->Custom_mod_path) + text_encoding(va->Custom_name) + tail_a);
    assert(text_encoding(vb->Custom_mod_path) + text_encoding(vb->Custom_name) + type_encoding(
        *vb->builtin,
    ) + rest_b =~= text_encoding(vb->Custom_mod_path) + text_encoding(vb->Custom_name) + tail_b);
    lemma_qualified_name_prefix_free(
        va->Custom_mod_path,
        va->Custom_name,
        vb->Custom_mod_path,
        vb->Custom_name,
        tail_a,
        tail_b,
    );
    lemma_type_prefix_free(*va->builtin, *vb->builtin, rest_a, rest_b);
}

/// A type is the position of its variant, then the variant's fields in
/// declaration order.
impl Checksum for Type {
    open spec fn encoding(v: SpecType) -> Seq<u8> {
        type_encoding(v)
    }

    fn checksum(&self, state: &mut ChecksumHasher) {
        checksum_type(self, state);
    }

    proof fn lemma_prefix_free(a: &Self, b: &Self, rest_a: Seq<u8>, rest_b: Seq<u8>) {
        lemma_type_prefix_free(a.deep_view(), b.deep_view(), rest_a, rest_b);
    }
}

} // verus!
