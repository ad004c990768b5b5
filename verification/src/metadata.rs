//! The schema item: any one declaration.

use crate::callable::{
    ConstructorMetadata, FnMetadata, MethodMetadata, SpecConstructorMetadata, SpecFnMetadata,
    SpecMethodMetadata, SpecTraitMethodMetadata, TraitMethodMetadata,
};
use crate::encoding::{lemma_concat_assoc, lemma_u64_prefix_free, Checksum};
use crate::hasher::{u64_le_bytes, ChecksumHasher};
use crate::object::{
    CallbackInterfaceMetadata, CustomTypeMetadata, ObjectMetadata, SpecCallbackInterfaceMetadata,
    SpecCustomTypeMetadata, SpecObjectMetadata,
};
use crate::record::{
    EnumMetadata, ErrorMetadata, RecordMetadata, SpecEnumMetadata, SpecErrorMetadata,
    SpecRecordMetadata,
};
use vstd::prelude::*;
use vstd::std_specs::convert::FromSpecImpl;

verus! {

/// The namespace of a component: the crate that owns it, and its name.
#[derive(Clone, Debug, PartialEq, Eq, PartialOrd, Ord)]
pub struct NamespaceMetadata {
    pub crate_name: String,
    pub name: String,
}

/// The logical content of a [`NamespaceMetadata`].
pub struct SpecNamespaceMetadata {
    pub crate_name: Seq<char>,
    pub name: Seq<char>,
}

impl DeepView for NamespaceMetadata {
    type V = SpecNamespaceMetadata;

    open spec fn deep_view(&self) -> SpecNamespaceMetadata {
        SpecNamespaceMetadata {
            crate_name: self.crate_name.deep_view(),
            name: self.name.deep_view(),
        }
    }
}

/// A namespace is the name of its crate and its own name.
impl Checksum for NamespaceMetadata {
    open spec fn encoding(v: SpecNamespaceMetadata) -> Seq<u8> {
        String::encoding(v.crate_name) + String::encoding(v.name)
    }

    fn checksum(&self, state: &mut ChecksumHasher) {
        self.crate_name.checksum(state);
        self.name.checksum(state);
        proof {
            let v = self.deep_view();
            let start = old(state)@;
            let upto_crate_name = String::encoding(v.crate_name);
            lemma_concat_assoc(start, upto_crate_name, String::encoding(v.name));
        }
    }

    proof fn lemma_prefix_free(a: &Self, b: &Self, rest_a: Seq<u8>, rest_b: Seq<u8>) {
        let va = a.deep_view();
        let vb = b.deep_view();
        let upto_crate_name_a = String::encoding(va.crate_name);
        let upto_crate_name_b = String::encoding(vb.crate_name);
        let after_crate_name_a = String::encoding(va.name) + rest_a;
        lemma_concat_assoc(upto_crate_name_a, String::encoding(va.name), rest_a);
        let after_crate_name_b = String::encoding(vb.name) + rest_b;
        lemma_concat_assoc(upto_crate_name_b, String::encoding(vb.name), rest_b);
        String::lemma_prefix_free(
            &a.crate_name,
            &b.crate_name,
            after_crate_name_a,
            after_crate_name_b,
        );
        String::lemma_prefix_free(&a.name, &b.name, rest_a, rest_b);
    }
}

/// A reference to an interface-definition file. It serves to find the file;
/// nothing here reads the file.
#[derive(Clone, Debug, PartialEq, Eq, PartialOrd, Ord)]
pub struct UdlFile {
    pub mod_path: String,
    pub name: String,
}

/// The logical content of a [`UdlFile`].
pub struct SpecUdlFile {
    pub mod_path: Seq<char>,
    pub name: Seq<char>,
}

impl DeepView for UdlFile {
    type V = SpecUdlFile;

    open spec fn deep_view(&self) -> SpecUdlFile {
        SpecUdlFile {
            mod_path: self.mod_path.deep_view(),
            name: self.name.deep_view(),
        }
    }
}

/// A file reference is its path and its name.
impl Checksum for UdlFile {
    open spec fn encoding(v: SpecUdlFile) -> Seq<u8> {
        String::encoding(v.mod_path) + String::encoding(v.name)
    }

    fn checksum(&self, state: &mut ChecksumHasher) {
        self.mod_path.checksum(state);
        self.name.checksum(state);
        proof {
            let v = self.deep_view();
            let start = old(state)@;
            let upto_mod_path = String::encoding(v.mod_path);
            lemma_concat_assoc(start, upto_mod_path, String::encoding(v.name));
        }
    }

    proof fn lemma_prefix_free(a: &Self, b: &Self, rest_a: Seq<u8>, rest_b: Seq<u8>) {
        let va = a.deep_view();
        let vb = b.deep_view();
        let upto_mod_path_a = String::encoding(va.mod_path);
        let upto_mod_path_b = String::encoding(vb.mod_path);
        let after_mod_path_a = String::encoding(va.name) + rest_a;
        lemma_concat_assoc(upto_mod_path_a, String::encoding(va.name), rest_a);
        let after_mod_path_b = String::encoding(vb.name) + rest_b;
        lemma_concat_assoc(upto_mod_path_b, String::encoding(vb.name), rest_b);
        String::lemma_prefix_free(&a.mod_path, &b.mod_path, after_mod_path_a, after_mod_path_b);
        String::lemma_prefix_free(&a.name, &b.name, rest_a, rest_b);
    }
}

/// Any one declaration.
#[derive(Clone, Debug, PartialEq, Eq, PartialOrd, Ord)]
pub enum Metadata {
    Namespace(NamespaceMetadata),
    UdlFile(UdlFile),
    Func(FnMetadata),
    Object(ObjectMetadata),
    CallbackInterface(CallbackInterfaceMetadata),
    Record(RecordMetadata),
    Enum(EnumMetadata),
    Error(ErrorMetadata),
    Constructor(ConstructorMetadata),
    Method(MethodMetadata),
    TraitMethod(TraitMethodMetadata),
    CustomType(CustomTypeMetadata),
}

/// The logical content of a [`Metadata`].
pub enum SpecMetadata {
    Namespace(SpecNamespaceMetadata),
    UdlFile(SpecUdlFile),
    Func(SpecFnMetadata),
    Object(SpecObjectMetadata),
    CallbackInterface(SpecCallbackInterfaceMetadata),
    Record(SpecRecordMetadata),
    Enum(SpecEnumMetadata),
    Error(SpecErrorMetadata),
    Constructor(SpecConstructorMetadata),
    Method(SpecMethodMetadata),
    TraitMethod(SpecTraitMethodMetadata),
    CustomType(SpecCustomTypeMetadata),
}

impl DeepView for Metadata {
    type V = SpecMetadata;

    open spec fn deep_view(&self) -> SpecMetadata {
        match *self {
            Metadata::Namespace(item) => SpecMetadata::Namespace(item.deep_view()),
            Metadata::UdlFile(item) => SpecMetadata::UdlFile(item.deep_view()),
            Metadata::Func(item) => SpecMetadata::Func(item.deep_view()),
            Metadata::Object(item) => SpecMetadata::Object(item.deep_view()),
            Metadata::CallbackInterface(item) => SpecMetadata::CallbackInterface(item.deep_view()),
            Metadata::Record(item) => SpecMetadata::Record(item.deep_view()),
            Metadata::Enum(item) => SpecMetadata::Enum(item.deep_view()),
            Metadata::Error(item) => SpecMetadata::Error(item.deep_view()),
            Metadata::Constructor(item) => SpecMetadata::Constructor(item.deep_view()),
            Metadata::Method(item) => SpecMetadata::Method(item.deep_view()),
            Metadata::TraitMethod(item) => SpecMetadata::TraitMethod(item.deep_view()),
            Metadata::CustomType(item) => SpecMetadata::CustomType(item.deep_view()),
        }
    }
}

/// The position of an item's variant in the declaration.
pub open spec fn metadata_tag(v: SpecMetadata) -> u64 {
    match v {
        SpecMetadata::Namespace(..) => 0,
        SpecMetadata::UdlFile(..) => 1,
        SpecMetadata::Func(..) => 2,
        SpecMetadata::Object(..) => 3,
        SpecMetadata::CallbackInterface(..) => 4,
        SpecMetadata::Record(..) => 5,
        SpecMetadata::Enum(..) => 6,
        SpecMetadata::Error(..) => 7,
        SpecMetadata::Constructor(..) => 8,
        SpecMetadata::Method(..) => 9,
        SpecMetadata::TraitMethod(..) => 10,
        SpecMetadata::CustomType(..) => 11,
    }
}

/// The encoding of the declaration that an item holds.
pub open spec fn metadata_item_encoding(v: SpecMetadata) -> Seq<u8> {
    match v {
        SpecMetadata::Namespace(item) => NamespaceMetadata::encoding(item),
        SpecMetadata::UdlFile(item) => UdlFile::encoding(item),
        SpecMetadata::Func(item) => FnMetadata::encoding(item),
        SpecMetadata::Object(item) => ObjectMetadata::encoding(item),
        SpecMetadata::CallbackInterface(item) => CallbackInterfaceMetadata::encoding(item),
        SpecMetadata::Record(item) => RecordMetadata::encoding(item),
        SpecMetadata::Enum(item) => EnumMetadata::encoding(item),
        SpecMetadata::Error(item) => ErrorMetadata::encoding(item),
        SpecMetadata::Constructor(item) => ConstructorMetadata::encoding(item),
        SpecMetadata::Method(item) => MethodMetadata::encoding(item),
        SpecMetadata::TraitMethod(item) => TraitMethodMetadata::encoding(item),
        SpecMetadata::CustomType(item) => CustomTypeMetadata::encoding(item),
    }
}

/// An item is the position of its variant, then the declaration it holds.
impl Checksum for Metadata {
    open spec fn encoding(v: SpecMetadata) -> Seq<u8> {
        u64_le_bytes(metadata_tag(v)) + metadata_item_encoding(v)
    }

    fn checksum(&self, state: &mut ChecksumHasher) {
        let ghost start = state@;
        let ghost v = self.deep_view();
        match self {
            Metadata::Namespace(item) => {
                state.write_u64(0);
                item.checksum(state);
            },
            Metadata::UdlFile(item) => {
                state.write_u64(1);
                item.checksum(state);
            },
            Metadata::Func(item) => {
                state.write_u64(2);
                item.checksum(state);
            },
            Metadata::Object(item) => {
                state.write_u64(3);
                item.checksum(state);
            },
            Metadata::CallbackInterface(item) => {
                state.write_u64(4);
                item.checksum(state);
            },
            Metadata::Record(item) => {
                state.write_u64(5);
                item.checksum(state);
            },
            Metadata::Enum(item) => {
                state.write_u64(6);
                item.checksum(state);
            },
            Metadata::Error(item) => {
                state.write_u64(7);
                item.checksum(state);
            },
            Metadata::Constructor(item) => {
                state.write_u64(8);
                item.checksum(state);
            },
            Metadata::Method(item) => {
                state.write_u64(9);
                item.checksum(state);
            },
            Metadata::TraitMethod(item) => {
                state.write_u64(10);
                item.checksum(state);
            },
            Metadata::CustomType(item) => {
                state.write_u64(11);
                item.checksum(state);
            },
        }
        proof {
            lemma_concat_assoc(start, u64_le_bytes(metadata_tag(v)), metadata_item_encoding(v));
        }
    }

    proof fn lemma_prefix_free(a: &Self, b: &Self, rest_a: Seq<u8>, rest_b: Seq<u8>) {
        let va = a.deep_view();
        let vb = b.deep_view();
        lemma_concat_assoc(u64_le_bytes(metadata_tag(va)), metadata_item_encoding(va), rest_a);
        lemma_concat_assoc(u64_le_bytes(metadata_tag(vb)), metadata_item_encoding(vb), rest_b);
        lemma_u64_prefix_free(
            metadata_tag(va),
            metadata_tag(vb),
            metadata_item_encoding(va) + rest_a,
            metadata_item_encoding(vb) + rest_b,
        );
        match (a, b) {
            (Metadata::Namespace(item_a), Metadata::Namespace(item_b)) => {
                NamespaceMetadata::lemma_prefix_free(item_a, item_b, rest_a, rest_b);
            },
            (Metadata::UdlFile(item_a), Metadata::UdlFile(item_b)) => {
                UdlFile::lemma_prefix_free(item_a, item_b, rest_a, rest_b);
            },
            (Metadata::Func(item_a), Metadata::Func(item_b)) => {
                FnMetadata::lemma_prefix_free(item_a, item_b, rest_a, rest_b);
            },
            (Metadata::Object(item_a), Metadata::Object(item_b)) => {
                ObjectMetadata::lemma_prefix_free(item_a, item_b, rest_a, rest_b);
            },
            (Metadata::CallbackInterface(item_a), Metadata::CallbackInterface(item_b)) => {
                CallbackInterfaceMetadata::lemma_prefix_free(item_a, item_b, rest_a, rest_b);
            },
            (Metadata::Record(item_a), Metadata::Record(item_b)) => {
                RecordMetadata::lemma_prefix_free(item_a, item_b, rest_a, rest_b);
            },
            (Metadata::Enum(item_a), Metadata::Enum(item_b)) => {
                EnumMetadata::lemma_prefix_free(item_a, item_b, rest_a, rest_b);
            },
            (Metadata::Error(item_a), Metadata::Error(item_b)) => {
                ErrorMetadata::lemma_prefix_free(item_a, item_b, rest_a, rest_b);
            },
            (Metadata::Constructor(item_a), Metadata::Constructor(item_b)) => {
                ConstructorMetadata::lemma_prefix_free(item_a, item_b, rest_a, rest_b);
            },
            (Metadata::Method(item_a), Metadata::Method(item_b)) => {
                MethodMetadata::lemma_prefix_free(item_a, item_b, rest_a, rest_b);
            },
            (Metadata::TraitMethod(item_a), Metadata::TraitMethod(item_b)) => {
                TraitMethodMetadata::lemma_prefix_free(item_a, item_b, rest_a, rest_b);
            },
            (Metadata::CustomType(item_a), Metadata::CustomType(item_b)) => {
                CustomTypeMetadata::lemma_prefix_free(item_a, item_b, rest_a, rest_b);
            },
            _ => {},
        }
    }
}

impl From<NamespaceMetadata> for Metadata {
    fn from(value: NamespaceMetadata) -> (item: Metadata) {
        Metadata::Namespace(value)
    }
}

impl FromSpecImpl<NamespaceMetadata> for Metadata {
    open spec fn obeys_from_spec() -> bool {
        true
    }

    open spec fn from_spec(value: NamespaceMetadata) -> Metadata {
        Metadata::Namespace(value)
    }
}

impl From<UdlFile> for Metadata {
    fn from(value: UdlFile) -> (item: Metadata) {
        Metadata::UdlFile(value)
    }
}

impl FromSpecImpl<UdlFile> for Metadata {
    open spec fn obeys_from_spec() -> bool {
        true
    }

    open spec fn from_spec(value: UdlFile) -> Metadata {
        Metadata::UdlFile(value)
    }
}

impl From<FnMetadata> for Metadata {
    fn from(value: FnMetadata) -> (item: Metadata) {
        Metadata::Func(value)
    }
}

impl FromSpecImpl<FnMetadata> for Metadata {
    open spec fn obeys_from_spec() -> bool {
        true
    }

    open spec fn from_spec(value: FnMetadata) -> Metadata {
        Metadata::Func(value)
    }
}

impl From<ObjectMetadata> for Metadata {
    fn from(value: ObjectMetadata) -> (item: Metadata) {
        Metadata::Object(value)
    }
}

impl FromSpecImpl<ObjectMetadata> for Metadata {
    open spec fn obeys_from_spec() -> bool {
        true
    }

    open spec fn from_spec(value: ObjectMetadata) -> Metadata {
        Metadata::Object(value)
    }
}

impl From<CallbackInterfaceMetadata> for Metadata {
    fn from(value: CallbackInterfaceMetadata) -> (item: Metadata) {
        Metadata::CallbackInterface(value)
    }
}

impl FromSpecImpl<CallbackInterfaceMetadata> for Metadata {
    open spec fn obeys_from_spec() -> bool {
        true
    }

    open spec fn from_spec(value: CallbackInterfaceMetadata) -> Metadata {
        Metadata::CallbackInterface(value)
    }
}

impl From<RecordMetadata> for Metadata {
    fn from(value: RecordMetadata) -> (item: Metadata) {
        Metadata::Record(value)
    }
}

impl FromSpecImpl<RecordMetadata> for Metadata {
    open spec fn obeys_from_spec() -> bool {
        true
    }

    open spec fn from_spec(value: RecordMetadata) -> Metadata {
        Metadata::Record(value)
    }
}

impl From<EnumMetadata> for Metadata {
    fn from(value: EnumMetadata) -> (item: Metadata) {
        Metadata::Enum(value)
    }
}

impl FromSpecImpl<EnumMetadata> for Metadata {
    open spec fn obeys_from_spec() -> bool {
        true
    }

    open spec fn from_spec(value: EnumMetadata) -> Metadata {
        Metadata::Enum(value)
    }
}

impl From<ErrorMetadata> for Metadata {
    fn from(value: ErrorMetadata) -> (item: Metadata) {
        Metadata::Error(value)
    }
}

impl FromSpecImpl<ErrorMetadata> for Metadata {
    open spec fn obeys_from_spec() -> bool {
        true
    }

    open spec fn from_spec(value: ErrorMetadata) -> Metadata {
        Metadata::Error(value)
    }
}

impl From<ConstructorMetadata> for Metadata {
    fn from(value: ConstructorMetadata) -> (item: Metadata) {
        Metadata::Constructor(value)
    }
}

impl FromSpecImpl<ConstructorMetadata> for Metadata {
    open spec fn obeys_from_spec() -> bool {
        true
    }

    open spec fn from_spec(value: ConstructorMetadata) -> Metadata {
        Metadata::Constructor(value)
    }
}

impl From<MethodMetadata> for Metadata {
    fn from(value: MethodMetadata) -> (item: Metadata) {
        Metadata::Method(value)
    }
}

impl FromSpecImpl<MethodMetadata> for Metadata {
    open spec fn obeys_from_spec() -> bool {
        true
    }

    open spec fn from_spec(value: MethodMetadata) -> Metadata {
        Metadata::Method(value)
    }
}

impl From<TraitMethodMetadata> for Metadata {
    fn from(value: TraitMethodMetadata) -> (item: Metadata) {
        Metadata::TraitMethod(value)
    }
}

impl FromSpecImpl<TraitMethodMetadata> for Metadata {
    open spec fn obeys_from_spec() -> bool {
        true
    }

    open spec fn from_spec(value: TraitMethodMetadata) -> Metadata {
        Metadata::TraitMethod(value)
    }
}

impl From<CustomTypeMetadata> for Metadata {
    fn from(value: CustomTypeMetadata) -> (item: Metadata) {
        Metadata::CustomType(value)
    }
}

impl FromSpecImpl<CustomTypeMetadata> for Metadata {
    open spec fn obeys_from_spec() -> bool {
        true
    }

    open spec fn from_spec(value: CustomTypeMetadata) -> Metadata {
        Metadata::CustomType(value)
    }
}

} // verus!
