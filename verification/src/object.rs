//! Objects, the traits derived for them, callback interfaces and custom
//! types.

use crate::callable::{MethodMetadata, SpecMethodMetadata};
use crate::encoding::{lemma_concat_assoc, lemma_u64_prefix_free, Checksum};
use crate::ffi_names::{free_fn_symbol_name, spec_free_fn_symbol_name};
use crate::hasher::{u64_le_bytes, ChecksumHasher};
use crate::types::{ObjectImpl, SpecType, Type};
use vstd::prelude::*;

verus! {

/// A callback interface.
#[derive(Clone, Debug, PartialEq, Eq, PartialOrd, Ord)]
pub struct CallbackInterfaceMetadata {
    pub mod_path: String,
    pub name: String,
}

/// The logical content of a [`CallbackInterfaceMetadata`].
pub struct SpecCallbackInterfaceMetadata {
    pub mod_path: Seq<char>,
    pub name: Seq<char>,
}

impl DeepView for CallbackInterfaceMetadata {
    type V = SpecCallbackInterfaceMetadata;

    open spec fn deep_view(&self) -> SpecCallbackInterfaceMetadata {
        SpecCallbackInterfaceMetadata {
            mod_path: self.mod_path.deep_view(),
            name: self.name.deep_view(),
        }
    }
}

/// A callback interface is its path and its name.
impl Checksum for CallbackInterfaceMetadata {
    open spec fn encoding(v: SpecCallbackInterfaceMetadata) -> Seq<u8> {
        String::encoding(v.mod_path) + String::encoding(v.name)
    }

    fn checksum(&self, state: &mut ChecksumHasher) {
        self.mod_path.checksum(state);
        self.name.checksum(state);
        proof {
            let v = self.deep_view();
            let start = old(state)@;
            let upto_mod_path = String::encoding(v.mod_path);
            lemma_concat_assoc(start, upto_mod_path, String::encoding(v.name));
        }
    }

    proof fn lemma_prefix_free(a: &Self, b: &Self, rest_a: Seq<u8>, rest_b: Seq<u8>) {
        let va = a.deep_view();
        let vb = b.deep_view();
        let upto_mod_path_a = String::encoding(va.mod_path);
        let upto_mod_path_b = String::encoding(vb.mod_path);
        let after_mod_path_a = String::encoding(va.name) + rest_a;
        lemma_concat_assoc(upto_mod_path_a, String::encoding(va.name), rest_a);
        let after_mod_path_b = String::encoding(vb.name) + rest_b;
        lemma_concat_assoc(upto_mod_path_b, String::encoding(vb.name), rest_b);
        String::lemma_prefix_free(&a.mod_path, &b.mod_path, after_mod_path_a, after_mod_path_b);
        String::lemma_prefix_free(&a.name, &b.name, rest_a, rest_b);
    }
}

/// A custom type, and the built-in type that represents it.
#[derive(Clone, Debug, PartialEq, Eq, PartialOrd, Ord)]
pub struct CustomTypeMetadata {
    pub mod_path: String,
    pub name: String,
    pub builtin: Type,
}

/// The logical content of a [`CustomTypeMetadata`].
pub struct SpecCustomTypeMetadata {
    pub mod_path: Seq<char>,
    pub name: Seq<char>,
    pub builtin: SpecType,
}

impl DeepView for CustomTypeMetadata {
    type V = SpecCustomTypeMetadata;

    open spec fn deep_view(&self) -> SpecCustomTypeMetadata {
        SpecCustomTypeMetadata {
            mod_path: self.mod_path.deep_view(),
            name: self.name.deep_view(),
            builtin: self.builtin.deep_view(),
        }
    }
}

/// A custom type is its path, its name and the type that represents it.
impl Checksum for CustomTypeMetadata {
    open spec fn encoding(v: SpecCustomTypeMetadata) -> Seq<u8> {
        String::encoding(v.mod_path) + String::encoding(v.name) + Type::encoding(v.builtin)
    }

    fn checksum(&self, state: &mut ChecksumHasher) {
        self.mod_path.checksum(state);
        self.name.checksum(state);
        self.builtin.checksum(state);
        proof {
            let v = self.deep_view();
            let start = old(state)@;
            let upto_mod_path = String::encoding(v.mod_path);
            lemma_concat_assoc(start, upto_mod_path, String::encoding(v.name));
            let upto_name = upto_mod_path + String::encoding(v.name);
            lemma_concat_assoc(start, upto_name, Type::encoding(v.builtin));
        }
    }

    proof fn lemma_prefix_free(a: &Self, b: &Self, rest_a: Seq<u8>, rest_b: Seq<u8>) {
        let va = a.deep_view();
        let vb = b.deep_view();
        let upto_mod_path_a = String::encoding(va.mod_path);
        let upto_mod_path_b = String::encoding(vb.mod_path);
        let upto_name_a = upto_mod_path_a + String::encoding(va.name);
        let upto_name_b = upto_mod_path_b + String::encoding(vb.name);
        let after_name_a = Type::encoding(va.builtin) + rest_a;
        lemma_concat_assoc(upto_name_a, Type::encoding(va.builtin), rest_a);
        let after_name_b = Type::encoding(vb.builtin) + rest_b;
        lemma_concat_assoc(upto_name_b, Type::encoding(vb.builtin), rest_b);
        let after_mod_path_a = String::encoding(va.name) + after_name_a;
        lemma_concat_assoc(upto_mod_path_a, String::encoding(va.name), after_name_a);
        let after_mod_path_b = String::encoding(vb.name) + after_name_b;
        lemma_concat_assoc(upto_mod_path_b, String::encoding(vb.name), after_name_b);
        String::lemma_prefix_free(&a.mod_path, &b.mod_path, after_mod_path_a, after_mod_path_b);
        String::lemma_prefix_free(&a.name, &b.name, after_name_a, after_name_b);
        Type::lemma_prefix_free(&a.builtin, &b.builtin, rest_a, rest_b);
    }
}

/// A trait derived for an object, with the one or two methods that implement
/// it.
#[derive(Clone, Debug, PartialEq, Eq, PartialOrd, Ord)]
pub enum UniffiTraitMetadata {
    Debug { fmt: MethodMetadata },
    Display { fmt: MethodMetadata },
    Eq { eq: MethodMetadata, ne: MethodMetadata },
    Hash { hash: MethodMetadata },
}

/// The logical content of a [`UniffiTraitMetadata`].
pub enum SpecUniffiTraitMetadata {
    Debug { fmt: SpecMethodMetadata },
    Display { fmt: SpecMethodMetadata },
    Eq { eq: SpecMethodMetadata, ne: SpecMethodMetadata },
    Hash { hash: SpecMethodMetadata },
}

impl DeepView for UniffiTraitMetadata {
    type V = SpecUniffiTraitMetadata;

    open spec fn deep_view(&self) -> SpecUniffiTraitMetadata {
        match *self {
            UniffiTraitMetadata::Debug { fmt } => SpecUniffiTraitMetadata::Debug {
                fmt: fmt.deep_view(),
            },
            UniffiTraitMetadata::Display { fmt } => SpecUniffiTraitMetadata::Display {
                fmt: fmt.deep_view(),
            },
            UniffiTraitMetadata::Eq { eq, ne } => SpecUniffiTraitMetadata::Eq {
                eq: eq.deep_view(),
                ne: ne.deep_view(),
            },
            UniffiTraitMetadata::Hash { hash } => SpecUniffiTraitMetadata::Hash {
                hash: hash.deep_view(),
            },
        }
    }
}

/// The position of a derived trait's variant in the declaration.
pub open spec fn uniffi_trait_tag(v: SpecUniffiTraitMetadata) -> u64 {
    match v {
        SpecUniffiTraitMetadata::Debug { .. } => 0,
        SpecUniffiTraitMetadata::Display { .. } => 1,
        SpecUniffiTraitMetadata::Eq { .. } => 2,
        SpecUniffiTraitMetadata::Hash { .. } => 3,
    }
}

/// The encodings of the methods of a derived trait, in declaration order.
pub open spec fn uniffi_trait_fields_encoding(v: SpecUniffiTraitMetadata) -> Seq<u8> {
    match v {
        SpecUniffiTraitMetadata::Debug { fmt } => MethodMetadata::encoding(fmt),
        SpecUniffiTraitMetadata::Display { fmt } => MethodMetadata::encoding(fmt),
        SpecUniffiTraitMetadata::Eq { eq, ne } => MethodMetadata::encoding(eq)
            + MethodMetadata::encoding(ne),
        SpecUniffiTraitMetadata::Hash { hash } => MethodMetadata::encoding(hash),
    }
}

/// A derived trait is the position of its variant, then its methods in
/// declaration order.
impl Checksum for UniffiTraitMetadata {
    open spec fn encoding(v: SpecUniffiTraitMetadata) -> Seq<u8> {
        u64_le_bytes(uniffi_trait_tag(v)) + uniffi_trait_fields_encoding(v)
    }

    fn checksum(&self, state: &mut ChecksumHasher) {
        let ghost start = state@;
        match self {
            UniffiTraitMetadata::Debug { fmt } => {
                state.write_u64(0);
                fmt.checksum(state);
                proof {
                    lemma_concat_assoc(
                        start,
                        u64_le_bytes(0),
                        MethodMetadata::encoding(fmt.deep_view()),
                    );
                }
            },
            UniffiTraitMetadata::Display { fmt } => {
                state.write_u64(1);
                fmt.checksum(state);
                proof {
                    lemma_concat_assoc(
                        start,
                        u64_le_bytes(1),
                        MethodMetadata::encoding(fmt.deep_view()),
                    );
                }
            },
            UniffiTraitMetadata::Eq { eq, ne } => {
                state.write_u64(2);
                eq.checksum(state);
                ne.checksum(state);
                proof {
                    let tag = u64_le_bytes(2);
                    let first = MethodMetadata::encoding(eq.deep_view());
                    let second = MethodMetadata::encoding(ne.deep_view());
                    lemma_concat_assoc(start, tag, first);
                    lemma_concat_assoc(start, tag + first, second);
                    lemma_concat_assoc(tag, first, second);
                }
            },
            UniffiTraitMetadata::Hash { hash } => {
                state.write_u64(3);
                hash.checksum(state);
                proof {
                    lemma_concat_assoc(
                        start,
                        u64_le_bytes(3),
                        MethodMetadata::encoding(hash.deep_view()),
                    );
                }
            },
        }
    }

    proof fn lemma_prefix_free(a: &Self, b: &Self, rest_a: Seq<u8>, rest_b: Seq<u8>) {
        let va = a.deep_view();
        let vb = b.deep_view();
        let after_tag_a = uniffi_trait_fields_encoding(va) + rest_a;
        let after_tag_b = uniffi_trait_fields_encoding(vb) + rest_b;
        lemma_concat_assoc(
            u64_le_bytes(uniffi_trait_tag(va)),
            uniffi_trait_fields_encoding(va),
            rest_a,
        );
        lemma_concat_assoc(
            u64_le_bytes(uniffi_trait_tag(vb)),
            uniffi_trait_fields_encoding(vb),
            rest_b,
        );
        lemma_u64_prefix_free(
            uniffi_trait_tag(va),
            uniffi_trait_tag(vb),
            after_tag_a,
            after_tag_b,
        );
        match (a, b) {
            (
                UniffiTraitMetadata::Debug { fmt: fmt_a },
                UniffiTraitMetadata::Debug { fmt: fmt_b },
            ) => {
                MethodMetadata::lemma_prefix_free(fmt_a, fmt_b, rest_a, rest_b);
            },
            (
                UniffiTraitMetadata::Display { fmt: fmt_a },
                UniffiTraitMetadata::Display { fmt: fmt_b },
            ) => {
                MethodMetadata::lemma_prefix_free(fmt_a, fmt_b, rest_a, rest_b);
            },
            (
                UniffiTraitMetadata::Eq { eq: eq_a, ne: ne_a },
                UniffiTraitMetadata::Eq { eq: eq_b, ne: ne_b },
            ) => {
                let after_eq_a = MethodMetadata::encoding(ne_a.deep_view()) + rest_a;
                let after_eq_b = MethodMetadata::encoding(ne_b.deep_view()) + rest_b;
                lemma_concat_assoc(
                    MethodMetadata::encoding(eq_a.deep_view()),
                    MethodMetadata::encoding(ne_a.deep_view()),
                    rest_a,
                );
                lemma_concat_assoc(
                    MethodMetadata::encoding(eq_b.deep_view()),
                    MethodMetadata::encoding(ne_b.deep_view()),
                    rest_b,
                );
                MethodMetadata::lemma_prefix_free(eq_a, eq_b, after_eq_a, after_eq_b);
                MethodMetadata::lemma_prefix_free(ne_a, ne_b, rest_a, rest_b);
            },
            (
                UniffiTraitMetadata::Hash { hash: hash_a },
                UniffiTraitMetadata::Hash { hash: hash_b },
            ) => {
                MethodMetadata::lemma_prefix_free(hash_a, hash_b, rest_a, rest_b);
            },
            _ => {},
        }
    }
}

/// An object: its name, how it is implemented, and the traits derived for
/// it.
#[derive(Clone, Debug, PartialEq, Eq, PartialOrd, Ord)]
pub struct ObjectMetadata {
    pub mod_path: String,
    pub name: String,
    pub imp: ObjectImpl,
    pub uniffi_traits: Vec<UniffiTraitMetadata>,
}

/// The logical content of a [`ObjectMetadata`].
pub struct SpecObjectMetadata {
    pub mod_path: Seq<char>,
    pub name: Seq<char>,
    pub imp: ObjectImpl,
    pub uniffi_traits: Seq<SpecUniffiTraitMetadata>,
}

impl DeepView for ObjectMetadata {
    type V = SpecObjectMetadata;

    open spec fn deep_view(&self) -> SpecObjectMetadata {
        SpecObjectMetadata {
            mod_path: self.mod_path.deep_view(),
            name: self.name.deep_view(),
            imp: self.imp.deep_view(),
            uniffi_traits: self.uniffi_traits.deep_view(),
        }
    }
}

/// An object is its fields in declaration order.
impl Checksum for ObjectMetadata {
    open spec fn encoding(v: SpecObjectMetadata) -> Seq<u8> {
        String::encoding(v.mod_path) + String::encoding(v.name) + ObjectImpl::encoding(v.imp)
            + Vec::<UniffiTraitMetadata>::encoding(v.uniffi_traits)
    }

    fn checksum(&self, state: &mut ChecksumHasher) {
        self.mod_path.checksum(state);
        self.name.checksum(state);
        self.imp.checksum(state);
        self.uniffi_traits.checksum(state);
        proof {
            let v = self.deep_view();
            let start = old(state)@;
            let upto_mod_path = String::encoding(v.mod_path);
            lemma_concat_assoc(start, upto_mod_path, String::encoding(v.name));
            let upto_name = upto_mod_path + String::encoding(v.name);
            lemma_concat_assoc(start, upto_name, ObjectImpl::encoding(v.imp));
            let upto_imp = upto_name + ObjectImpl::encoding(v.imp);
            lemma_concat_assoc(
                start,
                upto_imp,
                Vec::<UniffiTraitMetadata>::encoding(v.uniffi_traits),
            );
        }
    }

    proof fn lemma_prefix_free(a: &Self, b: &Self, rest_a: Seq<u8>, rest_b: Seq<u8>) {
        let va = a.deep_view();
        let vb = b.deep_view();
        let upto_mod_path_a = String::encoding(va.mod_path);
        let upto_mod_path_b = String::encoding(vb.mod_path);
        let upto_name_a = upto_mod_path_a + String::encoding(va.name);
        let upto_name_b = upto_mod_path_b + String::encoding(vb.name);
        let upto_imp_a = upto_name_a + ObjectImpl::encoding(va.imp);
        let upto_imp_b = upto_name_b + ObjectImpl::encoding(vb.imp);
        let after_imp_a = Vec::<UniffiTraitMetadata>::encoding(va.uniffi_traits) + rest_a;
        lemma_concat_assoc(
            upto_imp_a,
            Vec::<UniffiTraitMetadata>::encoding(va.uniffi_traits),
            rest_a,
        );
        let after_imp_b = Vec::<UniffiTraitMetadata>::encoding(vb.uniffi_traits) + rest_b;
        lemma_concat_assoc(
            upto_imp_b,
            Vec::<UniffiTraitMetadata>::encoding(vb.uniffi_traits),
            rest_b,
        );
        let after_name_a = ObjectImpl::encoding(va.imp) + after_imp_a;
        lemma_concat_assoc(upto_name_a, ObjectImpl::encoding(va.imp), after_imp_a);
        let after_name_b = ObjectImpl::encoding(vb.imp) + after_imp_b;
        lemma_concat_assoc(upto_name_b, ObjectImpl::encoding(vb.imp), after_imp_b);
        let after_mod_path_a = String::encoding(va.name) + after_name_a;
        lemma_concat_assoc(upto_mod_path_a, String::encoding(va.name), after_name_a);
        let after_mod_path_b = String::encoding(vb.name) + after_name_b;
        lemma_concat_assoc(upto_mod_path_b, String::encoding(vb.name), after_name_b);
        String::lemma_prefix_free(&a.mod_path, &b.mod_path, after_mod_path_a, after_mod_path_b);
        String::lemma_prefix_free(&a.name, &b.name, after_name_a, after_name_b);
        ObjectImpl::lemma_prefix_free(&a.imp, &b.imp, after_imp_a, after_imp_b);
        Vec::<UniffiTraitMetadata>::lemma_prefix_free(
            &a.uniffi_traits,
            &b.uniffi_traits,
            rest_a,
            rest_b,
        );
    }
}

impl ObjectMetadata {
    /// The name of the entry point that frees an object of this kind.
    pub fn free_ffi_symbol_name(&self) -> (symbol: String)
        ensures
            symbol@ == spec_free_fn_symbol_name(self.mod_path@, self.name@),
    {
        free_fn_symbol_name(self.mod_path.as_str(), self.name.as_str())
    }
}

} // verus!
