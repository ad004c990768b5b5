//! Callable declarations: functions, constructors, methods and trait methods,
//! and their parameters.

use crate::encoding::{lemma_concat_assoc, Checksum};
use crate::ffi_names::{
    constructor_checksum_symbol_name, constructor_symbol_name, fn_checksum_symbol_name,
    fn_symbol_name, method_checksum_symbol_name, method_symbol_name,
    spec_constructor_checksum_symbol_name, spec_constructor_symbol_name,
    spec_fn_checksum_symbol_name, spec_fn_symbol_name, spec_method_checksum_symbol_name,
    spec_method_symbol_name,
};
use crate::hasher::ChecksumHasher;
use crate::literal::{LiteralMetadata, SpecLiteralMetadata};
use crate::types::{SpecType, Type};
use vstd::prelude::*;

verus! {

/// A parameter of a callable. The order of the parameters of a callable is
/// part of its calling convention.
#[derive(Clone, Debug, PartialEq, Eq, PartialOrd, Ord)]
pub struct FnParamMetadata {
    pub name: String,
    pub ty: Type,
    pub by_ref: bool,
    pub optional: bool,
    pub default: Option<LiteralMetadata>,
}

/// The logical content of a [`FnParamMetadata`].
pub struct SpecFnParamMetadata {
    pub name: Seq<char>,
    pub ty: SpecType,
    pub by_ref: bool,
    pub optional: bool,
    pub default: Option<SpecLiteralMetadata>,
}

impl DeepView for FnParamMetadata {
    type V = SpecFnParamMetadata;

    open spec fn deep_view(&self) -> SpecFnParamMetadata {
        SpecFnParamMetadata {
            name: self.name.deep_view(),
            ty: self.ty.deep_view(),
            by_ref: self.by_ref.deep_view(),
            optional: self.optional.deep_view(),
            default: self.default.deep_view(),
        }
    }
}

/// A parameter is its fields in declaration order.
impl Checksum for FnParamMetadata {
    open spec fn encoding(v: SpecFnParamMetadata) -> Seq<u8> {
        String::encoding(v.name) + Type::encoding(v.ty) + bool::encoding(v.by_ref)
            + bool::encoding(v.optional) + Option::<LiteralMetadata>::encoding(v.default)
    }

    fn checksum(&self, state: &mut ChecksumHasher) {
        self.name.checksum(state);
        self.ty.checksum(state);
        self.by_ref.checksum(state);
        self.optional.checksum(state);
        self.default.checksum(state);
        proof {
            let v = self.deep_view();
            let start = old(state)@;
            let upto_name = String::encoding(v.name);
            lemma_concat_assoc(start, upto_name, Type::encoding(v.ty));
            let upto_ty = upto_name + Type::encoding(v.ty);
            lemma_concat_assoc(start, upto_ty, bool::encoding(v.by_ref));
            let upto_by_ref = upto_ty + bool::encoding(v.by_ref);
            lemma_concat_assoc(start, upto_by_ref, bool::encoding(v.optional));
            let upto_optional = upto_by_ref + bool::encoding(v.optional);
            lemma_concat_assoc(
                start,
                upto_optional,
                Option::<LiteralMetadata>::encoding(v.default),
            );
        }
    }

    proof fn lemma_prefix_free(a: &Self, b: &Self, rest_a: Seq<u8>, rest_b: Seq<u8>) {
        let va = a.deep_view();
        let vb = b.deep_view();
        let upto_name_a = String::encoding(va.name);
        let upto_name_b = String::encoding(vb.name);
        let upto_ty_a = upto_name_a + Type::encoding(va.ty);
        let upto_ty_b = upto_name_b + Type::encoding(vb.ty);
        let upto_by_ref_a = upto_ty_a + bool::encoding(va.by_ref);
        let upto_by_ref_b = upto_ty_b + bool::encoding(vb.by_ref);
        let upto_optional_a = upto_by_ref_a + bool::encoding(va.optional);
        let upto_optional_b = upto_by_ref_b + bool::encoding(vb.optional);
        let after_optional_a = Option::<LiteralMetadata>::encoding(va.default) + rest_a;
        lemma_concat_assoc(
            upto_optional_a,
            Option::<LiteralMetadata>::encoding(va.default),
            rest_a,
        );
        let after_optional_b = Option::<LiteralMetadata>::encoding(vb.default) + rest_b;
        lemma_concat_assoc(
            upto_optional_b,
            Option::<LiteralMetadata>::encoding(vb.default),
            rest_b,
        );
        let after_by_ref_a = bool::encoding(va.optional) + after_optional_a;
        lemma_concat_assoc(upto_by_ref_a, bool::encoding(va.optional), after_optional_a);
        let after_by_ref_b = bool::encoding(vb.optional) + after_optional_b;
        lemma_concat_assoc(upto_by_ref_b, bool::encoding(vb.optional), after_optional_b);
        let after_ty_a = bool::encoding(va.by_ref) + after_by_ref_a;
        lemma_concat_assoc(upto_ty_a, bool::encoding(va.by_ref), after_by_ref_a);
        let after_ty_b = bool::encoding(vb.by_ref) + after_by_ref_b;
        lemma_concat_assoc(upto_ty_b, bool::encoding(vb.by_ref), after_by_ref_b);
        let after_name_a = Type::encoding(va.ty) + after_ty_a;
        lemma_concat_assoc(upto_name_a, Type::encoding(va.ty), after_ty_a);
        let after_name_b = Type::encoding(vb.ty) + after_ty_b;
        lemma_concat_assoc(upto_name_b, Type::encoding(vb.ty), after_ty_b);
        String::lemma_prefix_free(&a.name, &b.name, after_name_a, after_name_b);
        Type::lemma_prefix_free(&a.ty, &b.ty, after_ty_a, after_ty_b);
        bool::lemma_prefix_free(&a.by_ref, &b.by_ref, after_by_ref_a, after_by_ref_b);
        bool::lemma_prefix_free(&a.optional, &b.optional, after_optional_a, after_optional_b);
        Option::<LiteralMetadata>::lemma_prefix_free(&a.default, &b.default, rest_a, rest_b);
    }
}

impl FnParamMetadata {
    /// A parameter passed by value, not optional and without a default.
    pub fn simple(name: &str, ty: Type) -> (param: Self)
        ensures
            param.deep_view() == (SpecFnParamMetadata {
                name: name@,
                ty: ty.deep_view(),
                by_ref: false,
                optional: false,
                default: None,
            }),
    {
        Self { name: name.to_owned(), ty, by_ref: false, optional: false, default: None }
    }
}

/// A top-level function.
#[derive(Clone, Debug, PartialEq, Eq, PartialOrd, Ord)]
pub struct FnMetadata {
    pub mod_path: String,
    pub name: String,
    pub is_async: bool,
    pub inputs: Vec<FnParamMetadata>,
    pub return_type: Option<Type>,
    pub throws: Option<Type>,
    pub checksum: Option<u16>,
}

/// The logical content of a [`FnMetadata`].
pub struct SpecFnMetadata {
    pub mod_path: Seq<char>,
    pub name: Seq<char>,
    pub is_async: bool,
    pub inputs: Seq<SpecFnParamMetadata>,
    pub return_type: Option<SpecType>,
    pub throws: Option<SpecType>,
    pub checksum: Option<u16>,
}

impl DeepView for FnMetadata {
    type V = SpecFnMetadata;

    open spec fn deep_view(&self) -> SpecFnMetadata {
        SpecFnMetadata {
            mod_path: self.mod_path.deep_view(),
            name: self.name.deep_view(),
            is_async: self.is_async.deep_view(),
            inputs: self.inputs.deep_view(),
            return_type: self.return_type.deep_view(),
            throws: self.throws.deep_view(),
            checksum: self.checksum.deep_view(),
        }
    }
}

/// A function is its fields in declaration order.
impl Checksum for FnMetadata {
    open spec fn encoding(v: SpecFnMetadata) -> Seq<u8> {
        String::encoding(v.mod_path) + String::encoding(v.name) + bool::encoding(v.is_async)
            + Vec::<FnParamMetadata>::encoding(v.inputs)
            + Option::<Type>::encoding(v.return_type) + Option::<Type>::encoding(v.throws)
            + Option::<u16>::encoding(v.checksum)
    }

    fn checksum(&self, state: &mut ChecksumHasher) {
        self.mod_path.checksum(state);
        self.name.checksum(state);
        self.is_async.checksum(state);
        self.inputs.checksum(state);
        self.return_type.checksum(state);
        self.throws.checksum(state);
        self.checksum.checksum(state);
        proof {
            let v = self.deep_view();
            let start = old(state)@;
            let upto_mod_path = String::encoding(v.mod_path);
            lemma_concat_assoc(start, upto_mod_path, String::encoding(v.name));
            let upto_name = upto_mod_path + String::encoding(v.name);
            lemma_concat_assoc(start, upto_name, bool::encoding(v.is_async));
            let upto_is_async = upto_name + bool::encoding(v.is_async);
            lemma_concat_assoc(start, upto_is_async, Vec::<FnParamMetadata>::encoding(v.inputs));
            let upto_inputs = upto_is_async + Vec::<FnParamMetadata>::encoding(v.inputs);
            lemma_concat_assoc(start, upto_inputs, Option::<Type>::encoding(v.return_type));
            let upto_return_type = upto_inputs + Option::<Type>::encoding(v.return_type);
            lemma_concat_assoc(start, upto_return_type, Option::<Type>::encoding(v.throws));
            let upto_throws = upto_return_type + Option::<Type>::encoding(v.throws);
            lemma_concat_assoc(start, upto_throws, Option::<u16>::encoding(v.checksum));
        }
    }

    proof fn lemma_prefix_free(a: &Self, b: &Self, rest_a: Seq<u8>, rest_b: Seq<u8>) {
        let va = a.deep_view();
        let vb = b.deep_view();
        let upto_mod_path_a = String::encoding(va.mod_path);
        let upto_mod_path_b = String::encoding(vb.mod_path);
        let upto_name_a = upto_mod_path_a + String::encoding(va.name);
        let upto_name_b = upto_mod_path_b + String::encoding(vb.name);
        let upto_is_async_a = upto_name_a + bool::encoding(va.is_async);
        let upto_is_async_b = upto_name_b + bool::encoding(vb.is_async);
        let upto_inputs_a = upto_is_async_a + Vec::<FnParamMetadata>::encoding(va.inputs);
        let upto_inputs_b = upto_is_async_b + Vec::<FnParamMetadata>::encoding(vb.inputs);
        let upto_return_type_a = upto_inputs_a + Option::<Type>::encoding(va.return_type);
        let upto_return_type_b = upto_inputs_b + Option::<Type>::encoding(vb.return_type);
        let upto_throws_a = upto_return_type_a + Option::<Type>::encoding(va.throws);
        let upto_throws_b = upto_return_type_b + Option::<Type>::encoding(vb.throws);
        let after_throws_a = Option::<u16>::encoding(va.checksum) + rest_a;
        lemma_concat_assoc(upto_throws_a, Option::<u16>::encoding(va.checksum), rest_a);
        let after_throws_b = Option::<u16>::encoding(vb.checksum) + rest_b;
        lemma_concat_assoc(upto_throws_b, Option::<u16>::encoding(vb.checksum), rest_b);
        let after_return_type_a = Option::<Type>::encoding(va.throws) + after_throws_a;
        lemma_concat_assoc(upto_return_type_a, Option::<Type>::encoding(va.throws), after_throws_a);
        let after_return_type_b = Option::<Type>::encoding(vb.throws) + after_throws_b;
        lemma_concat_assoc(upto_return_type_b, Option::<Type>::encoding(vb.throws), after_throws_b);
        let after_inputs_a = Option::<Type>::encoding(va.return_type) + after_return_type_a;
        lemma_concat_assoc(
            upto_inputs_a,
            Option::<Type>::encoding(va.return_type),
            after_return_type_a,
        );
        let after_inputs_b = Option::<Type>::encoding(vb.return_type) + after_return_type_b;
        lemma_concat_assoc(
            upto_inputs_b,
            Option::<Type>::encoding(vb.return_type),
            after_return_type_b,
        );
        let after_is_async_a = Vec::<FnParamMetadata>::encoding(va.inputs) + after_inputs_a;
        lemma_concat_assoc(
            upto_is_async_a,
            Vec::<FnParamMetadata>::encoding(va.inputs),
            after_inputs_a,
        );
        let after_is_async_b = Vec::<FnParamMetadata>::encoding(vb.inputs) + after_inputs_b;
        lemma_concat_assoc(
            upto_is_async_b,
            Vec::<FnParamMetadata>::encoding(vb.inputs),
            after_inputs_b,
        );
        let after_name_a = bool::encoding(va.is_async) + after_is_async_a;
        lemma_concat_assoc(upto_name_a, bool::encoding(va.is_async), after_is_async_a);
        let after_name_b = bool::encoding(vb.is_async) + after_is_async_b;
        lemma_concat_assoc(upto_name_b, bool::encoding(vb.is_async), after_is_async_b);
        let after_mod_path_a = String::encoding(va.name) + after_name_a;
        lemma_concat_assoc(upto_mod_path_a, String::encoding(va.name), after_name_a);
        let after_mod_path_b = String::encoding(vb.name) + after_name_b;
        lemma_concat_assoc(upto_mod_path_b, String::encoding(vb.name), after_name_b);
        String::lemma_prefix_free(&a.mod_path, &b.mod_path, after_mod_path_a, after_mod_path_b);
        String::lemma_prefix_free(&a.name, &b.name, after_name_a, after_name_b);
        bool::lemma_prefix_free(&a.is_async, &b.is_async, after_is_async_a, after_is_async_b);
        Vec::<FnParamMetadata>::lemma_prefix_free(
            &a.inputs,
            &b.inputs,
            after_inputs_a,
            after_inputs_b,
        );
        Option::<Type>::lemma_prefix_free(
            &a.return_type,
            &b.return_type,
            after_return_type_a,
            after_return_type_b,
        );
        Option::<Type>::lemma_prefix_free(&a.throws, &b.throws, after_throws_a, after_throws_b);
        Option::<u16>::lemma_prefix_free(&a.checksum, &b.checksum, rest_a, rest_b);
    }
}

impl FnMetadata {
    /// The name of the function's entry point.
    pub fn ffi_symbol_name(&self) -> (symbol: String)
        ensures
            symbol@ == spec_fn_symbol_name(self.mod_path@, self.name@),
    {
        fn_symbol_name(self.mod_path.as_str(), self.name.as_str())
    }

    /// The name of the function's checksum accessor.
    pub fn checksum_symbol_name(&self) -> (symbol: String)
        ensures
            symbol@ == spec_fn_checksum_symbol_name(self.mod_path@, self.name@),
    {
        fn_checksum_symbol_name(self.mod_path.as_str(), self.name.as_str())
    }
}

/// A constructor of an object.
#[derive(Clone, Debug, PartialEq, Eq, PartialOrd, Ord)]
pub struct ConstructorMetadata {
    pub mod_path: String,
    pub self_name: String,
    pub name: String,
    pub inputs: Vec<FnParamMetadata>,
    pub throws: Option<Type>,
    pub checksum: Option<u16>,
}

/// The logical content of a [`ConstructorMetadata`].
pub struct SpecConstructorMetadata {
    pub mod_path: Seq<char>,
    pub self_name: Seq<char>,
    pub name: Seq<char>,
    pub inputs: Seq<SpecFnParamMetadata>,
    pub throws: Option<SpecType>,
    pub checksum: Option<u16>,
}

impl DeepView for ConstructorMetadata {
    type V = SpecConstructorMetadata;

    open spec fn deep_view(&self) -> SpecConstructorMetadata {
        SpecConstructorMetadata {
            mod_path: self.mod_path.deep_view(),
            self_name: self.self_name.deep_view(),
            name: self.name.deep_view(),
            inputs: self.inputs.deep_view(),
            throws: self.throws.deep_view(),
            checksum: self.checksum.deep_view(),
        }
    }
}

/// A constructor is its fields in declaration order.
impl Checksum for ConstructorMetadata {
    open spec fn encoding(v: SpecConstructorMetadata) -> Seq<u8> {
        String::encoding(v.mod_path) + String::encoding(v.self_name) + String::encoding(v.name)
            + Vec::<FnParamMetadata>::encoding(v.inputs) + Option::<Type>::encoding(v.throws)
            + Option::<u16>::encoding(v.checksum)
    }

    fn checksum(&self, state: &mut ChecksumHasher) {
        self.mod_path.checksum(state);
        self.self_name.checksum(state);
        self.name.checksum(state);
        self.inputs.checksum(state);
        self.throws.checksum(state);
        self.checksum.checksum(state);
        proof {
            let v = self.deep_view();
            let start = old(state)@;
            let upto_mod_path = String::encoding(v.mod_path);
            lemma_concat_assoc(start, upto_mod_path, String::encoding(v.self_name));
            let upto_self_name = upto_mod_path + String::encoding(v.self_name);
            lemma_concat_assoc(start, upto_self_name, String::encoding(v.name));
            let upto_name = upto_self_name + String::encoding(v.name);
            lemma_concat_assoc(start, upto_name, Vec::<FnParamMetadata>::encoding(v.inputs));
            let upto_inputs = upto_name + Vec::<FnParamMetadata>::encoding(v.inputs);
            lemma_concat_assoc(start, upto_inputs, Option::<Type>::encoding(v.throws));
            let upto_throws = upto_inputs + Option::<Type>::encoding(v.throws);
            lemma_concat_assoc(start, upto_throws, Option::<u16>::encoding(v.checksum));
        }
    }

    proof fn lemma_prefix_free(a: &Self, b: &Self, rest_a: Seq<u8>, rest_b: Seq<u8>) {
        let va = a.deep_view();
        let vb = b.deep_view();
        let upto_mod_path_a = String::encoding(va.mod_path);
        let upto_mod_path_b = String::encoding(vb.mod_path);
        let upto_self_name_a = upto_mod_path_a + String::encoding(va.self_name);
        let upto_self_name_b = upto_mod_path_b + String::encoding(vb.self_name);
        let upto_name_a = upto_self_name_a + String::encoding(va.name);
        let upto_name_b = upto_self_name_b + String::encoding(vb.name);
        let upto_inputs_a = upto_name_a + Vec::<FnParamMetadata>::encoding(va.inputs);
        let upto_inputs_b = upto_name_b + Vec::<FnParamMetadata>::encoding(vb.inputs);
        let upto_throws_a = upto_inputs_a + Option::<Type>::encoding(va.throws);
        let upto_throws_b = upto_inputs_b + Option::<Type>::encoding(vb.throws);
        let after_throws_a = Option::<u16>::encoding(va.checksum) + rest_a;
        lemma_concat_assoc(upto_throws_a, Option::<u16>::encoding(va.checksum), rest_a);
        let after_throws_b = Option::<u16>::encoding(vb.checksum) + rest_b;
        lemma_concat_assoc(upto_throws_b, Option::<u16>::encoding(vb.checksum), rest_b);
        let after_inputs_a = Option::<Type>::encoding(va.throws) + after_throws_a;
        lemma_concat_assoc(upto_inputs_a, Option::<Type>::encoding(va.throws), after_throws_a);
        let after_inputs_b = Option::<Type>::encoding(vb.throws) + after_throws_b;
        lemma_concat_assoc(upto_inputs_b, Option::<Type>::encoding(vb.throws), after_throws_b);
        let after_name_a = Vec::<FnParamMetadata>::encoding(va.inputs) + after_inputs_a;
        lemma_concat_assoc(
            upto_name_a,
            Vec::<FnParamMetadata>::encoding(va.inputs),
            after_inputs_a,
        );
        let after_name_b = Vec::<FnParamMetadata>::encoding(vb.inputs) + after_inputs_b;
        lemma_concat_assoc(
            upto_name_b,
            Vec::<FnParamMetadata>::encoding(vb.inputs),
            after_inputs_b,
        );
        let after_self_name_a = String::encoding(va.name) + after_name_a;
        lemma_concat_assoc(upto_self_name_a, String::encoding(va.name), after_name_a);
        let after_self_name_b = String::encoding(vb.name) + after_name_b;
        lemma_concat_assoc(upto_self_name_b, String::encoding(vb.name), after_name_b);
        let after_mod_path_a = String::encoding(va.self_name) + after_self_name_a;
        lemma_concat_assoc(upto_mod_path_a, String::encoding(va.self_name), after_self_name_a);
        let after_mod_path_b = String::encoding(vb.self_name) + after_self_name_b;
        lemma_concat_assoc(upto_mod_path_b, String::encoding(vb.self_name), after_self_name_b);
        String::lemma_prefix_free(&a.mod_path, &b.mod_path, after_mod_path_a, after_mod_path_b);
        String::lemma_prefix_free(&a.self_name, &b.self_name, after_self_name_a, after_self_name_b);
        String::lemma_prefix_free(&a.name, &b.name, after_name_a, after_name_b);
        Vec::<FnParamMetadata>::lemma_prefix_free(
            &a.inputs,
            &b.inputs,
            after_inputs_a,
            after_inputs_b,
        );
        Option::<Type>::lemma_prefix_free(&a.throws, &b.throws, after_throws_a, after_throws_b);
        Option::<u16>::lemma_prefix_free(&a.checksum, &b.checksum, rest_a, rest_b);
    }
}

impl ConstructorMetadata {
    /// The name of the constructor's entry point.
    pub fn ffi_symbol_name(&self) -> (symbol: String)
        ensures
            symbol@ == spec_constructor_symbol_name(self.mod_path@, self.self_name@, self.name@),
    {
        constructor_symbol_name(
            self.mod_path.as_str(),
            self.self_name.as_str(),
            self.name.as_str(),
        )
    }

    /// The name of the constructor's checksum accessor.
    pub fn checksum_symbol_name(&self) -> (symbol: String)
        ensures
            symbol@ == spec_constructor_checksum_symbol_name(
                self.mod_path@,
                self.self_name@,
                self.name@,
            ),
    {
        constructor_checksum_symbol_name(
            self.mod_path.as_str(),
            self.self_name.as_str(),
            self.name.as_str(),
        )
    }

    /// Whether this is the primary constructor of its object: the one named
    /// `new`.
    pub fn is_primary(&self) -> (primary: bool)
        ensures
            primary == (self.name@ == "new"@),
    {
        let primary_name = "new".to_owned();
        self.name == primary_name
    }
}

/// A method of an object.
#[derive(Clone, Debug, PartialEq, Eq, PartialOrd, Ord)]
pub struct MethodMetadata {
    pub mod_path: String,
    pub self_name: String,
    pub name: String,
    pub is_async: bool,
    pub inputs: Vec<FnParamMetadata>,
    pub return_type: Option<Type>,
    pub throws: Option<Type>,
    /// Whether the receiver is held by a shared-ownership handle. Nothing
    /// here reads it; it is kept for those who consume the schema.
    pub takes_self_by_arc: bool,
    pub checksum: Option<u16>,
}

/// The logical content of a [`MethodMetadata`].
pub struct SpecMethodMetadata {
    pub mod_path: Seq<char>,
    pub self_name: Seq<char>,
    pub name: Seq<char>,
    pub is_async: bool,
    pub inputs: Seq<SpecFnParamMetadata>,
    pub return_type: Option<SpecType>,
    pub throws: Option<SpecType>,
    pub takes_self_by_arc: bool,
    pub checksum: Option<u16>,
}

impl DeepView for MethodMetadata {
    type V = SpecMethodMetadata;

    open spec fn deep_view(&self) -> SpecMethodMetadata {
        SpecMethodMetadata {
            mod_path: self.mod_path.deep_view(),
            self_name: self.self_name.deep_view(),
            name: self.name.deep_view(),
            is_async: self.is_async.deep_view(),
            inputs: self.inputs.deep_view(),
            return_type: self.return_type.deep_view(),
            throws: self.throws.deep_view(),
            takes_self_by_arc: self.takes_self_by_arc.deep_view(),
            checksum: self.checksum.deep_view(),
        }
    }
}

/// A method is its fields in declaration order.
impl Checksum for MethodMetadata {
    open spec fn encoding(v: SpecMethodMetadata) -> Seq<u8> {
        String::encoding(v.mod_path) + String::encoding(v.self_name) + String::encoding(v.name)
            + bool::encoding(v.is_async) + Vec::<FnParamMetadata>::encoding(v.inputs)
            + Option::<Type>::encoding(v.return_type) + Option::<Type>::encoding(v.throws)
            + bool::encoding(v.takes_self_by_arc) + Option::<u16>::encoding(v.checksum)
    }

    fn checksum(&self, state: &mut ChecksumHasher) {
        self.mod_path.checksum(state);
        self.self_name.checksum(state);
        self.name.checksum(state);
        self.is_async.checksum(state);
        self.inputs.checksum(state);
        self.return_type.checksum(state);
        self.throws.checksum(state);
        self.takes_self_by_arc.checksum(state);
        self.checksum.checksum(state);
        proof {
            let v = self.deep_view();
            let start = old(state)@;
            let upto_mod_path = String::encoding(v.mod_path);
            lemma_concat_assoc(start, upto_mod_path, String::encoding(v.self_name));
            let upto_self_name = upto_mod_path + String::encoding(v.self_name);
            lemma_concat_assoc(start, upto_self_name, String::encoding(v.name));
            let upto_name = upto_self_name + String::encoding(v.name);
            lemma_concat_assoc(start, upto_name, bool::encoding(v.is_async));
            let upto_is_async = upto_name + bool::encoding(v.is_async);
            lemma_concat_assoc(start, upto_is_async, Vec::<FnParamMetadata>::encoding(v.inputs));
            let upto_inputs = upto_is_async + Vec::<FnParamMetadata>::encoding(v.inputs);
            lemma_concat_assoc(start, upto_inputs, Option::<Type>::encoding(v.return_type));
            let upto_return_type = upto_inputs + Option::<Type>::encoding(v.return_type);
            lemma_concat_assoc(start, upto_return_type, Option::<Type>::encoding(v.throws));
            let upto_throws = upto_return_type + Option::<Type>::encoding(v.throws);
            lemma_concat_assoc(start, upto_throws, bool::encoding(v.takes_self_by_arc));
            let upto_takes_self_by_arc = upto_throws + bool::encoding(v.takes_self_by_arc);
            lemma_concat_assoc(start, upto_takes_self_by_arc, Option::<u16>::encoding(v.checksum));
        }
    }

    proof fn lemma_prefix_free(a: &Self, b: &Self, rest_a: Seq<u8>, rest_b: Seq<u8>) {
        let va = a.deep_view();
        let vb = b.deep_view();
        let upto_mod_path_a = String::encoding(va.mod_path);
        let upto_mod_path_b = String::encoding(vb.mod_path);
        let upto_self_name_a = upto_mod_path_a + String::encoding(va.self_name);
        let upto_self_name_b = upto_mod_path_b + String::encoding(vb.self_name);
        let upto_name_a = upto_self_name_a + String::encoding(va.name);
        let upto_name_b = upto_self_name_b + String::encoding(vb.name);
        let upto_is_async_a = upto_name_a + bool::encoding(va.is_async);
        let upto_is_async_b = upto_name_b + bool::encoding(vb.is_async);
        let upto_inputs_a = upto_is_async_a + Vec::<FnParamMetadata>::encoding(va.inputs);
        let upto_inputs_b = upto_is_async_b + Vec::<FnParamMetadata>::encoding(vb.inputs);
        let upto_return_type_a = upto_inputs_a + Option::<Type>::encoding(va.return_type);
        let upto_return_type_b = upto_inputs_b + Option::<Type>::encoding(vb.return_type);
        let upto_throws_a = upto_return_type_a + Option::<Type>::encoding(va.throws);
        let upto_throws_b = upto_return_type_b + Option::<Type>::encoding(vb.throws);
        let upto_takes_self_by_arc_a = upto_throws_a + bool::encoding(va.takes_self_by_arc);
        let upto_takes_self_by_arc_b = upto_throws_b + bool::encoding(vb.takes_self_by_arc);
        let after_takes_self_by_arc_a = Option::<u16>::encoding(va.checksum) + rest_a;
        lemma_concat_assoc(upto_takes_self_by_arc_a, Option::<u16>::encoding(va.checksum), rest_a);
        let after_takes_self_by_arc_b = Option::<u16>::encoding(vb.checksum) + rest_b;
        lemma_concat_assoc(upto_takes_self_by_arc_b, Option::<u16>::encoding(vb.checksum), rest_b);
        let after_throws_a = bool::encoding(va.takes_self_by_arc) + after_takes_self_by_arc_a;
        lemma_concat_assoc(
            upto_throws_a,
            bool::encoding(va.takes_self_by_arc),
            after_takes_self_by_arc_a,
        );
        let after_throws_b = bool::encoding(vb.takes_self_by_arc) + after_takes_self_by_arc_b;
        lemma_concat_assoc(
            upto_throws_b,
            bool::encoding(vb.takes_self_by_arc),
            after_takes_self_by_arc_b,
        );
        let after_return_type_a = Option::<Type>::encoding(va.throws) + after_throws_a;
        lemma_concat_assoc(upto_return_type_a, Option::<Type>::encoding(va.throws), after_throws_a);
        let after_return_type_b = Option::<Type>::encoding(vb.throws) + after_throws_b;
        lemma_concat_assoc(upto_return_type_b, Option::<Type>::encoding(vb.throws), after_throws_b);
        let after_inputs_a = Option::<Type>::encoding(va.return_type) + after_return_type_a;
        lemma_concat_assoc(
            upto_inputs_a,
            Option::<Type>::encoding(va.return_type),
            after_return_type_a,
        );
        let after_inputs_b = Option::<Type>::encoding(vb.return_type) + after_return_type_b;
        lemma_concat_assoc(
            upto_inputs_b,
            Option::<Type>::encoding(vb.return_type),
            after_return_type_b,
        );
        let after_is_async_a = Vec::<FnParamMetadata>::encoding(va.inputs) + after_inputs_a;
        lemma_concat_assoc(
            upto_is_async_a,
            Vec::<FnParamMetadata>::encoding(va.inputs),
            after_inputs_a,
        );
        let after_is_async_b = Vec::<FnParamMetadata>::encoding(vb.inputs) + after_inputs_b;
        lemma_concat_assoc(
            upto_is_async_b,
            Vec::<FnParamMetadata>::encoding(vb.inputs),
            after_inputs_b,
        );
        let after_name_a = bool::encoding(va.is_async) + after_is_async_a;
        lemma_concat_assoc(upto_name_a, bool::encoding(va.is_async), after_is_async_a);
        let after_name_b = bool::encoding(vb.is_async) + after_is_async_b;
        lemma_concat_assoc(upto_name_b, bool::encoding(vb.is_async), after_is_async_b);
        let after_self_name_a = String::encoding(va.name) + after_name_a;
        lemma_concat_assoc(upto_self_name_a, String::encoding(va.name), after_name_a);
        let after_self_name_b = String::encoding(vb.name) + after_name_b;
        lemma_concat_assoc(upto_self_name_b, String::encoding(vb.name), after_name_b);
        let after_mod_path_a = String::encoding(va.self_name) + after_self_name_a;
        lemma_concat_assoc(upto_mod_path_a, String::encoding(va.self_name), after_self_name_a);
        let after_mod_path_b = String::encoding(vb.self_name) + after_self_name_b;
        lemma_concat_assoc(upto_mod_path_b, String::encoding(vb.self_name), after_self_name_b);
        String::lemma_prefix_free(&a.mod_path, &b.mod_path, after_mod_path_a, after_mod_path_b);
        String::lemma_prefix_free(&a.self_name, &b.self_name, after_self_name_a, after_self_name_b);
        String::lemma_prefix_free(&a.name, &b.name, after_name_a, after_name_b);
        bool::lemma_prefix_free(&a.is_async, &b.is_async, after_is_async_a, after_is_async_b);
        Vec::<FnParamMetadata>::lemma_prefix_free(
            &a.inputs,
            &b.inputs,
            after_inputs_a,
            after_inputs_b,
        );
        Option::<Type>::lemma_prefix_free(
            &a.return_type,
            &b.return_type,
            after_return_type_a,
            after_return_type_b,
        );
        Option::<Type>::lemma_prefix_free(&a.throws, &b.throws, after_throws_a, after_throws_b);
        bool::lemma_prefix_free(
            &a.takes_self_by_arc,
            &b.takes_self_by_arc,
            after_takes_self_by_arc_a,
            after_takes_self_by_arc_b,
        );
        Option::<u16>::lemma_prefix_free(&a.checksum, &b.checksum, rest_a, rest_b);
    }
}

impl MethodMetadata {
    /// The name of the method's entry point.
    pub fn ffi_symbol_name(&self) -> (symbol: String)
        ensures
            symbol@ == spec_method_symbol_name(self.mod_path@, self.self_name@, self.name@),
    {
        method_symbol_name(self.mod_path.as_str(), self.self_name.as_str(), self.name.as_str())
    }

    /// The name of the method's checksum accessor.
    pub fn checksum_symbol_name(&self) -> (symbol: String)
        ensures
            symbol@ == spec_method_checksum_symbol_name(
                self.mod_path@,
                self.self_name@,
                self.name@,
            ),
    {
        method_checksum_symbol_name(
            self.mod_path.as_str(),
            self.self_name.as_str(),
            self.name.as_str(),
        )
    }
}

/// A method of a trait or callback interface.
#[derive(Clone, Debug, PartialEq, Eq, PartialOrd, Ord)]
pub struct TraitMethodMetadata {
    pub mod_path: String,
    pub trait_name: String,
    /// The position of the method in its trait. It fixes the order of the
    /// table through which the method is called, and it stands before the
    /// name so that the derived order of methods is the order of the table.
    pub index: u32,
    pub name: String,
    pub is_async: bool,
    pub inputs: Vec<FnParamMetadata>,
    pub return_type: Option<Type>,
    pub throws: Option<Type>,
    /// Whether the receiver is held by a shared-ownership handle. Nothing
    /// here reads it; it is kept for those who consume the schema.
    pub takes_self_by_arc: bool,
    pub checksum: Option<u16>,
}

/// The logical content of a [`TraitMethodMetadata`].
pub struct SpecTraitMethodMetadata {
    pub mod_path: Seq<char>,
    pub trait_name: Seq<char>,
    pub index: u32,
    pub name: Seq<char>,
    pub is_async: bool,
    pub inputs: Seq<SpecFnParamMetadata>,
    pub return_type: Option<SpecType>,
    pub throws: Option<SpecType>,
    pub takes_self_by_arc: bool,
    pub checksum: Option<u16>,
}

impl DeepView for TraitMethodMetadata {
    type V = SpecTraitMethodMetadata;

    open spec fn deep_view(&self) -> SpecTraitMethodMetadata {
        SpecTraitMethodMetadata {
            mod_path: self.mod_path.deep_view(),
            trait_name: self.trait_name.deep_view(),
            index: self.index.deep_view(),
            name: self.name.deep_view(),
            is_async: self.is_async.deep_view(),
            inputs: self.inputs.deep_view(),
            return_type: self.return_type.deep_view(),
            throws: self.throws.deep_view(),
            takes_self_by_arc: self.takes_self_by_arc.deep_view(),
            checksum: self.checksum.deep_view(),
        }
    }
}

/// A trait method is its fields in declaration order, its index among them.
impl Checksum for TraitMethodMetadata {
    open spec fn encoding(v: SpecTraitMethodMetadata) -> Seq<u8> {
        String::encoding(v.mod_path) + String::encoding(v.trait_name) + u32::encoding(v.index)
            + String::encoding(v.name) + bool::encoding(v.is_async)
            + Vec::<FnParamMetadata>::encoding(v.inputs)
            + Option::<Type>::encoding(v.return_type) + Option::<Type>::encoding(v.throws)
            + bool::encoding(v.takes_self_by_arc) + Option::<u16>::encoding(v.checksum)
    }

    fn checksum(&self, state: &mut ChecksumHasher) {
        self.mod_path.checksum(state);
        self.trait_name.checksum(state);
        self.index.checksum(state);
        self.name.checksum(state);
        self.is_async.checksum(state);
        self.inputs.checksum(state);
        self.return_type.checksum(state);
        self.throws.checksum(state);
        self.takes_self_by_arc.checksum(state);
        self.checksum.checksum(state);
        proof {
            let v = self.deep_view();
            let start = old(state)@;
            let upto_mod_path = String::encoding(v.mod_path);
            lemma_concat_assoc(start, upto_mod_path, String::encoding(v.trait_name));
            let upto_trait_name = upto_mod_path + String::encoding(v.trait_name);
            lemma_concat_assoc(start, upto_trait_name, u32::encoding(v.index));
            let upto_index = upto_trait_name + u32::encoding(v.index);
            lemma_concat_assoc(start, upto_index, String::encoding(v.name));
            let upto_name = upto_index + String::encoding(v.name);
            lemma_concat_assoc(start, upto_name, bool::encoding(v.is_async));
            let upto_is_async = upto_name + bool::encoding(v.is_async);
            lemma_concat_assoc(start, upto_is_async, Vec::<FnParamMetadata>::encoding(v.inputs));
            let upto_inputs = upto_is_async + Vec::<FnParamMetadata>::encoding(v.inputs);
            lemma_concat_assoc(start, upto_inputs, Option::<Type>::encoding(v.return_type));
            let upto_return_type = upto_inputs + Option::<Type>::encoding(v.return_type);
            lemma_concat_assoc(start, upto_return_type, Option::<Type>::encoding(v.throws));
            let upto_throws = upto_return_type + Option::<Type>::encoding(v.throws);
            lemma_concat_assoc(start, upto_throws, bool::encoding(v.takes_self_by_arc));
            let upto_takes_self_by_arc = upto_throws + bool::encoding(v.takes_self_by_arc);
            lemma_concat_assoc(start, upto_takes_self_by_arc, Option::<u16>::encoding(v.checksum));
        }
    }

    proof fn lemma_prefix_free(a: &Self, b: &Self, rest_a: Seq<u8>, rest_b: Seq<u8>) {
        let va = a.deep_view();
        let vb = b.deep_view();
        let upto_mod_path_a = String::encoding(va.mod_path);
        let upto_mod_path_b = String::encoding(vb.mod_path);
        let upto_trait_name_a = upto_mod_path_a + String::encoding(va.trait_name);
        let upto_trait_name_b = upto_mod_path_b + String::encoding(vb.trait_name);
        let upto_index_a = upto_trait_name_a + u32::encoding(va.index);
        let upto_index_b = upto_trait_name_b + u32::encoding(vb.index);
        let upto_name_a = upto_index_a + String::encoding(va.name);
        let upto_name_b = upto_index_b + String::encoding(vb.name);
        let upto_is_async_a = upto_name_a + bool::encoding(va.is_async);
        let upto_is_async_b = upto_name_b + bool::encoding(vb.is_async);
        let upto_inputs_a = upto_is_async_a + Vec::<FnParamMetadata>::encoding(va.inputs);
        let upto_inputs_b = upto_is_async_b + Vec::<FnParamMetadata>::encoding(vb.inputs);
        let upto_return_type_a = upto_inputs_a + Option::<Type>::encoding(va.return_type);
        let upto_return_type_b = upto_inputs_b + Option::<Type>::encoding(vb.return_type);
        let upto_throws_a = upto_return_type_a + Option::<Type>::encoding(va.throws);
        let upto_throws_b = upto_return_type_b + Option::<Type>::encoding(vb.throws);
        let upto_takes_self_by_arc_a = upto_throws_a + bool::encoding(va.takes_self_by_arc);
        let upto_takes_self_by_arc_b = upto_throws_b + bool::encoding(vb.takes_self_by_arc);
        let after_takes_self_by_arc_a = Option::<u16>::encoding(va.checksum) + rest_a;
        lemma_concat_assoc(upto_takes_self_by_arc_a, Option::<u16>::encoding(va.checksum), rest_a);
        let after_takes_self_by_arc_b = Option::<u16>::encoding(vb.checksum) + rest_b;
        lemma_concat_assoc(upto_takes_self_by_arc_b, Option::<u16>::encoding(vb.checksum), rest_b);
        let after_throws_a = bool::encoding(va.takes_self_by_arc) + after_takes_self_by_arc_a;
        lemma_concat_assoc(
            upto_throws_a,
            bool::encoding(va.takes_self_by_arc),
            after_takes_self_by_arc_a,
        );
        let after_throws_b = bool::encoding(vb.takes_self_by_arc) + after_takes_self_by_arc_b;
        lemma_concat_assoc(
            upto_throws_b,
            bool::encoding(vb.takes_self_by_arc),
            after_takes_self_by_arc_b,
        );
        let after_return_type_a = Option::<Type>::encoding(va.throws) + after_throws_a;
        lemma_concat_assoc(upto_return_type_a, Option::<Type>::encoding(va.throws), after_throws_a);
        let after_return_type_b = Option::<Type>::encoding(vb.throws) + after_throws_b;
        lemma_concat_assoc(upto_return_type_b, Option::<Type>::encoding(vb.throws), after_throws_b);
        let after_inputs_a = Option::<Type>::encoding(va.return_type) + after_return_type_a;
        lemma_concat_assoc(
            upto_inputs_a,
            Option::<Type>::encoding(va.return_type),
            after_return_type_a,
        );
        let after_inputs_b = Option::<Type>::encoding(vb.return_type) + after_return_type_b;
        lemma_concat_assoc(
            upto_inputs_b,
            Option::<Type>::encoding(vb.return_type),
            after_return_type_b,
        );
        let after_is_async_a = Vec::<FnParamMetadata>::encoding(va.inputs) + after_inputs_a;
        lemma_concat_assoc(
            upto_is_async_a,
            Vec::<FnParamMetadata>::encoding(va.inputs),
            after_inputs_a,
        );
        let after_is_async_b = Vec::<FnParamMetadata>::encoding(vb.inputs) + after_inputs_b;
        lemma_concat_assoc(
            upto_is_async_b,
            Vec::<FnParamMetadata>::encoding(vb.inputs),
            after_inputs_b,
        );
        let after_name_a = bool::encoding(va.is_async) + after_is_async_a;
        lemma_concat_assoc(upto_name_a, bool::encoding(va.is_async), after_is_async_a);
        let after_name_b = bool::encoding(vb.is_async) + after_is_async_b;
        lemma_concat_assoc(upto_name_b, bool::encoding(vb.is_async), after_is_async_b);
        let after_index_a = String::encoding(va.name) + after_name_a;
        lemma_concat_assoc(upto_index_a, String::encoding(va.name), after_name_a);
        let after_index_b = String::encoding(vb.name) + after_name_b;
        lemma_concat_assoc(upto_index_b, String::encoding(vb.name), after_name_b);
        let after_trait_name_a = u32::encoding(va.index) + after_index_a;
        lemma_concat_assoc(upto_trait_name_a, u32::encoding(va.index), after_index_a);
        let after_trait_name_b = u32::encoding(vb.index) + after_index_b;
        lemma_concat_assoc(upto_trait_name_b, u32::encoding(vb.index), after_index_b);
        let after_mod_path_a = String::encoding(va.trait_name) + after_trait_name_a;
        lemma_concat_assoc(upto_mod_path_a, String::encoding(va.trait_name), after_trait_name_a);
        let after_mod_path_b = String::encoding(vb.trait_name) + after_trait_name_b;
        lemma_concat_assoc(upto_mod_path_b, String::encoding(vb.trait_name), after_trait_name_b);
        String::lemma_prefix_free(&a.mod_path, &b.mod_path, after_mod_path_a, after_mod_path_b);
        String::lemma_prefix_free(
            &a.trait_name,
            &b.trait_name,
            after_trait_name_a,
            after_trait_name_b,
        );
        u32::lemma_prefix_free(&a.index, &b.index, after_index_a, after_index_b);
        String::lemma_prefix_free(&a.name, &b.name, after_name_a, after_name_b);
        bool::lemma_prefix_free(&a.is_async, &b.is_async, after_is_async_a, after_is_async_b);
        Vec::<FnParamMetadata>::lemma_prefix_free(
            &a.inputs,
            &b.inputs,
            after_inputs_a,
            after_inputs_b,
        );
        Option::<Type>::lemma_prefix_free(
            &a.return_type,
            &b.return_type,
            after_return_type_a,
            after_return_type_b,
        );
        Option::<Type>::lemma_prefix_free(&a.throws, &b.throws, after_throws_a, after_throws_b);
        bool::lemma_prefix_free(
            &a.takes_self_by_arc,
            &b.takes_self_by_arc,
            after_takes_self_by_arc_a,
            after_takes_self_by_arc_b,
        );
        Option::<u16>::lemma_prefix_free(&a.checksum, &b.checksum, rest_a, rest_b);
    }
}

impl TraitMethodMetadata {
    /// The name of the method's entry point.
    pub fn ffi_symbol_name(&self) -> (symbol: String)
        ensures
            symbol@ == spec_method_symbol_name(self.mod_path@, self.trait_name@, self.name@),
    {
        method_symbol_name(self.mod_path.as_str(), self.trait_name.as_str(), self.name.as_str())
    }

    /// The name of the method's checksum accessor.
    pub fn checksum_symbol_name(&self) -> (symbol: String)
        ensures
            symbol@ == spec_method_checksum_symbol_name(
                self.mod_path@,
                self.trait_name@,
                self.name@,
            ),
    {
        method_checksum_symbol_name(
            self.mod_path.as_str(),
            self.trait_name.as_str(),
            self.name.as_str(),
        )
    }
}

} // verus!
