use uniffi_meta::{
    CallbackInterfaceMetadata, Checksum, ChecksumHasher, ConstructorMetadata, CustomTypeMetadata,
    EnumMetadata, ErrorMetadata, ExternalKind, FieldMetadata, FnMetadata, FnParamMetadata,
    LiteralMetadata, Metadata, MethodMetadata, NamespaceMetadata, ObjectImpl, ObjectMetadata,
    Radix, RecordMetadata, TraitMethodMetadata, Type, UdlFile, UniffiTraitMetadata,
    VariantMetadata,
};

fn bytes_of<T: Checksum + ?Sized>(value: &T) -> Vec<u8> {
    let mut state = ChecksumHasher::new();
    value.checksum(&mut state);
    state.as_bytes().to_vec()
}

fn tag(n: u8) -> Vec<u8> {
    vec![n, 0, 0, 0, 0, 0, 0, 0]
}

fn text(s: &str) -> Vec<u8> {
    let mut bytes = s.as_bytes().to_vec();
    bytes.push(0xff);
    bytes
}

fn join(parts: &[Vec<u8>]) -> Vec<u8> {
    parts.concat()
}

fn field(name: &str, ty: Type) -> FieldMetadata {
    FieldMetadata { name: name.to_string(), ty, default: None }
}

fn method(owner: &str, name: &str) -> MethodMetadata {
    MethodMetadata {
        mod_path: "shapes".to_string(),
        self_name: owner.to_string(),
        name: name.to_string(),
        is_async: false,
        inputs: vec![],
        return_type: Some(Type::String),
        throws: None,
        takes_self_by_arc: false,
        checksum: None,
    }
}

fn method_bytes(owner: &str, name: &str) -> Vec<u8> {
    join(&[
        text("shapes"),
        text(owner),
        text(name),
        vec![0],
        tag(0),
        tag(1),
        tag(11),
        tag(0),
        vec![0],
        tag(0),
    ])
}

#[test]
fn radix_is_its_base() {
    assert_eq!(bytes_of(&Radix::Decimal), tag(10));
    assert_eq!(bytes_of(&Radix::Octal), tag(8));
    assert_eq!(bytes_of(&Radix::Hexadecimal), tag(16));
    assert_eq!(Radix::Decimal.base(), 10);
    assert_eq!(Radix::Octal.base(), 8);
    assert_eq!(Radix::Hexadecimal.base(), 16);
}

#[test]
fn radices_compare_as_their_bases() {
    assert!(Radix::Octal < Radix::Decimal);
    assert!(Radix::Decimal < Radix::Hexadecimal);
    assert!(Radix::Octal < Radix::Hexadecimal);
    let mut all = vec![Radix::Hexadecimal, Radix::Decimal, Radix::Octal];
    all.sort();
    assert_eq!(all, vec![Radix::Octal, Radix::Decimal, Radix::Hexadecimal]);
    let small = LiteralMetadata::UInt(1, Radix::Octal, Type::UInt8);
    let large = LiteralMetadata::UInt(1, Radix::Decimal, Type::UInt8);
    assert!(small < large);
}

#[test]
fn implementation_kinds_are_positions() {
    assert_eq!(bytes_of(&ObjectImpl::Struct), tag(0));
    assert_eq!(bytes_of(&ObjectImpl::Trait), tag(1));
    assert_eq!(bytes_of(&ExternalKind::Interface), tag(0));
    assert_eq!(bytes_of(&ExternalKind::DataClass), tag(1));
}

#[test]
fn primitive_types_are_positions() {
    let all = [
        Type::UInt8,
        Type::Int8,
        Type::UInt16,
        Type::Int16,
        Type::UInt32,
        Type::Int32,
        Type::UInt64,
        Type::Int64,
        Type::Float32,
        Type::Float64,
        Type::Boolean,
        Type::String,
        Type::Bytes,
        Type::Timestamp,
        Type::Duration,
    ];
    for (position, ty) in all.iter().enumerate() {
        assert_eq!(bytes_of(ty), tag(position as u8));
    }
}

#[test]
fn named_types_are_position_path_and_name() {
    let object = Type::Object {
        mod_path: "m".to_string(),
        name: "O".to_string(),
        imp: ObjectImpl::Trait,
    };
    assert_eq!(bytes_of(&object), join(&[tag(15), text("m"), text("O"), tag(1)]));
    let record = Type::Record { mod_path: "m".to_string(), name: "R".to_string() };
    assert_eq!(bytes_of(&record), join(&[tag(16), text("m"), text("R")]));
    let an_enum = Type::Enum { mod_path: "m".to_string(), name: "R".to_string() };
    assert_eq!(bytes_of(&an_enum), join(&[tag(17), text("m"), text("R")]));
    let callback = Type::CallbackInterface { mod_path: "m".to_string(), name: "R".to_string() };
    assert_eq!(bytes_of(&callback), join(&[tag(18), text("m"), text("R")]));
    assert_ne!(bytes_of(&record), bytes_of(&an_enum));
}

#[test]
fn compound_types_hold_their_parts() {
    let optional = Type::Optional { inner_type: Box::new(Type::String) };
    assert_eq!(bytes_of(&optional), join(&[tag(19), tag(11)]));
    let sequence = Type::Sequence { inner_type: Box::new(Type::String) };
    assert_eq!(bytes_of(&sequence), join(&[tag(20), tag(11)]));
    let mapping = Type::Mapping {
        key_type: Box::new(Type::String),
        value_type: Box::new(Type::Optional { inner_type: Box::new(Type::UInt8) }),
    };
    assert_eq!(bytes_of(&mapping), join(&[tag(21), tag(11), tag(19), tag(0)]));
    let custom = Type::Custom {
        mod_path: "m".to_string(),
        name: "Url".to_string(),
        builtin: Box::new(Type::String),
    };
    assert_eq!(bytes_of(&custom), join(&[tag(23), text("m"), text("Url"), tag(11)]));
}

#[test]
fn external_type_hashes_every_field() {
    let external = |namespace: &str, tagged: bool| Type::External {
        mod_path: "m".to_string(),
        name: "E".to_string(),
        namespace: namespace.to_string(),
        kind: ExternalKind::DataClass,
        tagged,
    };
    assert_eq!(
        bytes_of(&external("ns", true)),
        join(&[tag(22), text("m"), text("E"), text("ns"), tag(1), vec![1]])
    );
    assert_ne!(bytes_of(&external("ns", true)), bytes_of(&external("other", true)));
    assert_ne!(bytes_of(&external("ns", true)), bytes_of(&external("ns", false)));
}

#[test]
fn cloned_type_is_equal() {
    let nested = Type::Mapping {
        key_type: Box::new(Type::String),
        value_type: Box::new(Type::Sequence {
            inner_type: Box::new(Type::Record {
                mod_path: "m".to_string(),
                name: "R".to_string(),
            }),
        }),
    };
    let copy = nested.clone();
    assert_eq!(copy, nested);
    assert_eq!(bytes_of(&copy), bytes_of(&nested));
}

#[test]
fn literals_are_position_then_fields() {
    assert_eq!(bytes_of(&LiteralMetadata::Boolean(true)), join(&[tag(0), vec![1]]));
    assert_eq!(
        bytes_of(&LiteralMetadata::String("hi".to_string())),
        join(&[tag(1), text("hi")])
    );
    assert_eq!(
        bytes_of(&LiteralMetadata::UInt(255, Radix::Hexadecimal, Type::UInt8)),
        join(&[tag(2), tag(255), tag(16), tag(0)])
    );
    assert_eq!(
        bytes_of(&LiteralMetadata::Int(-1, Radix::Decimal, Type::Int64)),
        join(&[tag(3), vec![0xff; 8], tag(10), tag(7)])
    );
    assert_eq!(
        bytes_of(&LiteralMetadata::Enum("Red".to_string(), Type::Enum {
            mod_path: "m".to_string(),
            name: "Color".to_string(),
        })),
        join(&[tag(5), text("Red"), tag(17), text("m"), text("Color")])
    );
    assert_eq!(bytes_of(&LiteralMetadata::EmptySequence), tag(6));
    assert_eq!(bytes_of(&LiteralMetadata::EmptyMap), tag(7));
    assert_eq!(bytes_of(&LiteralMetadata::Null), tag(8));
}

#[test]
fn integer_literal_keeps_radix_and_type() {
    let decimal = LiteralMetadata::UInt(16, Radix::Decimal, Type::UInt32);
    let hex = LiteralMetadata::UInt(16, Radix::Hexadecimal, Type::UInt32);
    let wide = LiteralMetadata::UInt(16, Radix::Decimal, Type::UInt64);
    assert_ne!(bytes_of(&decimal), bytes_of(&hex));
    assert_ne!(bytes_of(&decimal), bytes_of(&wide));
    let signed = LiteralMetadata::Int(16, Radix::Decimal, Type::UInt32);
    assert_ne!(bytes_of(&decimal), bytes_of(&signed));
}

#[test]
fn float_literal_keeps_its_text() {
    let typed = LiteralMetadata::Float("3.14".to_string(), Type::Float64);
    match &typed {
        LiteralMetadata::Float(text, ty) => {
            assert_eq!(text, "3.14");
            assert_eq!(*ty, Type::Float64);
        }
        _ => panic!("not a float literal"),
    }
    assert_eq!(bytes_of(&typed), join(&[tag(4), text("3.14"), tag(9)]));
    let again = LiteralMetadata::Float(["3", ".", "14"].concat(), Type::Float64);
    assert_eq!(bytes_of(&typed), bytes_of(&again));
    assert_eq!(uniffi_meta::checksum(&typed), uniffi_meta::checksum(&again));
    let longer = LiteralMetadata::Float("3.140".to_string(), Type::Float64);
    assert_ne!(bytes_of(&typed), bytes_of(&longer));
}

#[test]
fn simple_parameter_has_no_extras() {
    let param = FnParamMetadata::simple("count", Type::UInt32);
    assert_eq!(
        param,
        FnParamMetadata {
            name: "count".to_string(),
            ty: Type::UInt32,
            by_ref: false,
            optional: false,
            default: None,
        }
    );
    assert_eq!(
        bytes_of(&param),
        join(&[text("count"), tag(4), vec![0], vec![0], tag(0)])
    );
}

#[test]
fn parameter_with_default_holds_the_literal() {
    let param = FnParamMetadata {
        name: "n".to_string(),
        ty: Type::Boolean,
        by_ref: true,
        optional: true,
        default: Some(LiteralMetadata::Boolean(false)),
    };
    assert_eq!(
        bytes_of(&param),
        join(&[text("n"), tag(10), vec![1], vec![1], tag(1), tag(0), vec![0]])
    );
}

#[test]
fn function_is_fields_in_order() {
    let add = FnMetadata {
        mod_path: "math".to_string(),
        name: "add".to_string(),
        is_async: false,
        inputs: vec![
            FnParamMetadata::simple("a", Type::Int32),
            FnParamMetadata::simple("b", Type::Int32),
        ],
        return_type: Some(Type::Int32),
        throws: None,
        checksum: Some(0x1234),
    };
    let param = |name: &str| join(&[text(name), tag(5), vec![0], vec![0], tag(0)]);
    assert_eq!(
        bytes_of(&add),
        join(&[
            text("math"),
            text("add"),
            vec![0],
            tag(2),
            param("a"),
            param("b"),
            tag(1),
            tag(5),
            tag(0),
            tag(1),
            vec![0x34, 0x12, 0, 0, 0, 0, 0, 0],
        ])
    );
}

#[test]
fn parameter_order_matters() {
    let with = |first: &str, second: &str| FnMetadata {
        mod_path: "math".to_string(),
        name: "sub".to_string(),
        is_async: false,
        inputs: vec![
            FnParamMetadata::simple(first, Type::Int32),
            FnParamMetadata::simple(second, Type::Int32),
        ],
        return_type: Some(Type::Int32),
        throws: None,
        checksum: None,
    };
    assert_ne!(bytes_of(&with("a", "b")), bytes_of(&with("b", "a")));
    assert_ne!(uniffi_meta::checksum(&with("a", "b")), uniffi_meta::checksum(&with("b", "a")));
}

#[test]
fn constructor_is_fields_in_order() {
    let constructor = ConstructorMetadata {
        mod_path: "shapes".to_string(),
        self_name: "Circle".to_string(),
        name: "new".to_string(),
        inputs: vec![],
        throws: Some(Type::String),
        checksum: None,
    };
    assert_eq!(
        bytes_of(&constructor),
        join(&[text("shapes"), text("Circle"), text("new"), tag(0), tag(1), tag(11), tag(0)])
    );
}

#[test]
fn method_is_fields_in_order() {
    assert_eq!(bytes_of(&method("Circle", "area")), method_bytes("Circle", "area"));
    let mut by_arc = method("Circle", "area");
    by_arc.takes_self_by_arc = true;
    assert_ne!(bytes_of(&by_arc), bytes_of(&method("Circle", "area")));
}

#[test]
fn trait_method_index_is_hashed() {
    let at = |index: u32| TraitMethodMetadata {
        mod_path: "shapes".to_string(),
        trait_name: "Shape".to_string(),
        index,
        name: "area".to_string(),
        is_async: true,
        inputs: vec![],
        return_type: None,
        throws: None,
        takes_self_by_arc: false,
        checksum: None,
    };
    assert_eq!(
        bytes_of(&at(3)),
        join(&[
            text("shapes"),
            text("Shape"),
            tag(3),
            text("area"),
            vec![1],
            tag(0),
            tag(0),
            tag(0),
            vec![0],
            tag(0),
        ])
    );
    assert_ne!(bytes_of(&at(0)), bytes_of(&at(1)));
    assert_ne!(uniffi_meta::checksum(&at(0)), uniffi_meta::checksum(&at(1)));
}

#[test]
fn field_is_name_type_default() {
    assert_eq!(bytes_of(&field("x", Type::Float64)), join(&[text("x"), tag(9), tag(0)]));
    let with_default = FieldMetadata {
        name: "x".to_string(),
        ty: Type::Float64,
        default: Some(LiteralMetadata::Float("0.5".to_string(), Type::Float64)),
    };
    assert_eq!(
        bytes_of(&with_default),
        join(&[text("x"), tag(9), tag(1), tag(4), text("0.5"), tag(9)])
    );
}

#[test]
fn record_is_path_name_fields() {
    let point = RecordMetadata {
        mod_path: "geometry".to_string(),
        name: "Point".to_string(),
        fields: vec![field("x", Type::Float64), field("y", Type::Float64)],
    };
    assert_eq!(
        bytes_of(&point),
        join(&[
            text("geometry"),
            text("Point"),
            tag(2),
            text("x"),
            tag(9),
            tag(0),
            text("y"),
            tag(9),
            tag(0),
        ])
    );
}

#[test]
fn reordered_record_fields_change_the_checksum() {
    let point = |first: &str, second: &str| RecordMetadata {
        mod_path: "geometry".to_string(),
        name: "Point".to_string(),
        fields: vec![field(first, Type::Float64), field(second, Type::Float64)],
    };
    assert_ne!(bytes_of(&point("x", "y")), bytes_of(&point("y", "x")));
    assert_ne!(uniffi_meta::checksum(&point("x", "y")), uniffi_meta::checksum(&point("y", "x")));
}

#[test]
fn reordered_fields_of_different_types_change_the_checksum() {
    let record = |fields: Vec<FieldMetadata>| RecordMetadata {
        mod_path: "m".to_string(),
        name: "Pair".to_string(),
        fields,
    };
    let a = || field("a", Type::String);
    let b = || field("b", Type::UInt8);
    assert_ne!(bytes_of(&record(vec![a(), b()])), bytes_of(&record(vec![b(), a()])));
    assert_ne!(
        uniffi_meta::checksum(&record(vec![a(), b()])),
        uniffi_meta::checksum(&record(vec![b(), a()]))
    );
}

#[test]
fn removing_a_field_changes_the_checksum() {
    let record = |fields: Vec<FieldMetadata>| RecordMetadata {
        mod_path: "m".to_string(),
        name: "R".to_string(),
        fields,
    };
    let full = record(vec![field("a", Type::String), field("b", Type::UInt8)]);
    let less = record(vec![field("a", Type::String)]);
    assert_ne!(bytes_of(&full), bytes_of(&less));
    assert_ne!(uniffi_meta::checksum(&full), uniffi_meta::checksum(&less));
}

#[test]
fn enum_is_path_name_variants() {
    let shape = EnumMetadata {
        mod_path: "m".to_string(),
        name: "Shape".to_string(),
        variants: vec![
            VariantMetadata { name: "Dot".to_string(), fields: vec![] },
            VariantMetadata { name: "Circle".to_string(), fields: vec![field("r", Type::Float64)] },
        ],
    };
    assert_eq!(
        bytes_of(&shape),
        join(&[
            text("m"),
            text("Shape"),
            tag(2),
            text("Dot"),
            tag(0),
            text("Circle"),
            tag(1),
            text("r"),
            tag(9),
            tag(0),
        ])
    );
}

#[test]
fn error_is_enum_then_flag() {
    let failure = |is_flat: bool| ErrorMetadata::Enum {
        enum_: EnumMetadata {
            mod_path: "m".to_string(),
            name: "Failure".to_string(),
            variants: vec![VariantMetadata { name: "Oops".to_string(), fields: vec![] }],
        },
        is_flat,
    };
    assert_eq!(
        bytes_of(&failure(true)),
        join(&[tag(0), text("m"), text("Failure"), tag(1), text("Oops"), tag(0), vec![1]])
    );
    assert_ne!(bytes_of(&failure(true)), bytes_of(&failure(false)));
    assert_eq!(failure(true).name(), "Failure");
    assert_eq!(failure(false).mod_path(), "m");
}

#[test]
fn derived_traits_are_position_then_methods() {
    let debug = UniffiTraitMetadata::Debug { fmt: method("Circle", "fmt") };
    assert_eq!(bytes_of(&debug), join(&[tag(0), method_bytes("Circle", "fmt")]));
    let display = UniffiTraitMetadata::Display { fmt: method("Circle", "fmt") };
    assert_eq!(bytes_of(&display), join(&[tag(1), method_bytes("Circle", "fmt")]));
    let eq = UniffiTraitMetadata::Eq { eq: method("Circle", "eq"), ne: method("Circle", "ne") };
    assert_eq!(
        bytes_of(&eq),
        join(&[tag(2), method_bytes("Circle", "eq"), method_bytes("Circle", "ne")])
    );
    let hash = UniffiTraitMetadata::Hash { hash: method("Circle", "hash") };
    assert_eq!(bytes_of(&hash), join(&[tag(3), method_bytes("Circle", "hash")]));
}

#[test]
fn object_is_fields_in_order() {
    let object = ObjectMetadata {
        mod_path: "shapes".to_string(),
        name: "Circle".to_string(),
        imp: ObjectImpl::Struct,
        uniffi_traits: vec![UniffiTraitMetadata::Hash { hash: method("Circle", "hash") }],
    };
    assert_eq!(
        bytes_of(&object),
        join(&[
            text("shapes"),
            text("Circle"),
            tag(0),
            tag(1),
            tag(3),
            method_bytes("Circle", "hash"),
        ])
    );
}

#[test]
fn small_declarations_are_their_texts() {
    let namespace = NamespaceMetadata { crate_name: "c".to_string(), name: "n".to_string() };
    assert_eq!(bytes_of(&namespace), join(&[text("c"), text("n")]));
    let file = UdlFile { mod_path: "m".to_string(), name: "api".to_string() };
    assert_eq!(bytes_of(&file), join(&[text("m"), text("api")]));
    let callback = CallbackInterfaceMetadata { mod_path: "m".to_string(), name: "L".to_string() };
    assert_eq!(bytes_of(&callback), join(&[text("m"), text("L")]));
    let custom = CustomTypeMetadata {
        mod_path: "m".to_string(),
        name: "Url".to_string(),
        builtin: Type::String,
    };
    assert_eq!(bytes_of(&custom), join(&[text("m"), text("Url"), tag(11)]));
}

#[test]
fn item_is_position_then_declaration() {
    let namespace = NamespaceMetadata { crate_name: "c".to_string(), name: "n".to_string() };
    let file = UdlFile { mod_path: "c".to_string(), name: "n".to_string() };
    let as_namespace: Metadata = namespace.clone().into();
    let as_file: Metadata = file.clone().into();
    assert_eq!(bytes_of(&as_namespace), join(&[tag(0), bytes_of(&namespace)]));
    assert_eq!(bytes_of(&as_file), join(&[tag(1), bytes_of(&file)]));
    assert_ne!(bytes_of(&as_namespace), bytes_of(&as_file));
    assert_ne!(uniffi_meta::checksum(&as_namespace), uniffi_meta::checksum(&as_file));
}

#[test]
fn every_kind_of_item_has_its_position() {
    let record = RecordMetadata { mod_path: "m".to_string(), name: "R".to_string(), fields: vec![] };
    let an_enum = EnumMetadata { mod_path: "m".to_string(), name: "E".to_string(), variants: vec![] };
    let function = FnMetadata {
        mod_path: "m".to_string(),
        name: "f".to_string(),
        is_async: false,
        inputs: vec![],
        return_type: None,
        throws: None,
        checksum: None,
    };
    let object = ObjectMetadata {
        mod_path: "m".to_string(),
        name: "O".to_string(),
        imp: ObjectImpl::Struct,
        uniffi_traits: vec![],
    };
    let callback = CallbackInterfaceMetadata { mod_path: "m".to_string(), name: "C".to_string() };
    let error = ErrorMetadata::Enum { enum_: an_enum.clone(), is_flat: false };
    let constructor = ConstructorMetadata {
        mod_path: "m".to_string(),
        self_name: "O".to_string(),
        name: "new".to_string(),
        inputs: vec![],
        throws: None,
        checksum: None,
    };
    let a_method = method("O", "go");
    let trait_method = TraitMethodMetadata {
        mod_path: "m".to_string(),
        trait_name: "T".to_string(),
        index: 0,
        name: "go".to_string(),
        is_async: false,
        inputs: vec![],
        return_type: None,
        throws: None,
        takes_self_by_arc: false,
        checksum: None,
    };
    let custom = CustomTypeMetadata {
        mod_path: "m".to_string(),
        name: "U".to_string(),
        builtin: Type::String,
    };
    assert_eq!(Metadata::from(function.clone()), Metadata::Func(function.clone()));
    assert_eq!(bytes_of(&Metadata::from(function.clone())), join(&[tag(2), bytes_of(&function)]));
    assert_eq!(Metadata::from(object.clone()), Metadata::Object(object.clone()));
    assert_eq!(bytes_of(&Metadata::from(object.clone())), join(&[tag(3), bytes_of(&object)]));
    assert_eq!(
        Metadata::from(callback.clone()),
        Metadata::CallbackInterface(callback.clone())
    );
    assert_eq!(bytes_of(&Metadata::from(callback.clone())), join(&[tag(4), bytes_of(&callback)]));
    assert_eq!(Metadata::from(record.clone()), Metadata::Record(record.clone()));
    assert_eq!(bytes_of(&Metadata::from(record.clone())), join(&[tag(5), bytes_of(&record)]));
    assert_eq!(Metadata::from(an_enum.clone()), Metadata::Enum(an_enum.clone()));
    assert_eq!(bytes_of(&Metadata::from(an_enum.clone())), join(&[tag(6), bytes_of(&an_enum)]));
    assert_eq!(Metadata::from(error.clone()), Metadata::Error(error.clone()));
    assert_eq!(bytes_of(&Metadata::from(error.clone())), join(&[tag(7), bytes_of(&error)]));
    assert_eq!(
        Metadata::from(constructor.clone()),
        Metadata::Constructor(constructor.clone())
    );
    assert_eq!(
        bytes_of(&Metadata::from(constructor.clone())),
        join(&[tag(8), bytes_of(&constructor)])
    );
    assert_eq!(Metadata::from(a_method.clone()), Metadata::Method(a_method.clone()));
    assert_eq!(bytes_of(&Metadata::from(a_method.clone())), join(&[tag(9), bytes_of(&a_method)]));
    assert_eq!(
        Metadata::from(trait_method.clone()),
        Metadata::TraitMethod(trait_method.clone())
    );
    assert_eq!(
        bytes_of(&Metadata::from(trait_method.clone())),
        join(&[tag(10), bytes_of(&trait_method)])
    );
    assert_eq!(Metadata::from(custom.clone()), Metadata::CustomType(custom.clone()));
    assert_eq!(bytes_of(&Metadata::from(custom.clone())), join(&[tag(11), bytes_of(&custom)]));
}
