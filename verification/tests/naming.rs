use uniffi_meta::{
    constructor_checksum_symbol_name, constructor_symbol_name, fn_checksum_symbol_name,
    fn_symbol_name, free_fn_symbol_name, method_checksum_symbol_name, method_symbol_name,
    ConstructorMetadata, FnMetadata, FnParamMetadata, MethodMetadata, ObjectImpl, ObjectMetadata,
    TraitMethodMetadata, Type,
};

fn add() -> FnMetadata {
    FnMetadata {
        mod_path: "math".to_string(),
        name: "add".to_string(),
        is_async: false,
        inputs: vec![
            FnParamMetadata::simple("a", Type::Int32),
            FnParamMetadata::simple("b", Type::Int32),
        ],
        return_type: Some(Type::Int32),
        throws: None,
        checksum: None,
    }
}

fn constructor(owner: &str, name: &str) -> ConstructorMetadata {
    ConstructorMetadata {
        mod_path: "shapes".to_string(),
        self_name: owner.to_string(),
        name: name.to_string(),
        inputs: vec![],
        throws: None,
        checksum: None,
    }
}

fn method(owner: &str, name: &str) -> MethodMetadata {
    MethodMetadata {
        mod_path: "shapes".to_string(),
        self_name: owner.to_string(),
        name: name.to_string(),
        is_async: false,
        inputs: vec![],
        return_type: None,
        throws: None,
        takes_self_by_arc: false,
        checksum: None,
    }
}

#[test]
fn function_entry_point_combines_module_and_name() {
    assert_eq!(add().ffi_symbol_name(), "uniffi_math_fn_func_add");
    assert_eq!(add().checksum_symbol_name(), "uniffi_math_checksum_func_add");
    assert_eq!(add().ffi_symbol_name(), add().ffi_symbol_name());
}

#[test]
fn function_checksum_is_stable() {
    let first = uniffi_meta::checksum(&add());
    let second = uniffi_meta::checksum(&add());
    assert_eq!(first, second);
    assert_eq!(first, 0xB229);
}

#[test]
fn free_function_names() {
    assert_eq!(fn_symbol_name("math", "add"), "uniffi_math_fn_func_add");
    assert_eq!(fn_checksum_symbol_name("math", "add"), "uniffi_math_checksum_func_add");
    assert_eq!(
        constructor_symbol_name("shapes", "Circle", "new"),
        "uniffi_shapes_fn_constructor_Circle_new"
    );
    assert_eq!(
        constructor_checksum_symbol_name("shapes", "Circle", "new"),
        "uniffi_shapes_checksum_constructor_Circle_new"
    );
    assert_eq!(
        method_symbol_name("shapes", "Circle", "area"),
        "uniffi_shapes_fn_method_Circle_area"
    );
    assert_eq!(
        method_checksum_symbol_name("shapes", "Circle", "area"),
        "uniffi_shapes_checksum_method_Circle_area"
    );
    assert_eq!(free_fn_symbol_name("shapes", "Circle"), "uniffi_shapes_fn_free_Circle");
}

#[test]
fn names_of_empty_parts() {
    assert_eq!(fn_symbol_name("", ""), "uniffi__fn_func_");
    assert_eq!(method_symbol_name("", "", ""), "uniffi__fn_method__");
    assert_eq!(free_fn_symbol_name("m", ""), "uniffi_m_fn_free_");
}

#[test]
fn names_keep_letter_case() {
    assert_ne!(fn_symbol_name("math", "Add"), fn_symbol_name("math", "add"));
    assert_eq!(fn_symbol_name("math", "Add"), "uniffi_math_fn_func_Add");
}

#[test]
fn constructor_names() {
    let c = constructor("Circle", "new");
    assert_eq!(c.ffi_symbol_name(), "uniffi_shapes_fn_constructor_Circle_new");
    assert_eq!(c.checksum_symbol_name(), "uniffi_shapes_checksum_constructor_Circle_new");
}

#[test]
fn primary_constructor_is_named_new() {
    assert!(constructor("Circle", "new").is_primary());
    assert!(!constructor("Circle", "with_radius").is_primary());
    assert!(!constructor("Circle", "New").is_primary());
    assert!(!constructor("Circle", "new_").is_primary());
    assert!(!constructor("Circle", "").is_primary());
    assert!(!constructor("new", "other").is_primary());
}

#[test]
fn method_names() {
    let m = method("Circle", "area");
    assert_eq!(m.ffi_symbol_name(), "uniffi_shapes_fn_method_Circle_area");
    assert_eq!(m.checksum_symbol_name(), "uniffi_shapes_checksum_method_Circle_area");
}

#[test]
fn trait_method_names() {
    let m = TraitMethodMetadata {
        mod_path: "shapes".to_string(),
        trait_name: "Shape".to_string(),
        index: 2,
        name: "area".to_string(),
        is_async: false,
        inputs: vec![],
        return_type: None,
        throws: None,
        takes_self_by_arc: false,
        checksum: None,
    };
    assert_eq!(m.ffi_symbol_name(), "uniffi_shapes_fn_method_Shape_area");
    assert_eq!(m.checksum_symbol_name(), "uniffi_shapes_checksum_method_Shape_area");
}

#[test]
fn destructor_name_depends_on_path_and_object_only() {
    let object = |imp: ObjectImpl| ObjectMetadata {
        mod_path: "shapes".to_string(),
        name: "Circle".to_string(),
        imp,
        uniffi_traits: vec![],
    };
    assert_eq!(object(ObjectImpl::Struct).free_ffi_symbol_name(), "uniffi_shapes_fn_free_Circle");
    assert_eq!(
        object(ObjectImpl::Trait).free_ffi_symbol_name(),
        object(ObjectImpl::Struct).free_ffi_symbol_name()
    );
}

#[test]
fn names_within_a_module_are_distinct() {
    let names = vec![
        fn_symbol_name("shapes", "area"),
        fn_symbol_name("shapes", "new"),
        fn_checksum_symbol_name("shapes", "area"),
        fn_checksum_symbol_name("shapes", "new"),
        constructor_symbol_name("shapes", "Circle", "new"),
        constructor_symbol_name("shapes", "Square", "new"),
        constructor_symbol_name("shapes", "Circle", "unit"),
        constructor_checksum_symbol_name("shapes", "Circle", "new"),
        constructor_checksum_symbol_name("shapes", "Square", "new"),
        method_symbol_name("shapes", "Circle", "area"),
        method_symbol_name("shapes", "Square", "area"),
        method_symbol_name("shapes", "Circle", "new"),
        method_symbol_name("shapes", "Circle", "get_area"),
        method_checksum_symbol_name("shapes", "Circle", "area"),
        method_checksum_symbol_name("shapes", "Square", "area"),
        free_fn_symbol_name("shapes", "Circle"),
        free_fn_symbol_name("shapes", "Square"),
    ];
    for i in 0..names.len() {
        for j in 0..names.len() {
            if i != j {
                assert_ne!(names[i], names[j]);
            }
        }
    }
}

#[test]
fn owner_and_name_keep_their_boundary() {
    assert_ne!(method_symbol_name("m", "a_b", "c"), method_symbol_name("m", "a", "b_c"));
    assert_eq!(method_symbol_name("m", "a_b", "c"), "uniffi_m_fn_method_a$ub_c");
    assert_eq!(method_symbol_name("m", "a", "b_c"), "uniffi_m_fn_method_a_b_c");
    assert_ne!(
        method_checksum_symbol_name("m", "a_b", "c"),
        method_checksum_symbol_name("m", "a", "b_c")
    );
    assert_ne!(
        constructor_symbol_name("m", "a_b", "c"),
        constructor_symbol_name("m", "a", "b_c")
    );
    assert_ne!(
        constructor_checksum_symbol_name("m", "a_b", "c"),
        constructor_checksum_symbol_name("m", "a", "b_c")
    );
    assert_ne!(method_symbol_name("m", "a_", "b"), method_symbol_name("m", "a", "_b"));
    assert_ne!(method_symbol_name("m", "", "a_b"), method_symbol_name("m", "a", "b"));
}

#[test]
fn metadata_with_separator_in_owner_do_not_collide() {
    let first = method("a_b", "c");
    let second = method("a", "b_c");
    assert_ne!(first.ffi_symbol_name(), second.ffi_symbol_name());
    assert_ne!(first.checksum_symbol_name(), second.checksum_symbol_name());
    let first = constructor("a_b", "c");
    let second = constructor("a", "b_c");
    assert_ne!(first.ffi_symbol_name(), second.ffi_symbol_name());
    assert_ne!(first.checksum_symbol_name(), second.checksum_symbol_name());
    let of = |owner: &str, name: &str| TraitMethodMetadata {
        mod_path: "m".to_string(),
        trait_name: owner.to_string(),
        index: 0,
        name: name.to_string(),
        is_async: false,
        inputs: vec![],
        return_type: None,
        throws: None,
        takes_self_by_arc: false,
        checksum: None,
    };
    assert_ne!(of("a_b", "c").ffi_symbol_name(), of("a", "b_c").ffi_symbol_name());
    assert_ne!(of("a_b", "c").checksum_symbol_name(), of("a", "b_c").checksum_symbol_name());
}

#[test]
fn owner_is_written_escaped() {
    assert_eq!(
        constructor_symbol_name("shapes", "My_Shape", "new"),
        "uniffi_shapes_fn_constructor_My$uShape_new"
    );
    assert_eq!(method_symbol_name("m", "a$b", "c"), "uniffi_m_fn_method_a$$b_c");
    assert_eq!(method_symbol_name("m", "$u", "c"), "uniffi_m_fn_method_$$u_c");
    assert_ne!(method_symbol_name("m", "$u", "c"), method_symbol_name("m", "_", "c"));
    assert_eq!(method_symbol_name("m", "_", "c"), "uniffi_m_fn_method_$u_c");
    assert_eq!(method_symbol_name("m", "__", ""), "uniffi_m_fn_method_$u$u_");
    assert_eq!(
        method_symbol_name("m", "\u{e9}_\u{1f600}", "n"),
        "uniffi_m_fn_method_\u{e9}$u\u{1f600}_n"
    );
}

#[test]
fn item_name_is_written_as_it_is() {
    assert_eq!(
        method_symbol_name("m", "Circle", "get_area"),
        "uniffi_m_fn_method_Circle_get_area"
    );
    assert_eq!(method_symbol_name("m", "Circle", "a$b"), "uniffi_m_fn_method_Circle_a$b");
    assert_eq!(fn_symbol_name("m", "get_area"), "uniffi_m_fn_func_get_area");
    assert_eq!(free_fn_symbol_name("m", "My_Shape"), "uniffi_m_fn_free_My_Shape");
}
