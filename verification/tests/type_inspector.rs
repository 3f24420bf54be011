use cdrs_helpers_derive::classification::{classify, TypeClassification};
use cdrs_helpers_derive::common::{
    filter_attributes, get_cdrs_type_ident, get_ident, get_ident_params_string,
    get_ident_string, get_map_params_string, has_attr, struct_fields, type_tag, TypeTag,
};
use cdrs_helpers_derive::error::GenError;
use cdrs_helpers_derive::model::{Attribute, Body, DeriveInput, Field, PathSegment, Ty, TyShape};

fn path(text: &str, segments: Vec<(&str, Vec<Ty>)>) -> Ty {
    Ty {
        text: text.to_string(),
        shape: TyShape::Path {
            segments: segments
                .into_iter()
                .map(|(ident, types)| PathSegment { ident: ident.to_string(), types })
                .collect(),
        },
    }
}

fn generic(text: &str, leaf: &str, types: Vec<Ty>) -> Ty {
    path(text, vec![(leaf, types)])
}

fn other(text: &str) -> Ty {
    Ty { text: text.to_string(), shape: TyShape::Other }
}

fn list(inner: Ty) -> Ty {
    generic(&format!("Vec<{}>", inner.text), "Vec", vec![inner])
}

fn option(inner: Ty) -> Ty {
    generic(&format!("Option<{}>", inner.text), "Option", vec![inner])
}

fn map(key: Ty, value: Ty) -> Ty {
    generic(&format!("HashMap<{}, {}>", key.text, value.text), "HashMap", vec![key, value])
}

fn unsupported(ident: &str) -> GenError {
    GenError::UnsupportedShape { ident: ident.to_string() }
}

fn inference(ident: &str) -> GenError {
    GenError::InferenceFailure { ident: ident.to_string() }
}

#[test]
fn simple_type_is_a_path_of_one_segment() {
    let ty = Ty::simple("i32");
    assert_eq!(ty, path("i32", vec![("i32", vec![])]));
}

#[test]
fn leaf_names_select_tags() {
    let cases = [
        ("Blob", TypeTag::Blob),
        ("String", TypeTag::Text),
        ("bool", TypeTag::Bool),
        ("i8", TypeTag::I8),
        ("i16", TypeTag::I16),
        ("i32", TypeTag::I32),
        ("i64", TypeTag::I64),
        ("f32", TypeTag::F32),
        ("f64", TypeTag::F64),
        ("Decimal", TypeTag::Decimal),
        ("IpAddr", TypeTag::IpAddr),
        ("Uuid", TypeTag::Uuid),
        ("Timespec", TypeTag::Timestamp),
        ("PrimitiveDateTime", TypeTag::Timestamp),
        ("Vec", TypeTag::List),
        ("HashMap", TypeTag::Mapping),
        ("Option", TypeTag::Optional),
        ("SomeRecord", TypeTag::Udt),
    ];
    for (name, tag) in cases {
        assert_eq!(type_tag(name), tag, "{}", name);
    }
}

#[test]
fn leaf_names_are_matched_exactly() {
    for name in ["blob", "string", "Bool", "I32", "u32", "vec", "Hashmap", "option", "", " i32", "i32 "] {
        assert_eq!(type_tag(name), TypeTag::Udt, "{:?}", name);
    }
}

#[test]
fn leaf_is_the_last_segment() {
    let ty = path(
        "std::collections::HashMap<i64, N>",
        vec![
            ("std", vec![]),
            ("collections", vec![]),
            ("HashMap", vec![Ty::simple("i64"), Ty::simple("N")]),
        ],
    );
    assert_eq!(get_ident(&ty).unwrap(), "HashMap");
    assert_eq!(get_ident_string(&ty).unwrap(), "HashMap");
    assert_eq!(get_cdrs_type_ident(&ty).unwrap(), "cdrs::types::map::Map");
    let (key, value) = get_map_params_string(&ty).unwrap();
    assert_eq!(key, &Ty::simple("i64"));
    assert_eq!(value, &Ty::simple("N"));
    assert_eq!(get_ident_params_string(&ty).unwrap(), &Ty::simple("N"));
    let shadowed = path("Vec::Inner", vec![("Vec", vec![Ty::simple("i32")]), ("Inner", vec![])]);
    assert_eq!(get_ident(&shadowed).unwrap(), "Inner");
    assert_eq!(get_ident_params_string(&shadowed).unwrap_err(), inference("Inner"));
}

#[test]
fn parameters_are_taken_by_position() {
    let three = generic(
        "HashMap<K, V, S>",
        "HashMap",
        vec![Ty::simple("K"), Ty::simple("V"), Ty::simple("S")],
    );
    let (key, value) = get_map_params_string(&three).unwrap();
    assert_eq!((key.text.as_str(), value.text.as_str()), ("K", "S"));
    let one = list(Ty::simple("i8"));
    let (first, last) = get_map_params_string(&one).unwrap();
    assert_eq!((first.text.as_str(), last.text.as_str()), ("i8", "i8"));
    assert_eq!(get_ident_params_string(&one).unwrap().text, "i8");
}

#[test]
fn carriers() {
    for name in [
        "Blob", "String", "bool", "i64", "i32", "i16", "i8", "f64", "f32", "Decimal", "IpAddr",
        "Uuid", "Timespec", "PrimitiveDateTime",
    ] {
        assert_eq!(get_cdrs_type_ident(&Ty::simple(name)).unwrap(), name);
    }
    assert_eq!(
        get_cdrs_type_ident(&list(Ty::simple("i32"))).unwrap(),
        "cdrs::types::list::List"
    );
    assert_eq!(
        get_cdrs_type_ident(&map(Ty::simple("i32"), Ty::simple("i32"))).unwrap(),
        "cdrs::types::map::Map"
    );
    assert_eq!(get_cdrs_type_ident(&option(Ty::simple("i32"))).unwrap(), "Option");
    assert_eq!(get_cdrs_type_ident(&Ty::simple("N")).unwrap(), "cdrs::types::udt::UDT");
    assert_eq!(get_cdrs_type_ident(&Ty::simple("Vec")).unwrap(), "cdrs::types::list::List");
}

#[test]
fn types_that_are_no_paths_are_rejected() {
    for ty in [other("(i32, i32)"), other("&'static str"), other("[u8; 4]"), path("", vec![])] {
        let expected = unsupported(&ty.text);
        assert_eq!(get_ident(&ty).unwrap_err(), expected);
        assert_eq!(get_ident_string(&ty).unwrap_err(), expected);
        assert_eq!(get_ident_params_string(&ty).unwrap_err(), expected);
        assert_eq!(get_map_params_string(&ty).unwrap_err(), expected);
        assert_eq!(get_cdrs_type_ident(&ty).unwrap_err(), expected);
        assert_eq!(classify(&ty).unwrap_err(), expected);
    }
    assert_eq!(unsupported("(i32, i32)").message(), "unsupported shape: (i32, i32)");
}

#[test]
fn containers_without_parameters_are_rejected() {
    for name in ["Vec", "HashMap", "Option"] {
        let ty = Ty::simple(name);
        assert_eq!(get_ident_params_string(&ty).unwrap_err(), inference(name));
        assert_eq!(get_map_params_string(&ty).unwrap_err(), inference(name));
        assert_eq!(classify(&ty).unwrap_err(), inference(name));
    }
    assert_eq!(inference("Vec").message(), "cannot infer field type: Vec");
}

#[test]
fn classification_follows_the_type_arguments() {
    assert_eq!(classify(&Ty::simple("Blob")).unwrap(), TypeClassification::Blob);
    assert_eq!(classify(&Ty::simple("String")).unwrap(), TypeClassification::Text);
    assert_eq!(classify(&Ty::simple("bool")).unwrap(), TypeClassification::Bool);
    assert_eq!(classify(&Ty::simple("i8")).unwrap(), TypeClassification::I8);
    assert_eq!(classify(&Ty::simple("i16")).unwrap(), TypeClassification::I16);
    assert_eq!(classify(&Ty::simple("i32")).unwrap(), TypeClassification::I32);
    assert_eq!(classify(&Ty::simple("i64")).unwrap(), TypeClassification::I64);
    assert_eq!(classify(&Ty::simple("f32")).unwrap(), TypeClassification::F32);
    assert_eq!(classify(&Ty::simple("f64")).unwrap(), TypeClassification::F64);
    assert_eq!(classify(&Ty::simple("Decimal")).unwrap(), TypeClassification::Decimal);
    assert_eq!(classify(&Ty::simple("IpAddr")).unwrap(), TypeClassification::IpAddr);
    assert_eq!(classify(&Ty::simple("Uuid")).unwrap(), TypeClassification::Uuid);
    assert_eq!(classify(&Ty::simple("Timespec")).unwrap(), TypeClassification::Timestamp);
    assert_eq!(
        classify(&Ty::simple("PrimitiveDateTime")).unwrap(),
        TypeClassification::Timestamp
    );
    assert_eq!(
        classify(&Ty::simple("N")).unwrap(),
        TypeClassification::Udt { name: "N".to_string() }
    );
    assert_eq!(
        classify(&list(list(Ty::simple("i32")))).unwrap(),
        TypeClassification::List {
            element: Box::new(TypeClassification::List {
                element: Box::new(TypeClassification::I32)
            })
        }
    );
    assert_eq!(
        classify(&option(map(Ty::simple("i64"), Ty::simple("N")))).unwrap(),
        TypeClassification::Optional {
            inner: Box::new(TypeClassification::Mapping {
                key: Box::new(TypeClassification::I64),
                value: Box::new(TypeClassification::Udt { name: "N".to_string() }),
            })
        }
    );
}

#[test]
fn classification_errors_come_from_the_arguments() {
    assert_eq!(classify(&list(Ty::simple("Vec"))).unwrap_err(), inference("Vec"));
    assert_eq!(classify(&list(other("(i32, i32)"))).unwrap_err(), unsupported("(i32, i32)"));
    assert_eq!(
        classify(&map(other("&str"), Ty::simple("Option"))).unwrap_err(),
        unsupported("&str")
    );
    assert_eq!(
        classify(&map(Ty::simple("i32"), Ty::simple("Option"))).unwrap_err(),
        inference("Option")
    );
    // The arguments of a nested record are not looked at.
    assert_eq!(
        classify(&generic("N<(i32, i32)>", "N", vec![other("(i32, i32)")])).unwrap(),
        TypeClassification::Udt { name: "N".to_string() }
    );
}

#[test]
fn attributes_are_bare_words() {
    let field = Field {
        ident: "f".to_string(),
        ty: Ty::simple("i32"),
        attrs: vec![
            Attribute::List { name: "partition_key".to_string() },
            Attribute::NameValue { name: "clustering_key".to_string() },
            Attribute::Word { name: "json_mapped".to_string() },
        ],
    };
    assert!(!has_attr(&field, "partition_key"));
    assert!(!has_attr(&field, "clustering_key"));
    assert!(has_attr(&field, "json_mapped"));
    assert!(!has_attr(&field, "json"));
    assert!(!has_attr(&field, ""));
    let bare = Field { ident: "g".to_string(), ty: Ty::simple("i32"), attrs: vec![] };
    assert!(!has_attr(&bare, "json_mapped"));
}

#[test]
fn filter_keeps_the_source_order() {
    let field = |name: &str, attrs: &[&str]| Field {
        ident: name.to_string(),
        ty: Ty::simple("i32"),
        attrs: attrs.iter().map(|a| Attribute::Word { name: a.to_string() }).collect(),
    };
    let fields = vec![
        field("a", &["x"]),
        field("b", &[]),
        field("c", &["y", "x"]),
        field("d", &["y"]),
        field("e", &["x", "x"]),
    ];
    let kept: Vec<&str> =
        filter_attributes(&fields, "x").iter().map(|f| f.ident.as_str()).collect();
    assert_eq!(kept, vec!["a", "c", "e"]);
    let kept: Vec<&str> =
        filter_attributes(&fields, "y").iter().map(|f| f.ident.as_str()).collect();
    assert_eq!(kept, vec!["c", "d"]);
    assert!(filter_attributes(&fields, "z").is_empty());
    assert!(filter_attributes(&Vec::new(), "x").is_empty());
}

#[test]
fn only_structs_with_named_fields_have_fields() {
    let named = DeriveInput {
        ident: "S".to_string(),
        body: Body::Struct {
            fields: vec![Field { ident: "a".to_string(), ty: Ty::simple("i32"), attrs: vec![] }],
        },
    };
    assert_eq!(struct_fields(&named).unwrap().len(), 1);
    let empty = DeriveInput { ident: "S".to_string(), body: Body::Struct { fields: vec![] } };
    assert!(struct_fields(&empty).unwrap().is_empty());
    for body in [Body::Enum, Body::Tuple, Body::Unit] {
        let ast = DeriveInput { ident: "S".to_string(), body };
        assert_eq!(struct_fields(&ast).unwrap_err(), unsupported("S"));
    }
}
