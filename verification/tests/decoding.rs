use cdrs_helpers_derive::common::{get_struct_fields, tokenize_fields};
use cdrs_helpers_derive::error::GenError;
use cdrs_helpers_derive::into_cdrs_value::{impl_into_cdrs_value, is_optional};
use cdrs_helpers_derive::model::{Attribute, Body, DeriveInput, Field, PathSegment, Ty, TyShape};
use cdrs_helpers_derive::try_from_row::impl_try_from_row;
use cdrs_helpers_derive::try_from_udt::impl_try_from_udt;
use cdrs_helpers_derive::{into_cdrs_value, try_from_row, try_from_udt};

fn generic(text: &str, leaf: &str, types: Vec<Ty>) -> Ty {
    Ty {
        text: text.to_string(),
        shape: TyShape::Path { segments: vec![PathSegment { ident: leaf.to_string(), types }] },
    }
}

fn other(text: &str) -> Ty {
    Ty { text: text.to_string(), shape: TyShape::Other }
}

fn list(inner: Ty) -> Ty {
    generic(&format!("Vec<{}>", inner.text), "Vec", vec![inner])
}

fn option(inner: Ty) -> Ty {
    generic(&format!("Option<{}>", inner.text), "Option", vec![inner])
}

fn map(key: Ty, value: Ty) -> Ty {
    generic(&format!("HashMap<{}, {}>", key.text, value.text), "HashMap", vec![key, value])
}

fn field(name: &str, ty: Ty) -> Field {
    Field { ident: name.to_string(), ty, attrs: vec![] }
}

fn mapped(name: &str, ty: Ty) -> Field {
    Field {
        ident: name.to_string(),
        ty,
        attrs: vec![Attribute::Word { name: "json_mapped".to_string() }],
    }
}

fn record(name: &str, fields: Vec<Field>) -> DeriveInput {
    DeriveInput { ident: name.to_string(), body: Body::Struct { fields } }
}

fn init(f: Field) -> String {
    let tokens = tokenize_fields(&vec![f]).unwrap();
    assert_eq!(tokens.len(), 1);
    tokens[0].as_str().to_string()
}

const LIST_OF_LISTS: &str = "vec: match cdrs::types::list::List::from_cdrs_r(&cdrs, \"vec\".trim()) { Ok(ref list) => { { let inner: Vec<cdrs::types::list::List> = list.as_rust_type()?.unwrap(); let mut decoded: Vec<Vec<i32>> = Vec::with_capacity(inner.len()); for item in inner { decoded.push({ let inner: Vec<i32> = item.as_rust_type()?.unwrap(); let mut decoded: Vec<i32> = Vec::with_capacity(inner.len()); for item in inner { decoded.push(item); } decoded }); } decoded } }, _ => return Err(\"List should not be empty\".into()) }";

const MAP_OF_RECORDS: &str = "map: match cdrs::types::map::Map::from_cdrs_r(&cdrs, \"map\".trim()) { Ok(map) => { { let inner: std::collections::HashMap<i64, cdrs::types::udt::UDT> = map.as_rust_type()?.unwrap(); let mut decoded: std::collections::HashMap<i64, N> = std::collections::HashMap::with_capacity(inner.len()); for (key, val) in inner { decoded.insert(key, N::try_from_udt(val)?); } decoded } }, _ => return Err(\"Map should not be empty\".into()) }";

const OPTIONAL_MAP: &str = "opt: { match cdrs::types::map::Map::from_cdrs_by_name(&cdrs, \"opt\".trim())? { Some(opt_value) => { let decoded = { let inner: std::collections::HashMap<i64, cdrs::types::udt::UDT> = opt_value.as_rust_type()?.unwrap(); let mut decoded: std::collections::HashMap<i64, N> = std::collections::HashMap::with_capacity(inner.len()); for (key, val) in inner { decoded.insert(key, N::try_from_udt(val)?); } decoded }; Some(decoded) }, _ => None } }";

const OPTIONAL_JSON: &str = "j: { let val = &String::from_cdrs_r(&cdrs, \"j\")?; if val.is_empty() { None } else { serde_json::from_str(&val).map_err(|_| cdrs::Error::General(format!(\"Failed to transform type {}\", \"j\")))? } }";

const REQUIRED_JSON: &str = "k: { let val = &String::from_cdrs_r(&cdrs, \"k\")?; serde_json::from_str(&val).map_err(|_| cdrs::Error::General(format!(\"Failed to transform type {}\", \"k\")))? }";

#[test]
fn scalar_fields_are_fetched_by_their_type() {
    for name in [
        "Blob", "String", "bool", "i64", "i32", "i16", "i8", "f64", "f32", "Decimal", "IpAddr",
        "Uuid", "Timespec", "PrimitiveDateTime",
    ] {
        assert_eq!(
            init(field("column", Ty::simple(name))),
            format!("column: {}::from_cdrs_r(&cdrs, \"column\".trim())?", name)
        );
    }
}

#[test]
fn nested_record_is_decoded_by_its_reconstructor() {
    assert_eq!(
        init(field("x", Ty::simple("X"))),
        "x: X::try_from_udt(cdrs::types::udt::UDT::from_cdrs_r(&cdrs, \"x\".trim())?)?"
    );
}

#[test]
fn nested_record_is_named_as_it_is_written() {
    let ty = Ty {
        text: "types::N".to_string(),
        shape: TyShape::Path {
            segments: vec![
                PathSegment { ident: "types".to_string(), types: vec![] },
                PathSegment { ident: "N".to_string(), types: vec![] },
            ],
        },
    };
    assert_eq!(
        init(field("n", ty)),
        "n: types::N::try_from_udt(cdrs::types::udt::UDT::from_cdrs_r(&cdrs, \"n\".trim())?)?"
    );
}

#[test]
fn list_of_lists() {
    assert_eq!(init(field("vec", list(list(Ty::simple("i32"))))), LIST_OF_LISTS);
}

#[test]
fn map_of_records() {
    assert_eq!(init(field("map", map(Ty::simple("i64"), Ty::simple("N")))), MAP_OF_RECORDS);
}

#[test]
fn optional_map() {
    assert_eq!(init(field("opt", option(map(Ty::simple("i64"), Ty::simple("N"))))), OPTIONAL_MAP);
}

#[test]
fn optional_scalar_and_optional_option() {
    assert_eq!(
        init(field("t", option(Ty::simple("PrimitiveDateTime")))),
        "t: { match PrimitiveDateTime::from_cdrs_by_name(&cdrs, \"t\".trim())? { Some(opt_value) => { let decoded = opt_value; Some(decoded) }, _ => None } }"
    );
    assert_eq!(
        init(field("o", option(option(Ty::simple("i32"))))),
        "o: { match Option::from_cdrs_by_name(&cdrs, \"o\".trim())? { Some(opt_value) => { let decoded = opt_value; Some(decoded) }, _ => None } }"
    );
    assert_eq!(
        init(field("u", option(Ty::simple("N")))),
        "u: { match cdrs::types::udt::UDT::from_cdrs_by_name(&cdrs, \"u\".trim())? { Some(opt_value) => { let decoded = N::try_from_udt(opt_value)?; Some(decoded) }, _ => None } }"
    );
}

#[test]
fn list_of_options_decodes_the_inner_type() {
    assert_eq!(
        init(field("l", list(option(Ty::simple("N"))))),
        "l: match cdrs::types::list::List::from_cdrs_r(&cdrs, \"l\".trim()) { Ok(ref list) => { { let inner: Vec<Option> = list.as_rust_type()?.unwrap(); let mut decoded: Vec<Option<N>> = Vec::with_capacity(inner.len()); for item in inner { decoded.push(N::try_from_udt(item)?); } decoded } }, _ => return Err(\"List should not be empty\".into()) }"
    );
}

#[test]
fn fields_keep_their_order() {
    let fields = vec![
        field("b", Ty::simple("i32")),
        field("a", Ty::simple("String")),
        mapped("c", Ty::simple("Uuid")),
    ];
    let tokens = tokenize_fields(&fields).unwrap();
    let texts: Vec<&str> = tokens.iter().map(|t| t.as_str()).collect();
    assert_eq!(
        texts,
        vec![
            "b: i32::from_cdrs_r(&cdrs, \"b\".trim())?",
            "a: String::from_cdrs_r(&cdrs, \"a\".trim())?",
            "c: Uuid::from_cdrs_r(&cdrs, \"c\".trim())?",
        ]
    );
    assert!(tokenize_fields(&Vec::new()).unwrap().is_empty());
    let ast = record("R", fields);
    let tokens = get_struct_fields(&ast).unwrap();
    assert_eq!(tokens.iter().map(|t| t.as_str()).collect::<Vec<_>>(), texts);
}

#[test]
fn first_error_in_source_order_is_reported() {
    let fields = vec![
        field("a", Ty::simple("i32")),
        field("b", list(Ty::simple("Vec"))),
        field("c", other("(i32, i32)")),
    ];
    assert_eq!(
        tokenize_fields(&fields).unwrap_err(),
        GenError::InferenceFailure { ident: "Vec".to_string() }
    );
    let fields = vec![field("c", other("(i32, i32)")), field("b", Ty::simple("Vec"))];
    assert_eq!(
        tokenize_fields(&fields).unwrap_err(),
        GenError::UnsupportedShape { ident: "(i32, i32)".to_string() }
    );
    assert_eq!(
        tokenize_fields(&vec![field("e", list(other("[u8; 4]")))]).unwrap_err(),
        GenError::UnsupportedShape { ident: "[u8; 4]".to_string() }
    );
    assert_eq!(
        tokenize_fields(&vec![field("m", Ty::simple("HashMap"))]).unwrap_err(),
        GenError::InferenceFailure { ident: "HashMap".to_string() }
    );
    assert_eq!(
        tokenize_fields(&vec![field("o", Ty::simple("Option"))]).unwrap_err(),
        GenError::InferenceFailure { ident: "Option".to_string() }
    );
}

#[test]
fn udt_reconstructor_text() {
    let ast = record("N", vec![field("n", Ty::simple("i16")), field("x", Ty::simple("X"))]);
    let expected = "impl cdrs::frame::TryFromUDT for N { fn try_from_udt(cdrs: cdrs::types::udt::UDT) -> cdrs::Result<Self> { use cdrs::types::from_cdrs::FromCDRSByName; use cdrs::frame::TryFromUDT; Ok(N { n: i16::from_cdrs_r(&cdrs, \"n\".trim())?, x: X::try_from_udt(cdrs::types::udt::UDT::from_cdrs_r(&cdrs, \"x\".trim())?)? }) } }";
    assert_eq!(impl_try_from_udt(&ast).unwrap().as_str(), expected);
    assert_eq!(try_from_udt(&ast).unwrap(), expected);
}

#[test]
fn udt_reconstructor_ignores_json_mapped() {
    let ast = record("N", vec![mapped("n", Ty::simple("i16"))]);
    assert_eq!(
        try_from_udt(&ast).unwrap(),
        "impl cdrs::frame::TryFromUDT for N { fn try_from_udt(cdrs: cdrs::types::udt::UDT) -> cdrs::Result<Self> { use cdrs::types::from_cdrs::FromCDRSByName; use cdrs::frame::TryFromUDT; Ok(N { n: i16::from_cdrs_r(&cdrs, \"n\".trim())? }) } }"
    );
}

#[test]
fn row_reconstructor_text() {
    let ast = record(
        "Udt",
        vec![
            field("number", Ty::simple("i32")),
            field("vec", list(list(Ty::simple("i32")))),
            field("map", map(Ty::simple("i64"), Ty::simple("N"))),
            field("opt", option(map(Ty::simple("i64"), Ty::simple("N")))),
        ],
    );
    let expected = format!(
        "impl TryFromRow for Udt {{ fn try_from_row(cdrs: cdrs::types::rows::Row) -> cdrs::Result<Self> {{ Ok(Udt {{ number: i32::from_cdrs_r(&cdrs, \"number\".trim())?, {}, {}, {} }}) }} }}",
        LIST_OF_LISTS, MAP_OF_RECORDS, OPTIONAL_MAP
    );
    assert_eq!(impl_try_from_row(&ast).unwrap().as_str(), expected);
    assert_eq!(try_from_row(&ast).unwrap(), expected);
}

#[test]
fn json_mapped_fields_follow_the_others() {
    let ast = record(
        "R",
        vec![
            mapped("j", option(Ty::simple("Foo"))),
            field("a", Ty::simple("i32")),
            mapped("k", Ty::simple("Foo")),
            field("b", Ty::simple("i64")),
        ],
    );
    let expected = format!(
        "impl TryFromRow for R {{ fn try_from_row(cdrs: cdrs::types::rows::Row) -> cdrs::Result<Self> {{ Ok(R {{ a: i32::from_cdrs_r(&cdrs, \"a\".trim())?, b: i64::from_cdrs_r(&cdrs, \"b\".trim())?, {}, {} }}) }} }}",
        OPTIONAL_JSON, REQUIRED_JSON
    );
    assert_eq!(try_from_row(&ast).unwrap(), expected);
}

#[test]
fn json_mapped_field_is_not_read_by_its_arguments() {
    // No type argument is needed where the field is decoded as JSON.
    let ast = record("R", vec![mapped("j", Ty::simple("Option"))]);
    assert_eq!(
        try_from_row(&ast).unwrap(),
        format!(
            "impl TryFromRow for R {{ fn try_from_row(cdrs: cdrs::types::rows::Row) -> cdrs::Result<Self> {{ Ok(R {{ {} }}) }} }}",
            OPTIONAL_JSON
        )
    );
    assert_eq!(
        try_from_udt(&ast).unwrap_err(),
        GenError::InferenceFailure { ident: "Option".to_string() }
    );
}

#[test]
fn row_errors_of_plain_fields_come_first() {
    let ast = record(
        "R",
        vec![mapped("j", other("&str")), field("a", Ty::simple("Vec")), field("b", other("()"))],
    );
    assert_eq!(
        try_from_row(&ast).unwrap_err(),
        GenError::InferenceFailure { ident: "Vec".to_string() }
    );
    let ast = record("R", vec![mapped("j", other("&str")), field("a", Ty::simple("i32"))]);
    assert_eq!(
        try_from_row(&ast).unwrap_err(),
        GenError::UnsupportedShape { ident: "&str".to_string() }
    );
}

#[test]
fn value_serialization_text() {
    let ast = record(
        "N",
        vec![field("n", Ty::simple("i16")), field("o", option(Ty::simple("X")))],
    );
    let expected = "impl Into<cdrs::types::value::Bytes> for N { fn into(self) -> cdrs::types::value::Bytes { let mut bytes: Vec<u8> = vec![]; let field_bytes: cdrs::types::value::Bytes = self.n.into(); bytes.append(&mut cdrs::types::value::Value::new_normal(field_bytes).into_cbytes()); match self.o { Some(ref val) => { let field_bytes: cdrs::types::value::Bytes = val.clone().into(); bytes.append(&mut cdrs::types::value::Value::new_normal(field_bytes).into_cbytes()); }, None => { bytes.append(&mut cdrs::types::value::Value::new_not_set().into_cbytes()); } } cdrs::types::value::Bytes::new(bytes) } }";
    assert_eq!(impl_into_cdrs_value(&ast).unwrap().as_str(), expected);
    assert_eq!(into_cdrs_value(&ast).unwrap(), expected);
}

#[test]
fn optional_is_decided_by_the_leaf_name() {
    assert!(is_optional(&field("o", option(Ty::simple("i32")))).unwrap());
    assert!(is_optional(&field("o", Ty::simple("Option"))).unwrap());
    assert!(!is_optional(&field("o", list(option(Ty::simple("i32"))))).unwrap());
    assert!(!is_optional(&field("o", Ty::simple("option"))).unwrap());
    assert_eq!(
        is_optional(&field("o", other("&Option<i32>"))).unwrap_err(),
        GenError::UnsupportedShape { ident: "&Option<i32>".to_string() }
    );
}

#[test]
fn value_serialization_rejects_what_it_cannot_read() {
    let ast = record("N", vec![field("n", Ty::simple("i16")), field("t", other("(i32, i32)"))]);
    assert_eq!(
        into_cdrs_value(&ast).unwrap_err(),
        GenError::UnsupportedShape { ident: "(i32, i32)".to_string() }
    );
    for body in [Body::Enum, Body::Tuple, Body::Unit] {
        let ast = DeriveInput { ident: "E".to_string(), body };
        let expected = GenError::UnsupportedShape { ident: "E".to_string() };
        assert_eq!(into_cdrs_value(&ast).unwrap_err(), expected);
        assert_eq!(try_from_row(&ast).unwrap_err(), expected);
        assert_eq!(try_from_udt(&ast).unwrap_err(), expected);
        assert_eq!(get_struct_fields(&ast).unwrap_err(), expected);
    }
}

#[test]
fn record_without_fields() {
    let ast = record("E", vec![]);
    assert_eq!(
        into_cdrs_value(&ast).unwrap(),
        "impl Into<cdrs::types::value::Bytes> for E { fn into(self) -> cdrs::types::value::Bytes { let mut bytes: Vec<u8> = vec![];  cdrs::types::value::Bytes::new(bytes) } }"
    );
    assert_eq!(
        try_from_row(&ast).unwrap(),
        "impl TryFromRow for E { fn try_from_row(cdrs: cdrs::types::rows::Row) -> cdrs::Result<Self> { Ok(E {  }) } }"
    );
}
