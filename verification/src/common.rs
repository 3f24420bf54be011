//! The type inspector and the decoding fragments that follow from it.

use crate::error::{GenError, GenErrorView};
use crate::model::{Attribute, Body, DeriveInput, Field, PathSegment, Ty, TyShape};
use crate::text::text_eq;
use crate::tokens::{tokens_of, tokens_text};
use vstd::prelude::*;
use vstd::string::StringExecFns;

verus! {

/// What the outermost name of a type says the type is.
#[derive(Clone, Copy, Debug, PartialEq, Eq)]
pub enum TypeTag {
    Blob,
    Text,
    Bool,
    I8,
    I16,
    I32,
    I64,
    F32,
    F64,
    Decimal,
    IpAddr,
    Uuid,
    Timestamp,
    List,
    Mapping,
    Optional,
    Udt,
}

/// The tag that a leaf name selects. Names are matched exactly; a name that is
/// not recognized is the name of a user-defined type.
pub open spec fn tag_of(name: Seq<char>) -> TypeTag {
    if name == "Blob"@ {
        TypeTag::Blob
    } else if name == "String"@ {
        TypeTag::Text
    } else if name == "bool"@ {
        TypeTag::Bool
    } else if name == "i8"@ {
        TypeTag::I8
    } else if name == "i16"@ {
        TypeTag::I16
    } else if name == "i32"@ {
        TypeTag::I32
    } else if name == "i64"@ {
        TypeTag::I64
    } else if name == "f32"@ {
        TypeTag::F32
    } else if name == "f64"@ {
        TypeTag::F64
    } else if name == "Decimal"@ {
        TypeTag::Decimal
    } else if name == "IpAddr"@ {
        TypeTag::IpAddr
    } else if name == "Uuid"@ {
        TypeTag::Uuid
    } else if name == "Timespec"@ || name == "PrimitiveDateTime"@ {
        TypeTag::Timestamp
    } else if name == "Vec"@ {
        TypeTag::List
    } else if name == "HashMap"@ {
        TypeTag::Mapping
    } else if name == "Option"@ {
        TypeTag::Optional
    } else {
        TypeTag::Udt
    }
}

/// The tag that the leaf name `name` selects.
pub fn type_tag(name: &str) -> (tag: TypeTag)
    ensures
        tag == tag_of(name@),
{
    if text_eq(name, "Blob") {
        TypeTag::Blob
    } else if text_eq(name, "String") {
        TypeTag::Text
    } else if text_eq(name, "bool") {
        TypeTag::Bool
    } else if text_eq(name, "i8") {
        TypeTag::I8
    } else if text_eq(name, "i16") {
        TypeTag::I16
    } else if text_eq(name, "i32") {
        TypeTag::I32
    } else if text_eq(name, "i64") {
        TypeTag::I64
    } else if text_eq(name, "f32") {
        TypeTag::F32
    } else if text_eq(name, "f64") {
        TypeTag::F64
    } else if text_eq(name, "Decimal") {
        TypeTag::Decimal
    } else if text_eq(name, "IpAddr") {
        TypeTag::IpAddr
    } else if text_eq(name, "Uuid") {
        TypeTag::Uuid
    } else if text_eq(name, "Timespec") || text_eq(name, "PrimitiveDateTime") {
        TypeTag::Timestamp
    } else if text_eq(name, "Vec") {
        TypeTag::List
    } else if text_eq(name, "HashMap") {
        TypeTag::Mapping
    } else if text_eq(name, "Option") {
        TypeTag::Optional
    } else {
        TypeTag::Udt
    }
}

/// The leaf name of `ty`: the name of the last segment of its path. A type that
/// is no path, or a path without segments, has none.
pub open spec fn ident_of(ty: Ty) -> Result<Seq<char>, GenErrorView> {
    match ty.last_segment() {
        Some(segment) => Ok(segment.ident@),
        None => Err(GenErrorView::UnsupportedShape { ident: ty.text@ }),
    }
}

/// The type arguments of the last segment of `ty`. A leaf without type
/// arguments cannot be read as a container.
pub open spec fn params_of(ty: Ty) -> Result<Seq<Ty>, GenErrorView> {
    match ty.last_segment() {
        Some(segment) => if segment.types@.len() > 0 {
            Ok(segment.types@)
        } else {
            Err(GenErrorView::InferenceFailure { ident: segment.ident@ })
        },
        None => Err(GenErrorView::UnsupportedShape { ident: ty.text@ }),
    }
}

/// The last segment of the path of `ty`.
fn last_segment(ty: &Ty) -> (found: Result<&PathSegment, GenError>)
    ensures
        match found {
            Ok(segment) => ty.last_segment() == Some(*segment),
            Err(e) => ty.last_segment() is None && e@ == (GenErrorView::UnsupportedShape {
                ident: ty.text@,
            }),
        },
{
    match &ty.shape {
        TyShape::Path { segments } => {
            if segments.len() > 0 {
                return Ok(&segments[segments.len() - 1]);
            }
        },
        TyShape::Other => {},
    }
    Err(GenError::UnsupportedShape { ident: ty.text.clone() })
}

/// The leaf name of `ty`.
pub fn get_ident(ty: &Ty) -> (name: Result<String, GenError>)
    ensures
        crate::error::text_result(name) == ident_of(*ty),
{
    let segment = last_segment(ty)?;
    Ok(segment.ident.clone())
}

/// The leaf name of `ty`, as text.
pub fn get_ident_string(ty: &Ty) -> (name: Result<String, GenError>)
    ensures
        crate::error::text_result(name) == ident_of(*ty),
{
    get_ident(ty)
}

/// The last type argument of the leaf of `ty`: the element of a sequence, the
/// inner type of an option.
pub fn get_ident_params_string(ty: &Ty) -> (param: Result<&Ty, GenError>)
    ensures
        match param {
            Ok(inner) => params_of(*ty) matches Ok(types) && *inner == types.last(),
            Err(e) => params_of(*ty) == Err::<Seq<Ty>, GenErrorView>(e@),
        },
{
    let segment = last_segment(ty)?;
    if segment.types.len() > 0 {
        Ok(&segment.types[segment.types.len() - 1])
    } else {
        Err(GenError::InferenceFailure { ident: segment.ident.clone() })
    }
}

/// The first and the last type argument of the leaf of `ty`: the key and the
/// value of a map.
pub fn get_map_params_string(ty: &Ty) -> (params: Result<(&Ty, &Ty), GenError>)
    ensures
        match params {
            Ok((key, value)) => params_of(*ty) matches Ok(types) && *key == types.first()
                && *value == types.last(),
            Err(e) => params_of(*ty) == Err::<Seq<Ty>, GenErrorView>(e@),
        },
{
    let segment = last_segment(ty)?;
    if segment.types.len() > 0 {
        Ok((&segment.types[0], &segment.types[segment.types.len() - 1]))
    } else {
        Err(GenError::InferenceFailure { ident: segment.ident.clone() })
    }
}

/// The name of the client's carrier for a type with leaf name `name`: the name
/// itself for a scalar, the client's list, map and UDT types otherwise.
pub open spec fn carrier_name(name: Seq<char>) -> Seq<char> {
    match tag_of(name) {
        TypeTag::List => "cdrs::types::list::List"@,
        TypeTag::Mapping => "cdrs::types::map::Map"@,
        TypeTag::Optional => "Option"@,
        TypeTag::Udt => "cdrs::types::udt::UDT"@,
        _ => name,
    }
}

/// The name of the client's carrier for `ty`.
pub open spec fn carrier_of(ty: Ty) -> Result<Seq<char>, GenErrorView> {
    match ident_of(ty) {
        Ok(name) => Ok(carrier_name(name)),
        Err(e) => Err(e),
    }
}

/// The name of the client's carrier for `ty`.
pub fn get_cdrs_type_ident(ty: &Ty) -> (carrier: Result<String, GenError>)
    ensures
        crate::error::text_result(carrier) == carrier_of(*ty),
{
    let name = get_ident_string(ty)?;
    let carrier = match type_tag(name.as_str()) {
        TypeTag::List => "cdrs::types::list::List".to_owned(),
        TypeTag::Mapping => "cdrs::types::map::Map".to_owned(),
        TypeTag::Optional => "Option".to_owned(),
        TypeTag::Udt => "cdrs::types::udt::UDT".to_owned(),
        _ => name,
    };
    Ok(carrier)
}

/// Whether `attr` is among `attrs` as a bare word.
pub open spec fn has_word(attrs: Seq<Attribute>, attr: Seq<char>) -> bool {
    exists|i: int|
        0 <= i < attrs.len() && (#[trigger] attrs[i] matches Attribute::Word { name } && name@
            == attr)
}

/// Whether `field` carries the attribute `attr` as a bare word.
pub fn has_attr(field: &Field, attr: &str) -> (found: bool)
    ensures
        found == has_word(field.attrs@, attr@),
{
    let mut i: usize = 0;
    while i < field.attrs.len()
        invariant
            i <= field.attrs.len(),
            forall|j: int|
                0 <= j < i ==> !(#[trigger] field.attrs@[j] matches Attribute::Word { name }
                    && name@ == attr@),
        decreases field.attrs.len() - i,
    {
        match &field.attrs[i] {
            Attribute::Word { name } => {
                if text_eq(name.as_str(), attr) {
                    return true;
                }
            },
            _ => {},
        }
        i = i + 1;
    }
    false
}

/// The positions in `fields`, in order, of those that carry `attr`.
pub open spec fn marked(fields: Seq<Field>, attr: Seq<char>) -> Seq<int>
    decreases fields.len(),
{
    if fields.len() == 0 {
        Seq::empty()
    } else if has_word(fields.last().attrs@, attr) {
        marked(fields.drop_last(), attr).push(fields.len() - 1)
    } else {
        marked(fields.drop_last(), attr)
    }
}

/// The fields of `fields`, in order, that carry `attr`.
pub open spec fn with_attr(fields: Seq<Field>, attr: Seq<char>) -> Seq<Field> {
    Seq::new(marked(fields, attr).len(), |i: int| fields[marked(fields, attr)[i]])
}

/// Every position that `marked` gives lies in `fields`, and they ascend.
pub proof fn lemma_marked_in_range(fields: Seq<Field>, attr: Seq<char>)
    ensures
        marked(fields, attr).len() <= fields.len(),
        forall|i: int|
            0 <= i < marked(fields, attr).len() ==> 0 <= #[trigger] marked(fields, attr)[i]
                < fields.len(),
        forall|i: int, j: int|
            0 <= i < j < marked(fields, attr).len() ==> marked(fields, attr)[i] < marked(
                fields,
                attr,
            )[j],
        forall|i: int|
            0 <= i < marked(fields, attr).len() ==> has_word(
                fields[#[trigger] marked(fields, attr)[i]].attrs@,
                attr,
            ),
    decreases fields.len(),
{
    if fields.len() > 0 {
        lemma_marked_in_range(fields.drop_last(), attr);
    }
}

/// The fields of `fields`, in order, that carry the attribute `attr`.
pub fn filter_attributes<'a>(fields: &'a Vec<Field>, attr: &str) -> (kept: Vec<&'a Field>)
    ensures
        kept@.len() == with_attr(fields@, attr@).len(),
        forall|i: int| 0 <= i < kept@.len() ==> *kept@[i] == with_attr(fields@, attr@)[i],
{
    let mut kept: Vec<&Field> = Vec::new();
    let mut i: usize = 0;
    while i < fields.len()
        invariant
            i <= fields.len(),
            kept@.len() == marked(fields@.take(i as int), attr@).len(),
            forall|j: int|
                0 <= j < kept@.len() ==> *kept@[j] == fields@[marked(
                    fields@.take(i as int),
                    attr@,
                )[j]],
        decreases fields.len() - i,
    {
        proof {
            assert(fields@.take(i + 1).drop_last() =~= fields@.take(i as int));
            assert(fields@.take(i + 1).last() == fields@[i as int]);
        }
        if has_attr(&fields[i], attr) {
            kept.push(&fields[i]);
        }
        i = i + 1;
    }
    proof {
        assert(fields@.take(fields.len() as int) =~= fields@);
    }
    kept
}

/// The named fields of the record.
pub open spec fn fields_of(ast: DeriveInput) -> Result<Seq<Field>, GenErrorView> {
    match ast.named_fields() {
        Some(fields) => Ok(fields),
        None => Err(GenErrorView::UnsupportedShape { ident: ast.ident@ }),
    }
}

/// The named fields of the record. The derives are defined for structs with
/// named fields: tuple structs, unit structs and enums are rejected.
pub fn struct_fields(ast: &DeriveInput) -> (fields: Result<&Vec<Field>, GenError>)
    ensures
        match fields {
            Ok(fields) => fields_of(*ast) == Ok::<Seq<Field>, GenErrorView>(fields@),
            Err(e) => fields_of(*ast) == Err::<Seq<Field>, GenErrorView>(e@),
        },
{
    match &ast.body {
        Body::Struct { fields } => Ok(fields),
        _ => Err(GenError::UnsupportedShape { ident: ast.ident.clone() }),
    }
}

/// A sequence read from the carrier `val`: each item is decoded by `item` and
/// collected.
pub open spec fn list_body(
    val: Seq<char>,
    carrier: Seq<char>,
    element: Seq<char>,
    item: Seq<char>,
) -> Seq<char> {
    "{ let inner: Vec<"@ + carrier + "> = "@ + val
        + ".as_rust_type()?.unwrap(); let mut decoded: Vec<"@ + element
        + "> = Vec::with_capacity(inner.len()); for item in inner { decoded.push("@ + item
        + "); } decoded }"@
}

/// A mapping read from the carrier `val`: keys pass unchanged, each value is
/// decoded by `item`.
pub open spec fn map_body(
    val: Seq<char>,
    key: Seq<char>,
    carrier: Seq<char>,
    value: Seq<char>,
    item: Seq<char>,
) -> Seq<char> {
    "{ let inner: std::collections::HashMap<"@ + key + ", "@ + carrier + "> = "@ + val
        + ".as_rust_type()?.unwrap(); let mut decoded: std::collections::HashMap<"@ + key + ", "@
        + value
        + "> = std::collections::HashMap::with_capacity(inner.len()); for (key, val) in inner { decoded.insert(key, "@
        + item + "); } decoded }"@
}

/// A nested record read from the UDT carrier `val`.
pub open spec fn udt_body(ty: Seq<char>, val: Seq<char>) -> Seq<char> {
    ty + "::try_from_udt("@ + val + ")?"@
}

/// The expression that decodes the fetched value `val` into `ty`: the value
/// itself for a scalar, a collected sequence or mapping for a container, the
/// decoding of the inner type for an option, a call of its reconstructor for a
/// nested record.
pub open spec fn as_rust_text(ty: Ty, val: Seq<char>) -> Result<Seq<char>, GenErrorView>
    decreases ty,
{
    match ident_of(ty) {
        Err(e) => Err(e),
        Ok(name) => match tag_of(name) {
            TypeTag::List => match params_of(ty) {
                Err(e) => Err(e),
                Ok(types) => match carrier_of(types.last()) {
                    Err(e) => Err(e),
                    Ok(carrier) => match as_rust_text(types.last(), "item"@) {
                        Err(e) => Err(e),
                        Ok(item) => Ok(list_body(val, carrier, types.last().text@, item)),
                    },
                },
            },
            TypeTag::Mapping => match params_of(ty) {
                Err(e) => Err(e),
                Ok(types) => match carrier_of(types.last()) {
                    Err(e) => Err(e),
                    Ok(carrier) => match as_rust_text(types.last(), "val"@) {
                        Err(e) => Err(e),
                        Ok(item) => Ok(
                            map_body(
                                val,
                                types.first().text@,
                                carrier,
                                types.last().text@,
                                item,
                            ),
                        ),
                    },
                },
            },
            TypeTag::Optional => match params_of(ty) {
                Err(e) => Err(e),
                Ok(types) => as_rust_text(types.last(), val),
            },
            TypeTag::Udt => Ok(udt_body(ty.text@, val)),
            _ => Ok(val),
        },
    }
}

/// The expression that decodes the fetched value `val` into `ty`.
fn as_rust(ty: &Ty, val: &str) -> (text: Result<String, GenError>)
    ensures
        crate::error::text_result(text) == as_rust_text(*ty, val@),
    decreases ty,
{
    let name = get_ident_string(ty)?;
    match type_tag(name.as_str()) {
        TypeTag::List => {
            let element = get_ident_params_string(ty)?;
            let carrier = get_cdrs_type_ident(element)?;
            let item = as_rust(element, "item")?;
            Ok(
                String::from_str("{ let inner: Vec<").concat(carrier.as_str()).concat(
                    "> = ",
                ).concat(val).concat(".as_rust_type()?.unwrap(); let mut decoded: Vec<").concat(
                    element.text.as_str(),
                ).concat(
                    "> = Vec::with_capacity(inner.len()); for item in inner { decoded.push(",
                ).concat(item.as_str()).concat("); } decoded }"),
            )
        },
        TypeTag::Mapping => {
            let (key, value) = get_map_params_string(ty)?;
            let carrier = get_cdrs_type_ident(value)?;
            let item = as_rust(value, "val")?;
            Ok(
                String::from_str("{ let inner: std::collections::HashMap<").concat(
                    key.text.as_str(),
                ).concat(", ").concat(carrier.as_str()).concat("> = ").concat(val).concat(
                    ".as_rust_type()?.unwrap(); let mut decoded: std::collections::HashMap<",
                ).concat(key.text.as_str()).concat(", ").concat(value.text.as_str()).concat(
                    "> = std::collections::HashMap::with_capacity(inner.len()); for (key, val) in inner { decoded.insert(key, ",
                ).concat(item.as_str()).concat("); } decoded }"),
            )
        },
        TypeTag::Optional => {
            let inner = get_ident_params_string(ty)?;
            as_rust(inner, val)
        },
        TypeTag::Udt => Ok(
            String::from_str(ty.text.as_str()).concat("::try_from_udt(").concat(val).concat(")?"),
        ),
        _ => Ok(String::from_str(val)),
    }
}

/// The literal that names a column: the field's name, trimmed where it is used.
pub open spec fn column_literal(name: Seq<char>) -> Seq<char> {
    "\""@ + name + "\".trim()"@
}

/// The arguments of a fetch: the accessor, then the column named by `name`.
pub open spec fn arguments_text(name: Seq<char>) -> Seq<char> {
    "&cdrs, "@ + name
}

/// The arguments of a fetch: the accessor, then the column named by `name`.
fn get_arguments(name: &str) -> (arguments: String)
    ensures
        arguments@ == arguments_text(name@),
{
    String::from_str("&cdrs, ").concat(name)
}

/// A typed fetch of a scalar.
pub open spec fn scalar_fetch(name: Seq<char>, arguments: Seq<char>) -> Seq<char> {
    name + "::from_cdrs_r("@ + arguments + ")?"@
}

/// A fetch of the client's list carrier, which must be present, then `body`.
pub open spec fn list_fetch(arguments: Seq<char>, body: Seq<char>) -> Seq<char> {
    "match cdrs::types::list::List::from_cdrs_r("@ + arguments + ") { Ok(ref list) => { "@ + body
        + " }, _ => return Err(\"List should not be empty\".into()) }"@
}

/// A fetch of the client's map carrier, which must be present, then `body`.
pub open spec fn map_fetch(arguments: Seq<char>, body: Seq<char>) -> Seq<char> {
    "match cdrs::types::map::Map::from_cdrs_r("@ + arguments + ") { Ok(map) => { "@ + body
        + " }, _ => return Err(\"Map should not be empty\".into()) }"@
}

/// A fetch by name that may find nothing: `body` decodes what is found.
pub open spec fn option_fetch(carrier: Seq<char>, arguments: Seq<char>, body: Seq<char>) -> Seq<
    char,
> {
    "{ match "@ + carrier + "::from_cdrs_by_name("@ + arguments
        + ")? { Some(opt_value) => { let decoded = "@ + body
        + "; Some(decoded) }, _ => None } }"@
}

/// A fetch of the client's UDT carrier, handed to the reconstructor of `ty`.
pub open spec fn udt_fetch(ty: Seq<char>, arguments: Seq<char>) -> Seq<char> {
    ty + "::try_from_udt(cdrs::types::udt::UDT::from_cdrs_r("@ + arguments + ")?)?"@
}

/// The expression that fetches a value of type `ty` with `arguments` and
/// decodes it.
pub open spec fn into_rust_text(ty: Ty, arguments: Seq<char>) -> Result<Seq<char>, GenErrorView> {
    match ident_of(ty) {
        Err(e) => Err(e),
        Ok(name) => match tag_of(name) {
            TypeTag::List => match as_rust_text(ty, "list"@) {
                Err(e) => Err(e),
                Ok(body) => Ok(list_fetch(arguments, body)),
            },
            TypeTag::Mapping => match as_rust_text(ty, "map"@) {
                Err(e) => Err(e),
                Ok(body) => Ok(map_fetch(arguments, body)),
            },
            TypeTag::Optional => match params_of(ty) {
                Err(e) => Err(e),
                Ok(types) => match carrier_of(types.last()) {
                    Err(e) => Err(e),
                    Ok(carrier) => match as_rust_text(types.last(), "opt_value"@) {
                        Err(e) => Err(e),
                        Ok(body) => Ok(option_fetch(carrier, arguments, body)),
                    },
                },
            },
            TypeTag::Udt => Ok(udt_fetch(ty.text@, arguments)),
            _ => Ok(scalar_fetch(name, arguments)),
        },
    }
}

/// The expression that fetches a value of type `ty` with `arguments` and
/// decodes it.
fn into_rust_with_args(ty: &Ty, arguments: &str) -> (text: Result<String, GenError>)
    ensures
        crate::error::text_result(text) == into_rust_text(*ty, arguments@),
{
    let name = get_ident_string(ty)?;
    match type_tag(name.as_str()) {
        TypeTag::List => {
            let body = as_rust(ty, "list")?;
            Ok(
                String::from_str("match cdrs::types::list::List::from_cdrs_r(").concat(
                    arguments,
                ).concat(") { Ok(ref list) => { ").concat(body.as_str()).concat(
                    " }, _ => return Err(\"List should not be empty\".into()) }",
                ),
            )
        },
        TypeTag::Mapping => {
            let body = as_rust(ty, "map")?;
            Ok(
                String::from_str("match cdrs::types::map::Map::from_cdrs_r(").concat(
                    arguments,
                ).concat(") { Ok(map) => { ").concat(body.as_str()).concat(
                    " }, _ => return Err(\"Map should not be empty\".into()) }",
                ),
            )
        },
        TypeTag::Optional => {
            let inner = get_ident_params_string(ty)?;
            let carrier = get_cdrs_type_ident(inner)?;
            let body = as_rust(inner, "opt_value")?;
            Ok(
                String::from_str("{ match ").concat(carrier.as_str()).concat(
                    "::from_cdrs_by_name(",
                ).concat(arguments).concat(")? { Some(opt_value) => { let decoded = ").concat(
                    body.as_str(),
                ).concat("; Some(decoded) }, _ => None } }"),
            )
        },
        TypeTag::Udt => Ok(
            String::from_str(ty.text.as_str()).concat(
                "::try_from_udt(cdrs::types::udt::UDT::from_cdrs_r(",
            ).concat(arguments).concat(")?)?"),
        ),
        _ => Ok(name.concat("::from_cdrs_r(").concat(arguments).concat(")?")),
    }
}

/// The expression that fetches the column of `field` and decodes it.
pub open spec fn field_value_text(field: Field) -> Result<Seq<char>, GenErrorView> {
    into_rust_text(field.ty, arguments_text(column_literal(field.ident@)))
}

/// The expression that fetches the column of `field` and decodes it.
fn convert_field_into_rust(field: &Field) -> (text: Result<String, GenError>)
    ensures
        crate::error::text_result(text) == field_value_text(*field),
{
    let string_name = String::from_str("\"").concat(field.ident.as_str()).concat("\".trim()");
    let arguments = get_arguments(string_name.as_str());
    into_rust_with_args(&field.ty, arguments.as_str())
}

/// The initializer of `field` in the reconstructed record: its name, then the
/// expression that fetches and decodes its column.
pub open spec fn field_init_text(field: Field) -> Result<Seq<char>, GenErrorView> {
    match field_value_text(field) {
        Err(e) => Err(e),
        Ok(value) => Ok(field.ident@ + ": "@ + value),
    }
}

/// The initializer of `field` in the reconstructed record.
pub(crate) fn field_init(field: &Field) -> (text: Result<String, GenError>)
    ensures
        crate::error::text_result(text) == field_init_text(*field),
{
    let value = convert_field_into_rust(field)?;
    Ok(String::from_str(field.ident.as_str()).concat(": ").concat(value.as_str()))
}

/// What one field gives: a text, nothing, or an error.
pub type Item = Result<Option<Seq<char>>, GenErrorView>;

/// The item of a text that is always wanted.
pub open spec fn wanted(text: Result<Seq<char>, GenErrorView>) -> Item {
    match text {
        Ok(text) => Ok(Some(text)),
        Err(e) => Err(e),
    }
}

/// The texts of `items` in order, or the first error among them.
pub open spec fn gather(items: Seq<Item>) -> Result<Seq<Seq<char>>, GenErrorView>
    decreases items.len(),
{
    if items.len() == 0 {
        Ok(Seq::empty())
    } else {
        match gather(items.drop_last()) {
            Err(e) => Err(e),
            Ok(head) => match items.last() {
                Err(e) => Err(e),
                Ok(None) => Ok(head),
                Ok(Some(text)) => Ok(head.push(text)),
            },
        }
    }
}

/// An error among the first `n` items is the error of them all.
pub proof fn lemma_gather_error(items: Seq<Item>, n: int)
    requires
        0 <= n <= items.len(),
        gather(items.take(n)) is Err,
    ensures
        gather(items) == gather(items.take(n)),
    decreases items.len() - n,
{
    if n < items.len() {
        assert(items.take(n + 1).drop_last() =~= items.take(n));
        lemma_gather_error(items, n + 1);
    } else {
        assert(items.take(n) =~= items);
    }
}

/// What the first `n + 1` items give follows from what the first `n` give and
/// from the item at `n`.
pub proof fn lemma_gather_step(items: Seq<Item>, n: int)
    requires
        0 <= n < items.len(),
    ensures
        gather(items.take(n + 1)) == match gather(items.take(n)) {
            Err(e) => Err(e),
            Ok(head) => match items[n] {
                Err(e) => Err(e),
                Ok(None) => Ok(head),
                Ok(Some(text)) => Ok(head.push(text)),
            },
        },
{
    assert(items.take(n + 1).drop_last() =~= items.take(n));
    assert(items.take(n + 1).last() == items[n]);
}

/// What each field gives: its initializer.
pub open spec fn init_items(fields: Seq<Field>) -> Seq<Item> {
    Seq::new(fields.len(), |i: int| wanted(field_init_text(fields[i])))
}

/// The initializers of `fields`, in order, or the error of the first field
/// that has one.
pub open spec fn field_inits(fields: Seq<Field>) -> Result<Seq<Seq<char>>, GenErrorView> {
    gather(init_items(fields))
}

/// The texts that `tokens` hold, in order.
pub open spec fn token_texts(tokens: Seq<quote::Tokens>) -> Seq<Seq<char>> {
    Seq::new(tokens.len(), |i: int| tokens_text(tokens[i]))
}

/// The texts of a list of tokens, or the error in its place.
pub open spec fn inits_result(r: Result<Vec<quote::Tokens>, GenError>) -> Result<
    Seq<Seq<char>>,
    GenErrorView,
> {
    match r {
        Ok(tokens) => Ok(token_texts(tokens@)),
        Err(e) => Err(e@),
    }
}

/// One initializer per field, in order: the field's name, then the expression
/// that fetches and decodes its column.
pub fn tokenize_fields(fields: &Vec<Field>) -> (tokens: Result<Vec<quote::Tokens>, GenError>)
    ensures
        inits_result(tokens) == field_inits(fields@),
{
    let ghost items = init_items(fields@);
    let mut tokens: Vec<quote::Tokens> = Vec::new();
    let mut i: usize = 0;
    assert(token_texts(tokens@) =~= Seq::<Seq<char>>::empty());
    while i < fields.len()
        invariant
            i <= fields.len(),
            items == init_items(fields@),
            gather(items.take(i as int)) == Ok::<Seq<Seq<char>>, GenErrorView>(
                token_texts(tokens@),
            ),
        decreases fields.len() - i,
    {
        proof {
            lemma_gather_step(items, i as int);
        }
        match field_init(&fields[i]) {
            Ok(init) => {
                let ghost before = token_texts(tokens@);
                tokens.push(tokens_of(init.as_str()));
                assert(token_texts(tokens@) =~= before.push(init@));
            },
            Err(e) => {
                proof {
                    lemma_gather_error(items, i + 1);
                }
                return Err(e);
            },
        }
        i = i + 1;
    }
    proof {
        assert(items.take(fields.len() as int) =~= items);
    }
    Ok(tokens)
}

/// The initializers of the record's fields.
pub open spec fn record_inits(ast: DeriveInput) -> Result<Seq<Seq<char>>, GenErrorView> {
    match fields_of(ast) {
        Err(e) => Err(e),
        Ok(fields) => field_inits(fields),
    }
}

/// One initializer per field of the record, in order.
pub fn get_struct_fields(ast: &DeriveInput) -> (tokens: Result<Vec<quote::Tokens>, GenError>)
    ensures
        inits_result(tokens) == record_inits(*ast),
{
    let fields = struct_fields(ast)?;
    tokenize_fields(fields)
}

} // verus!
