//! Value serialization: a record as the bytes of an inline value.

use crate::common::{
    fields_of, gather, get_ident_string, ident_of, lemma_gather_error, lemma_gather_step,
    struct_fields, wanted, Item,
};
use crate::error::{GenError, GenErrorView};
use crate::model::{DeriveInput, Field};
use crate::text::{join, join_texts, text_eq, texts};
use crate::tokens::{tokens_of, tokens_result, tokens_text};
use vstd::prelude::*;
use vstd::string::StringExecFns;

verus! {

/// The statement that appends a field that may be absent: the envelope of its
/// value where it is present, the envelope of a value that is not set where it
/// is not.
pub open spec fn optional_bytes(name: Seq<char>) -> Seq<char> {
    "match self."@ + name
        + " { Some(ref val) => { let field_bytes: cdrs::types::value::Bytes = val.clone().into(); bytes.append(&mut cdrs::types::value::Value::new_normal(field_bytes).into_cbytes()); }, None => { bytes.append(&mut cdrs::types::value::Value::new_not_set().into_cbytes()); } }"@
}

/// The statement that appends the envelope of a field's value.
pub open spec fn plain_bytes(name: Seq<char>) -> Seq<char> {
    "let field_bytes: cdrs::types::value::Bytes = self."@ + name
        + ".into(); bytes.append(&mut cdrs::types::value::Value::new_normal(field_bytes).into_cbytes());"@
}

/// Whether the field is optional: whether the leaf name of its type is
/// `Option`.
pub open spec fn optional_field(field: Field) -> Result<bool, GenErrorView> {
    match ident_of(field.ty) {
        Err(e) => Err(e),
        Ok(name) => Ok(name == "Option"@),
    }
}

/// The statement that appends `field` to the bytes of the record.
pub open spec fn field_bytes_text(field: Field) -> Result<Seq<char>, GenErrorView> {
    match optional_field(field) {
        Err(e) => Err(e),
        Ok(optional) => Ok(
            if optional {
                optional_bytes(field.ident@)
            } else {
                plain_bytes(field.ident@)
            },
        ),
    }
}

/// What each field gives: the statement that appends it.
pub open spec fn conversion_items(fields: Seq<Field>) -> Seq<Item> {
    Seq::new(fields.len(), |i: int| wanted(field_bytes_text(fields[i])))
}

/// The statements that append the fields, in source order.
pub open spec fn conversions(fields: Seq<Field>) -> Result<Seq<Seq<char>>, GenErrorView> {
    gather(conversion_items(fields))
}

/// The text of the conversion of the record `name` into bytes: the envelopes
/// of its fields, one after the other in source order.
pub open spec fn into_value_text(name: Seq<char>, conversions: Seq<Seq<char>>) -> Seq<char> {
    "impl Into<cdrs::types::value::Bytes> for "@ + name
        + " { fn into(self) -> cdrs::types::value::Bytes { let mut bytes: Vec<u8> = vec![]; "@
        + join(conversions, " "@) + " cdrs::types::value::Bytes::new(bytes) } }"@
}

/// The text of the conversion of the record into bytes.
pub open spec fn record_into_value_text(ast: DeriveInput) -> Result<Seq<char>, GenErrorView> {
    match fields_of(ast) {
        Err(e) => Err(e),
        Ok(fields) => match conversions(fields) {
            Err(e) => Err(e),
            Ok(conversions) => Ok(into_value_text(ast.ident@, conversions)),
        },
    }
}

/// Whether the field is optional.
pub fn is_optional(field: &Field) -> (optional: Result<bool, GenError>)
    ensures
        match optional {
            Ok(optional) => optional_field(*field) == Ok::<bool, GenErrorView>(optional),
            Err(e) => optional_field(*field) == Err::<bool, GenErrorView>(e@),
        },
{
    let name = get_ident_string(&field.ty)?;
    Ok(text_eq(name.as_str(), "Option"))
}

/// The conversion of the record into the bytes of an inline value: the
/// envelopes of its fields, appended in source order. An optional field that
/// is absent is appended as a value that is not set.
pub fn impl_into_cdrs_value(ast: &DeriveInput) -> (tokens: Result<quote::Tokens, GenError>)
    ensures
        tokens_result(tokens) == record_into_value_text(*ast),
{
    let fields = struct_fields(ast)?;
    let ghost items = conversion_items(fields@);
    let mut convert_into_bytes: Vec<String> = Vec::new();
    let mut i: usize = 0;
    assert(texts(convert_into_bytes@) =~= Seq::<Seq<char>>::empty());
    while i < fields.len()
        invariant
            i <= fields.len(),
            fields_of(*ast) == Ok::<Seq<Field>, GenErrorView>(fields@),
            items == conversion_items(fields@),
            gather(items.take(i as int)) == Ok::<Seq<Seq<char>>, GenErrorView>(
                texts(convert_into_bytes@),
            ),
        decreases fields.len() - i,
    {
        proof {
            lemma_gather_step(items, i as int);
        }
        let field = &fields[i];
        let ghost before = texts(convert_into_bytes@);
        match is_optional(field) {
            Ok(true) => {
                convert_into_bytes.push(
                    String::from_str("match self.").concat(field.ident.as_str()).concat(
                        " { Some(ref val) => { let field_bytes: cdrs::types::value::Bytes = val.clone().into(); bytes.append(&mut cdrs::types::value::Value::new_normal(field_bytes).into_cbytes()); }, None => { bytes.append(&mut cdrs::types::value::Value::new_not_set().into_cbytes()); } }",
                    ),
                );
                assert(texts(convert_into_bytes@) =~= before.push(optional_bytes(field.ident@)));
            },
            Ok(false) => {
                convert_into_bytes.push(
                    String::from_str("let field_bytes: cdrs::types::value::Bytes = self.").concat(
                        field.ident.as_str(),
                    ).concat(
                        ".into(); bytes.append(&mut cdrs::types::value::Value::new_normal(field_bytes).into_cbytes());",
                    ),
                );
                assert(texts(convert_into_bytes@) =~= before.push(plain_bytes(field.ident@)));
            },
            Err(e) => {
                proof {
                    assert(items[i as int] == wanted(field_bytes_text(*field)));
                    assert(gather(items.take(i + 1)) == Err::<Seq<Seq<char>>, GenErrorView>(e@));
                    lemma_gather_error(items, i + 1);
                }
                return Err(e);
            },
        }
        i = i + 1;
    }
    proof {
        assert(items.take(fields.len() as int) =~= items);
    }
    let text = String::from_str("impl Into<cdrs::types::value::Bytes> for ").concat(
        ast.ident.as_str(),
    ).concat(
        " { fn into(self) -> cdrs::types::value::Bytes { let mut bytes: Vec<u8> = vec![]; ",
    ).concat(join_texts(&convert_into_bytes, " ").as_str()).concat(
        " cdrs::types::value::Bytes::new(bytes) } }",
    );
    Ok(tokens_of(text.as_str()))
}

} // verus!
