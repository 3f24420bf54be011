//! UDT decoding: a record from a value of a user-defined type.

use crate::common::{get_struct_fields, record_inits, token_texts};
use crate::error::{GenError, GenErrorView};
use crate::model::DeriveInput;
use crate::text::{join, join_texts, texts};
use crate::tokens::{tokens_as_str, tokens_of, tokens_result, tokens_text};
use vstd::prelude::*;
use vstd::string::StringExecFns;

verus! {

/// The text of the reconstructor of the record `name` from a UDT, with the
/// initializers `inits` of its fields.
pub open spec fn from_udt_text(name: Seq<char>, inits: Seq<Seq<char>>) -> Seq<char> {
    "impl cdrs::frame::TryFromUDT for "@ + name
        + " { fn try_from_udt(cdrs: cdrs::types::udt::UDT) -> cdrs::Result<Self> { use cdrs::types::from_cdrs::FromCDRSByName; use cdrs::frame::TryFromUDT; Ok("@
        + name + " { "@ + join(inits, ", "@) + " }) } }"@
}

/// The text of the reconstructor of the record from a UDT.
pub open spec fn record_from_udt_text(ast: DeriveInput) -> Result<Seq<char>, GenErrorView> {
    match record_inits(ast) {
        Err(e) => Err(e),
        Ok(inits) => Ok(from_udt_text(ast.ident@, inits)),
    }
}

/// The texts that `tokens` hold, as strings.
pub(crate) fn tokens_to_strings(tokens: &Vec<quote::Tokens>) -> (strings: Vec<String>)
    ensures
        texts(strings@) == token_texts(tokens@),
{
    let mut strings: Vec<String> = Vec::new();
    let mut i: usize = 0;
    while i < tokens.len()
        invariant
            i <= tokens.len(),
            strings@.len() == i,
            forall|j: int| 0 <= j < i ==> strings@[j]@ == tokens_text(tokens@[j]),
        decreases tokens.len() - i,
    {
        strings.push(String::from_str(tokens_as_str(&tokens[i])));
        i = i + 1;
    }
    assert(texts(strings@) =~= token_texts(tokens@));
    strings
}

/// The reconstructor of the record from a UDT: each field is fetched from the
/// UDT by its name and decoded by its type.
pub fn impl_try_from_udt(ast: &DeriveInput) -> (tokens: Result<quote::Tokens, GenError>)
    ensures
        tokens_result(tokens) == record_from_udt_text(*ast),
{
    let name = ast.ident.as_str();
    let fields = tokens_to_strings(&get_struct_fields(ast)?);
    let text = String::from_str("impl cdrs::frame::TryFromUDT for ").concat(name).concat(
        " { fn try_from_udt(cdrs: cdrs::types::udt::UDT) -> cdrs::Result<Self> { use cdrs::types::from_cdrs::FromCDRSByName; use cdrs::frame::TryFromUDT; Ok(",
    ).concat(name).concat(" { ").concat(join_texts(&fields, ", ").as_str()).concat(" }) } }");
    Ok(tokens_of(text.as_str()))
}

} // verus!
