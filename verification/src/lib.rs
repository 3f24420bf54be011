//! Code generation for records that mirror CQL rows, user-defined types and tables.
//!
//! A record declaration is described by [`model::DeriveInput`]. From it the
//! generators emit, as token text, the implementations that a CQL client needs:
//! value serialization, row decoding, UDT decoding and the table mirror
//! (statements, parameter bundles and the primary-key companion record).

use vstd::prelude::*;
use vstd::string::StringExecFns;

pub mod classification;
pub mod common;
pub mod db_mirror;
pub mod error;
pub mod into_cdrs_value;
pub mod model;
pub mod text;
pub mod tokens;
pub mod try_from_row;
pub mod try_from_udt;

verus! {

/// The text that the derive `IntoCDRSValue` hands to the compiler for `ast`.
pub fn into_cdrs_value(ast: &model::DeriveInput) -> (text: Result<String, error::GenError>)
    ensures
        error::text_result(text) == into_cdrs_value::record_into_value_text(*ast),
{
    let gen = into_cdrs_value::impl_into_cdrs_value(ast)?;
    Ok(String::from_str(tokens::tokens_as_str(&gen)))
}

/// The text that the derive `TryFromRow` hands to the compiler for `ast`.
pub fn try_from_row(ast: &model::DeriveInput) -> (text: Result<String, error::GenError>)
    ensures
        error::text_result(text) == try_from_row::record_from_row_text(*ast),
{
    let gen = try_from_row::impl_try_from_row(ast)?;
    Ok(String::from_str(tokens::tokens_as_str(&gen)))
}

/// The text that the derive `TryFromUDT` hands to the compiler for `ast`.
pub fn try_from_udt(ast: &model::DeriveInput) -> (text: Result<String, error::GenError>)
    ensures
        error::text_result(text) == try_from_udt::record_from_udt_text(*ast),
{
    let gen = try_from_udt::impl_try_from_udt(ast)?;
    Ok(String::from_str(tokens::tokens_as_str(&gen)))
}

/// The text that the derive `DBMirror` hands to the compiler for `ast`.
/// `derive_list` names the derives of the primary-key companion.
pub fn db_mirror(ast: &model::DeriveInput, derive_list: Option<&str>) -> (text: Result<
    String,
    error::GenError,
>)
    ensures
        error::text_result(text) == db_mirror::mirror_text(
            *ast,
            db_mirror::pk_object::list_view(derive_list),
        ),
{
    let gen = db_mirror::impl_db_mirror(ast, derive_list)?;
    Ok(String::from_str(tokens::tokens_as_str(&gen)))
}

} // verus!
