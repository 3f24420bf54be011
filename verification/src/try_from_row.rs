//! Row decoding: a record from a decoded row.

use crate::common::{
    field_init, field_init_text, fields_of, gather, get_ident, has_attr, has_word, ident_of,
    lemma_gather_error, lemma_gather_step, struct_fields, wanted, Item,
};
use crate::error::{GenError, GenErrorView};
use crate::model::{DeriveInput, Field};
use crate::text::{join, join_texts, text_eq, texts};
use crate::tokens::{tokens_of, tokens_result, tokens_text};
use vstd::prelude::*;
use vstd::string::StringExecFns;

verus! {

/// The statement that fetches the column `name` as a string.
pub open spec fn json_fetch(name: Seq<char>) -> Seq<char> {
    "let val = &String::from_cdrs_r(&cdrs, \""@ + name + "\")?;"@
}

/// The expression that decodes the fetched string as JSON. A failure is a
/// general error that names the field.
pub open spec fn json_decode(name: Seq<char>) -> Seq<char> {
    "serde_json::from_str(&val).map_err(|_| cdrs::Error::General(format!(\"Failed to transform type {}\", \""@
        + name + "\")))?"@
}

/// The initializer of a field that is mapped through JSON. Where the field is
/// optional an empty string is an absent value.
pub open spec fn json_init(name: Seq<char>, optional: bool) -> Seq<char> {
    if optional {
        name + ": { "@ + json_fetch(name) + " if val.is_empty() { None } else { "@ + json_decode(
            name,
        ) + " } }"@
    } else {
        name + ": { "@ + json_fetch(name) + " "@ + json_decode(name) + " }"@
    }
}

/// The initializer of the field `field`, which is mapped through JSON.
pub open spec fn json_init_text(field: Field) -> Result<Seq<char>, GenErrorView> {
    match ident_of(field.ty) {
        Err(e) => Err(e),
        Ok(name) => Ok(json_init(field.ident@, name == "Option"@)),
    }
}

/// Whether the field is mapped through JSON.
pub open spec fn json_mapped(field: Field) -> bool {
    has_word(field.attrs@, "json_mapped"@)
}

/// What a field gives among those that are fetched by their type.
pub open spec fn plain_item(field: Field) -> Item {
    if json_mapped(field) {
        Ok(None)
    } else {
        wanted(field_init_text(field))
    }
}

/// What a field gives among those that are mapped through JSON.
pub open spec fn mapped_item(field: Field) -> Item {
    if json_mapped(field) {
        wanted(json_init_text(field))
    } else {
        Ok(None)
    }
}

/// What each field gives among those that are fetched by their type.
pub open spec fn plain_items(fields: Seq<Field>) -> Seq<Item> {
    Seq::new(fields.len(), |i: int| plain_item(fields[i]))
}

/// What each field gives among those that are mapped through JSON.
pub open spec fn mapped_items(fields: Seq<Field>) -> Seq<Item> {
    Seq::new(fields.len(), |i: int| mapped_item(fields[i]))
}

/// The initializers of the fields of a row: first those of the fields that are
/// fetched by their type, then those of the fields that are mapped through
/// JSON, each group in source order.
pub open spec fn row_inits(fields: Seq<Field>) -> Result<Seq<Seq<char>>, GenErrorView> {
    match gather(plain_items(fields)) {
        Err(e) => Err(e),
        Ok(plain) => match gather(mapped_items(fields)) {
            Err(e) => Err(e),
            Ok(mapped) => Ok(plain + mapped),
        },
    }
}

/// The text of the reconstructor of the record `name` from a row, with the
/// initializers `inits` of its fields.
pub open spec fn from_row_text(name: Seq<char>, inits: Seq<Seq<char>>) -> Seq<char> {
    "impl TryFromRow for "@ + name
        + " { fn try_from_row(cdrs: cdrs::types::rows::Row) -> cdrs::Result<Self> { Ok("@ + name
        + " { "@ + join(inits, ", "@) + " }) } }"@
}

/// The text of the reconstructor of the record from a row.
pub open spec fn record_from_row_text(ast: DeriveInput) -> Result<Seq<char>, GenErrorView> {
    match fields_of(ast) {
        Err(e) => Err(e),
        Ok(fields) => match row_inits(fields) {
            Err(e) => Err(e),
            Ok(inits) => Ok(from_row_text(ast.ident@, inits)),
        },
    }
}

/// The initializer of `field`, which is mapped through JSON.
fn mapped_init(field: &Field) -> (text: Result<String, GenError>)
    ensures
        crate::error::text_result(text) == json_init_text(*field),
{
    let name = field.ident.as_str();
    let ty = get_ident(&field.ty)?;
    let string = String::from_str("let val = &String::from_cdrs_r(&cdrs, \"").concat(name).concat(
        "\")?;",
    );
    let serde = String::from_str(
        "serde_json::from_str(&val).map_err(|_| cdrs::Error::General(format!(\"Failed to transform type {}\", \"",
    ).concat(name).concat("\")))?");
    let ts = if text_eq(ty.as_str(), "Option") {
        String::from_str(name).concat(": { ").concat(string.as_str()).concat(
            " if val.is_empty() { None } else { ",
        ).concat(serde.as_str()).concat(" } }")
    } else {
        String::from_str(name).concat(": { ").concat(string.as_str()).concat(" ").concat(
            serde.as_str(),
        ).concat(" }")
    };
    Ok(ts)
}

/// The reconstructor of the record from a row: each field is fetched from the
/// row by its name and decoded by its type. A field marked `json_mapped` is
/// fetched as a string and decoded as JSON.
pub fn impl_try_from_row(ast: &DeriveInput) -> (tokens: Result<quote::Tokens, GenError>)
    ensures
        tokens_result(tokens) == record_from_row_text(*ast),
{
    let name = ast.ident.as_str();
    let all = struct_fields(ast)?;
    let ghost plain = plain_items(all@);
    let ghost mapped = mapped_items(all@);
    let mut fields: Vec<String> = Vec::new();
    assert(texts(fields@) =~= Seq::<Seq<char>>::empty());
    let mut i: usize = 0;
    while i < all.len()
        invariant
            i <= all.len(),
            fields_of(*ast) == Ok::<Seq<Field>, GenErrorView>(all@),
            plain == plain_items(all@),
            gather(plain.take(i as int)) == Ok::<Seq<Seq<char>>, GenErrorView>(texts(fields@)),
        decreases all.len() - i,
    {
        proof {
            lemma_gather_step(plain, i as int);
        }
        if !has_attr(&all[i], "json_mapped") {
            match field_init(&all[i]) {
                Ok(init) => {
                    let ghost before = texts(fields@);
                    fields.push(init);
                    assert(texts(fields@) =~= before.push(init@));
                },
                Err(e) => {
                    proof {
                        assert(plain[i as int] == plain_item(all@[i as int]));
                        assert(gather(plain.take(i + 1)) == Err::<Seq<Seq<char>>, GenErrorView>(
                            e@,
                        ));
                        lemma_gather_error(plain, i + 1);
                    }
                    return Err(e);
                },
            }
        }
        i = i + 1;
    }
    proof {
        assert(plain.take(all.len() as int) =~= plain);
    }
    let ghost fetched = texts(fields@);
    let mut k: usize = 0;
    assert(fetched + Seq::<Seq<char>>::empty() =~= fetched);
    while k < all.len()
        invariant
            k <= all.len(),
            fields_of(*ast) == Ok::<Seq<Field>, GenErrorView>(all@),
            plain == plain_items(all@),
            mapped == mapped_items(all@),
            gather(plain) == Ok::<Seq<Seq<char>>, GenErrorView>(fetched),
            gather(mapped.take(k as int)) is Ok,
            texts(fields@) == fetched + gather(mapped.take(k as int))->Ok_0,
        decreases all.len() - k,
    {
        proof {
            lemma_gather_step(mapped, k as int);
        }
        if has_attr(&all[k], "json_mapped") {
            match mapped_init(&all[k]) {
                Ok(init) => {
                    let ghost before = texts(fields@);
                    fields.push(init);
                    assert(texts(fields@) =~= before.push(init@));
                    assert(texts(fields@) =~= fetched + gather(mapped.take(k + 1))->Ok_0);
                },
                Err(e) => {
                    proof {
                        assert(mapped[k as int] == mapped_item(all@[k as int]));
                        assert(gather(mapped.take(k + 1)) == Err::<Seq<Seq<char>>, GenErrorView>(
                            e@,
                        ));
                        lemma_gather_error(mapped, k + 1);
                    }
                    return Err(e);
                },
            }
        }
        k = k + 1;
    }
    proof {
        assert(mapped.take(all.len() as int) =~= mapped);
    }
    let text = String::from_str("impl TryFromRow for ").concat(name).concat(
        " { fn try_from_row(cdrs: cdrs::types::rows::Row) -> cdrs::Result<Self> { Ok(",
    ).concat(name).concat(" { ").concat(join_texts(&fields, ", ").as_str()).concat(" }) } }");
    Ok(tokens_of(text.as_str()))
}

} // verus!
