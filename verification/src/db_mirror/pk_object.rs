//! The primary-key companion of a table mirror.

use crate::db_mirror::{clustering_keys, keyed_fields, partition_keys, read_with_attributes};
use crate::error::{GenError, GenErrorView};
use crate::model::{field_names, field_types, DeriveInput, Field};
use crate::text::{
    all_free_of, join, join_texts, lemma_split_join, split, split_text, texts,
};
use crate::tokens::{tokens_new, tokens_of, tokens_result, tokens_text};
use vstd::prelude::*;
use vstd::string::StringExecFns;

verus! {

/// The record that holds the primary key of a table mirror.
#[derive(Debug, PartialEq, Eq)]
pub struct PrimaryKey {
    /// The name of the companion record.
    pub name: String,
    /// The names of its fields: the partition key, then the clustering key.
    pub names: Vec<String>,
    /// The types of its fields, as they are declared in the mirror.
    pub types: Vec<String>,
    /// The derives that the companion carries.
    pub derives: Vec<String>,
}

/// A [`PrimaryKey`] with its texts as sequences of characters.
pub struct PrimaryKeyView {
    pub name: Seq<char>,
    pub names: Seq<Seq<char>>,
    pub types: Seq<Seq<char>>,
    pub derives: Seq<Seq<char>>,
}

impl View for PrimaryKey {
    type V = PrimaryKeyView;

    open spec fn view(&self) -> PrimaryKeyView {
        PrimaryKeyView {
            name: self.name@,
            names: texts(self.names@),
            types: texts(self.types@),
            derives: texts(self.derives@),
        }
    }
}

/// The derives that a list names: none where there is no list or the list is
/// empty, else the pieces between each comma followed by a space.
pub open spec fn derive_names(list: Option<Seq<char>>) -> Seq<Seq<char>> {
    match list {
        Some(value) => if value.len() == 0 {
            Seq::empty()
        } else {
            split(value, ", "@)
        },
        None => Seq::empty(),
    }
}

/// The companion of a table with the given keys: none without a partition key.
pub open spec fn companion(
    table: Seq<char>,
    partition: Seq<Field>,
    clustering: Seq<Field>,
    list: Option<Seq<char>>,
) -> Option<PrimaryKeyView> {
    if partition.len() == 0 {
        None
    } else {
        Some(
            PrimaryKeyView {
                name: table + "PrimaryKey"@,
                names: field_names(partition) + field_names(clustering),
                types: field_types(partition) + field_types(clustering),
                derives: derive_names(list),
            },
        )
    }
}

/// The companion of the record.
pub open spec fn record_companion(ast: DeriveInput, list: Option<Seq<char>>) -> Result<
    Option<PrimaryKeyView>,
    GenErrorView,
> {
    match keyed_fields(ast) {
        Err(e) => Err(e),
        Ok(fields) => Ok(
            companion(ast.ident@, partition_keys(fields), clustering_keys(fields), list),
        ),
    }
}

/// The view of a list that may be absent.
pub open spec fn list_view(list: Option<&str>) -> Option<Seq<char>> {
    match list {
        Some(value) => Some(value@),
        None => None,
    }
}

/// The view of a companion that may be absent, or of the error in its place.
pub open spec fn companion_result(r: Result<Option<PrimaryKey>, GenError>) -> Result<
    Option<PrimaryKeyView>,
    GenErrorView,
> {
    match r {
        Ok(Some(key)) => Ok(Some(key@)),
        Ok(None) => Ok(None),
        Err(e) => Err(e@),
    }
}

/// The derives that `list` names.
pub fn parse_derives(list: Option<&str>) -> (derives: Vec<String>)
    ensures
        texts(derives@) == derive_names(list_view(list)),
{
    match list {
        Some(value) => {
            if value.unicode_len() == 0 {
                let derives: Vec<String> = Vec::new();
                assert(texts(derives@) =~= Seq::<Seq<char>>::empty());
                derives
            } else {
                split_text(value, ", ")
            }
        },
        None => {
            let derives: Vec<String> = Vec::new();
            assert(texts(derives@) =~= Seq::<Seq<char>>::empty());
            derives
        },
    }
}

/// The primary-key companion of the record, if it has a partition key: a
/// record named after the mirror whose fields are the partition key, then the
/// clustering key, each with its declared type, and which carries the derives
/// that `derive_list` names.
pub fn primary_key(ast: &DeriveInput, derive_list: Option<&str>) -> (key: Result<
    Option<PrimaryKey>,
    GenError,
>)
    ensures
        companion_result(key) == record_companion(*ast, list_view(derive_list)),
{
    let (fields, partition_key_fields, cluster_key_fields) = read_with_attributes(ast)?;
    if partition_key_fields.len() == 0 {
        return Ok(None);
    }
    let ghost partition = partition_keys(fields@);
    let ghost clustering = clustering_keys(fields@);
    let mut names: Vec<String> = Vec::new();
    let mut types: Vec<String> = Vec::new();
    let mut i: usize = 0;
    while i < partition_key_fields.len()
        invariant
            i <= partition_key_fields.len(),
            partition_key_fields@.len() == partition.len(),
            forall|j: int| 0 <= j < partition.len() ==> *partition_key_fields@[j] == partition[j],
            names@.len() == i,
            types@.len() == i,
            forall|j: int| 0 <= j < i ==> names@[j]@ == partition[j].ident@,
            forall|j: int| 0 <= j < i ==> types@[j]@ == partition[j].ty.text@,
        decreases partition_key_fields.len() - i,
    {
        names.push(partition_key_fields[i].ident.clone());
        types.push(partition_key_fields[i].ty.text.clone());
        i = i + 1;
    }
    let mut k: usize = 0;
    while k < cluster_key_fields.len()
        invariant
            k <= cluster_key_fields.len(),
            cluster_key_fields@.len() == clustering.len(),
            forall|j: int| 0 <= j < clustering.len() ==> *cluster_key_fields@[j] == clustering[j],
            names@.len() == partition.len() + k,
            types@.len() == partition.len() + k,
            forall|j: int| 0 <= j < partition.len() ==> names@[j]@ == partition[j].ident@,
            forall|j: int| 0 <= j < partition.len() ==> types@[j]@ == partition[j].ty.text@,
            forall|j: int|
                0 <= j < k ==> names@[partition.len() + j]@ == clustering[j].ident@,
            forall|j: int|
                0 <= j < k ==> types@[partition.len() + j]@ == clustering[j].ty.text@,
        decreases cluster_key_fields.len() - k,
    {
        names.push(cluster_key_fields[k].ident.clone());
        types.push(cluster_key_fields[k].ty.text.clone());
        k = k + 1;
    }
    assert(texts(names@) =~= field_names(partition) + field_names(clustering));
    assert(texts(types@) =~= field_types(partition) + field_types(clustering));
    let derives = parse_derives(derive_list);
    Ok(
        Some(
            PrimaryKey {
                name: String::from_str(ast.ident.as_str()).concat("PrimaryKey"),
                names,
                types,
                derives,
            },
        ),
    )
}

/// The fields of the companion, each public and with its type.
pub open spec fn key_fields(names: Seq<Seq<char>>, types: Seq<Seq<char>>) -> Seq<Seq<char>> {
    Seq::new(names.len(), |i: int| "pub "@ + names[i] + ": "@ + types[i] + ","@)
}

/// The initializers of the companion: each key field is cloned from the
/// mirror.
pub open spec fn mapping(names: Seq<Seq<char>>) -> Seq<Seq<char>> {
    Seq::new(names.len(), |i: int| names[i] + ": self."@ + names[i] + ".clone(),"@)
}

/// The text of the companion record and of the method `primary_key` of
/// `table`, which projects the mirror onto it.
pub open spec fn companion_text(table: Seq<char>, key: PrimaryKeyView) -> Seq<char> {
    "#[derive("@ + join(key.derives, ", "@) + ")] pub struct "@ + key.name + " { "@ + join(
        key_fields(key.names, key.types),
        " "@,
    ) + " } impl "@ + table + " { pub fn primary_key(&self) -> "@ + key.name + " { "@ + key.name
        + " { "@ + join(mapping(key.names), " "@) + " } } }"@
}

/// The text of the record's companion: nothing without a partition key.
pub open spec fn record_companion_text(ast: DeriveInput, list: Option<Seq<char>>) -> Result<
    Seq<char>,
    GenErrorView,
> {
    match record_companion(ast, list) {
        Err(e) => Err(e),
        Ok(None) => Ok(Seq::empty()),
        Ok(Some(key)) => Ok(companion_text(ast.ident@, key)),
    }
}

/// The primary-key companion of the record and the method `primary_key` that
/// projects the record onto it; nothing for a record without a partition key.
/// `derive_list` names the derives of the companion.
pub fn generate_pk_object(ast: &DeriveInput, derive_list: Option<&str>) -> (tokens: Result<
    quote::Tokens,
    GenError,
>)
    ensures
        tokens_result(tokens) == record_companion_text(
            *ast,
            list_view(derive_list),
        ),
{
    let key = match primary_key(ast, derive_list)? {
        Some(key) => key,
        None => {
            return Ok(tokens_new());
        },
    };
    assert(key.names@.len() == key@.names.len());
    assert(key.types@.len() == key@.types.len());
    let mut declared: Vec<String> = Vec::new();
    let mut mapped: Vec<String> = Vec::new();
    let mut i: usize = 0;
    while i < key.names.len()
        invariant
            i <= key.names.len(),
            key.names@.len() == key.types@.len(),
            declared@.len() == i,
            mapped@.len() == i,
            forall|j: int|
                0 <= j < i ==> declared@[j]@ == "pub "@ + key.names@[j]@ + ": "@ + key.types@[j]@
                    + ","@,
            forall|j: int|
                0 <= j < i ==> mapped@[j]@ == key.names@[j]@ + ": self."@ + key.names@[j]@
                    + ".clone(),"@,
        decreases key.names.len() - i,
    {
        let ident = key.names[i].as_str();
        declared.push(
            String::from_str("pub ").concat(ident).concat(": ").concat(
                key.types[i].as_str(),
            ).concat(","),
        );
        mapped.push(String::from_str(ident).concat(": self.").concat(ident).concat(".clone(),"));
        i = i + 1;
    }
    assert(texts(declared@) =~= key_fields(key@.names, key@.types));
    assert(texts(mapped@) =~= mapping(key@.names));
    let struct_name = key.name.as_str();
    let text = String::from_str("#[derive(").concat(
        join_texts(&key.derives, ", ").as_str(),
    ).concat(")] pub struct ").concat(struct_name).concat(" { ").concat(
        join_texts(&declared, " ").as_str(),
    ).concat(" } impl ").concat(ast.ident.as_str()).concat(
        " { pub fn primary_key(&self) -> ",
    ).concat(struct_name).concat(" { ").concat(struct_name).concat(" { ").concat(
        join_texts(&mapped, " ").as_str(),
    ).concat(" } } }");
    Ok(tokens_of(text.as_str()))
}

/// A list that was written by joining derives with a comma and a space names
/// those derives, in order, where none of them holds a comma and the list is
/// not empty.
pub proof fn lemma_derive_list_read_back(derives: Seq<Seq<char>>)
    requires
        derives.len() > 0,
        all_free_of(derives, ','),
        join(derives, ", "@).len() > 0,
    ensures
        derive_names(Some(join(derives, ", "@))) == derives,
{
    reveal_strlit(", ");
    lemma_split_join(derives, ", "@);
}

} // verus!
