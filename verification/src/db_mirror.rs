//! The table mirror: statements, parameter bundles and the primary-key
//! companion of a record that mirrors a table.

use crate::common::{fields_of, filter_attributes, has_attr, has_word, struct_fields, with_attr};
use crate::error::{GenError, GenErrorView};
use crate::model::{DeriveInput, Field};
use crate::tokens::{spaced, tokens_append, tokens_as_str, tokens_result};
use vstd::prelude::*;

pub mod coverage;
pub mod insert_queries;
pub mod pk_object;
pub mod placeholders;
pub mod select_queries;

verus! {

/// The fields of the partition key, in source order.
pub open spec fn partition_keys(fields: Seq<Field>) -> Seq<Field> {
    with_attr(fields, "partition_key"@)
}

/// The fields of the clustering key, in source order.
pub open spec fn clustering_keys(fields: Seq<Field>) -> Seq<Field> {
    with_attr(fields, "clustering_key"@)
}

/// The fields of the record, or why its keys are rejected: a clustering key
/// needs a partition key.
pub open spec fn keyed_fields(ast: DeriveInput) -> Result<Seq<Field>, GenErrorView> {
    match fields_of(ast) {
        Err(e) => Err(e),
        Ok(fields) => if partition_keys(fields).len() == 0 && clustering_keys(fields).len() > 0 {
            Err(GenErrorView::AttributeMisuse { ident: clustering_keys(fields)[0].ident@ })
        } else {
            Ok(fields)
        },
    }
}

/// The fields of the record, those of its partition key and those of its
/// clustering key, each in source order.
pub fn read_with_attributes(ast: &DeriveInput) -> (split: Result<
    (&Vec<Field>, Vec<&Field>, Vec<&Field>),
    GenError,
>)
    ensures
        match split {
            Ok((fields, partition, clustering)) => {
                &&& keyed_fields(*ast) == Ok::<Seq<Field>, GenErrorView>(fields@)
                &&& partition@.len() == partition_keys(fields@).len()
                &&& clustering@.len() == clustering_keys(fields@).len()
                &&& forall|i: int|
                    0 <= i < partition@.len() ==> *partition@[i] == partition_keys(fields@)[i]
                &&& forall|i: int|
                    0 <= i < clustering@.len() ==> *clustering@[i] == clustering_keys(fields@)[i]
            },
            Err(e) => keyed_fields(*ast) == Err::<Seq<Field>, GenErrorView>(e@),
        },
{
    let fields = struct_fields(ast)?;
    let partition_key_fields = filter_attributes(fields, "partition_key");
    let cluster_key_fields = filter_attributes(fields, "clustering_key");
    if partition_key_fields.len() == 0 && cluster_key_fields.len() > 0 {
        return Err(GenError::AttributeMisuse { ident: cluster_key_fields[0].ident.clone() });
    }
    Ok((fields, partition_key_fields, cluster_key_fields))
}

/// Whether the field belongs to neither key.
pub open spec fn keyless(field: Field) -> bool {
    !has_word(field.attrs@, "partition_key"@) && !has_word(field.attrs@, "clustering_key"@)
}

/// The fields that belong to neither key, in source order.
pub open spec fn other_fields(fields: Seq<Field>) -> Seq<Field>
    decreases fields.len(),
{
    if fields.len() == 0 {
        Seq::empty()
    } else if keyless(fields.last()) {
        other_fields(fields.drop_last()).push(fields.last())
    } else {
        other_fields(fields.drop_last())
    }
}

/// The fields of a record by their part in the primary key, each list in
/// source order.
#[derive(Debug)]
pub struct KeyPartitioning<'a> {
    pub partition_key: Vec<&'a Field>,
    pub clustering_key: Vec<&'a Field>,
    pub other: Vec<&'a Field>,
}

/// Whether `refs` refer to the fields `fields`, in order.
pub open spec fn refer_to(refs: Seq<&Field>, fields: Seq<Field>) -> bool {
    &&& refs.len() == fields.len()
    &&& forall|i: int| 0 <= i < refs.len() ==> *refs[i] == fields[i]
}

/// The fields of the record split into the partition key, the clustering key
/// and the other fields. A record with a clustering key and no partition key
/// is rejected.
pub fn key_partitioning(ast: &DeriveInput) -> (split: Result<KeyPartitioning<'_>, GenError>)
    ensures
        match split {
            Ok(split) => {
                &&& keyed_fields(*ast) is Ok
                &&& refer_to(split.partition_key@, partition_keys(keyed_fields(*ast)->Ok_0))
                &&& refer_to(split.clustering_key@, clustering_keys(keyed_fields(*ast)->Ok_0))
                &&& refer_to(split.other@, other_fields(keyed_fields(*ast)->Ok_0))
            },
            Err(e) => keyed_fields(*ast) == Err::<Seq<Field>, GenErrorView>(e@),
        },
{
    let (fields, partition_key, clustering_key) = read_with_attributes(ast)?;
    let mut other: Vec<&Field> = Vec::new();
    let mut i: usize = 0;
    while i < fields.len()
        invariant
            i <= fields.len(),
            refer_to(other@, other_fields(fields@.take(i as int))),
        decreases fields.len() - i,
    {
        proof {
            assert(fields@.take(i + 1).drop_last() =~= fields@.take(i as int));
            assert(fields@.take(i + 1).last() == fields@[i as int]);
        }
        if !has_attr(&fields[i], "partition_key") && !has_attr(&fields[i], "clustering_key") {
            other.push(&fields[i]);
        }
        i = i + 1;
    }
    proof {
        assert(fields@.take(fields.len() as int) =~= fields@);
    }
    Ok(KeyPartitioning { partition_key, clustering_key, other })
}

/// The text of the table mirror: the `select` methods, the `insert` methods
/// and the primary-key companion.
pub open spec fn mirror_text(ast: DeriveInput, list: Option<Seq<char>>) -> Result<
    Seq<char>,
    GenErrorView,
> {
    match select_queries::select_queries_text(ast) {
        Err(e) => Err(e),
        Ok(selects) => match insert_queries::record_insert_text(ast) {
            Err(e) => Err(e),
            Ok(inserts) => match pk_object::record_companion_text(ast, list) {
                Err(e) => Err(e),
                Ok(companion) => Ok(spaced(spaced(selects, inserts), companion)),
            },
        },
    }
}

/// The table mirror of the record: its `select` methods, its `insert` methods
/// and its primary-key companion, whose derives `derive_list` names.
pub fn impl_db_mirror(ast: &DeriveInput, derive_list: Option<&str>) -> (tokens: Result<
    quote::Tokens,
    GenError,
>)
    ensures
        tokens_result(tokens) == mirror_text(*ast, pk_object::list_view(derive_list)),
{
    let mut queries = select_queries::generate_select_queries(ast)?;
    let inserts = insert_queries::generate_insert_queries(ast)?;
    tokens_append(&mut queries, tokens_as_str(&inserts));
    let companion = pk_object::generate_pk_object(ast, derive_list)?;
    tokens_append(&mut queries, tokens_as_str(&companion));
    Ok(queries)
}

/// Generating twice from the same record and the same list of derives gives
/// the same text.
pub proof fn lemma_generation_repeatable(
    ast: DeriveInput,
    list: Option<Seq<char>>,
    first: Result<quote::Tokens, GenError>,
    second: Result<quote::Tokens, GenError>,
)
    requires
        tokens_result(first) == mirror_text(ast, list),
        tokens_result(second) == mirror_text(ast, list),
    ensures
        tokens_result(first) == tokens_result(second),
{
}

} // verus!
