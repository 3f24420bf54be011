//! The `insert` statement of a table mirror and its named parameter bundle.

use crate::common::{fields_of, struct_fields};
use crate::error::{GenError, GenErrorView};
use crate::model::{field_names, DeriveInput, Field};
use crate::text::{all_free_of, join, join_texts, lemma_split_join, split, texts};
use crate::tokens::{tokens_of, tokens_result, tokens_text};
use vstd::prelude::*;
use vstd::string::StringExecFns;

verus! {

/// One placeholder per column.
pub open spec fn placeholders(count: nat) -> Seq<Seq<char>> {
    Seq::new(count, |i: int| "?"@)
}

/// The statement that inserts a row into `table`: every column in order, then
/// one placeholder for each.
pub open spec fn insert_statement(table: Seq<char>, columns: Seq<Seq<char>>) -> Seq<char> {
    "insert into "@ + table + "("@ + join(columns, ", "@) + ") values ("@ + join(
        placeholders(columns.len()),
        ", "@,
    ) + ")"@
}

/// The statements that put each field into the named bundle under its name.
pub open spec fn insertions(columns: Seq<Seq<char>>) -> Seq<Seq<char>> {
    Seq::new(
        columns.len(),
        |i: int|
            "values.insert(\""@ + columns[i] + "\".to_string(), self."@ + columns[i]
                + ".into());"@,
    )
}

/// The text of the two generated methods: `insert_query`, which returns the
/// statement, and `into_query_values`, which consumes the record and returns
/// the bundle of its fields by name.
pub open spec fn insert_text(table: Seq<char>, columns: Seq<Seq<char>>) -> Seq<char> {
    "impl "@ + table + " { pub fn insert_query() -> &'static str { \""@ + insert_statement(
        table,
        columns,
    )
        + "\" } pub fn into_query_values(self) -> cdrs::query::QueryValues { use std::collections::HashMap; let mut values: HashMap<String, cdrs::types::value::Value> = HashMap::new(); "@
        + join(insertions(columns), " "@) + " cdrs::query::QueryValues::NamedValues(values) } }"@
}

/// The columns of the record's table: the names of its fields, in source
/// order.
pub open spec fn record_columns(ast: DeriveInput) -> Result<Seq<Seq<char>>, GenErrorView> {
    match fields_of(ast) {
        Err(e) => Err(e),
        Ok(fields) => Ok(field_names(fields)),
    }
}

/// The `insert` statement of the record.
pub open spec fn record_insert_statement(ast: DeriveInput) -> Result<Seq<char>, GenErrorView> {
    match record_columns(ast) {
        Err(e) => Err(e),
        Ok(columns) => Ok(insert_statement(ast.ident@, columns)),
    }
}

/// The text of the record's `insert` methods.
pub open spec fn record_insert_text(ast: DeriveInput) -> Result<Seq<char>, GenErrorView> {
    match record_columns(ast) {
        Err(e) => Err(e),
        Ok(columns) => Ok(insert_text(ast.ident@, columns)),
    }
}

/// The columns of the record's table, which are also the keys of its named
/// bundle: the names of its fields, in source order.
pub fn insert_columns(ast: &DeriveInput) -> (columns: Result<Vec<String>, GenError>)
    ensures
        match columns {
            Ok(columns) => record_columns(*ast) == Ok::<Seq<Seq<char>>, GenErrorView>(
                texts(columns@),
            ),
            Err(e) => record_columns(*ast) == Err::<Seq<Seq<char>>, GenErrorView>(e@),
        },
{
    let fields = struct_fields(ast)?;
    let mut columns: Vec<String> = Vec::new();
    let mut i: usize = 0;
    while i < fields.len()
        invariant
            i <= fields.len(),
            columns@.len() == i,
            forall|j: int| 0 <= j < i ==> columns@[j]@ == fields@[j].ident@,
        decreases fields.len() - i,
    {
        columns.push(fields[i].ident.clone());
        i = i + 1;
    }
    assert(texts(columns@) =~= field_names(fields@));
    Ok(columns)
}

/// The statement for the table `table` with the columns `columns`.
fn statement_of(table: &str, columns: &Vec<String>) -> (statement: String)
    ensures
        statement@ == insert_statement(table@, texts(columns@)),
{
    let mut question_marks: Vec<String> = Vec::new();
    let mut i: usize = 0;
    while i < columns.len()
        invariant
            i <= columns.len(),
            question_marks@.len() == i,
            forall|j: int| 0 <= j < i ==> question_marks@[j]@ == "?"@,
        decreases columns.len() - i,
    {
        question_marks.push(String::from_str("?"));
        i = i + 1;
    }
    assert(texts(question_marks@) =~= placeholders(texts(columns@).len()));
    String::from_str("insert into ").concat(table).concat("(").concat(
        join_texts(columns, ", ").as_str(),
    ).concat(") values (").concat(join_texts(&question_marks, ", ").as_str()).concat(")")
}

/// The `insert` statement of the record: its name as the table, its fields as
/// the columns in source order, one placeholder for each.
pub fn insert_query(ast: &DeriveInput) -> (statement: Result<String, GenError>)
    ensures
        crate::error::text_result(statement) == record_insert_statement(*ast),
{
    let columns = insert_columns(ast)?;
    Ok(statement_of(ast.ident.as_str(), &columns))
}

/// The `insert` methods of the record: `insert_query` and `into_query_values`.
pub fn generate_insert_queries(ast: &DeriveInput) -> (tokens: Result<quote::Tokens, GenError>)
    ensures
        tokens_result(tokens) == record_insert_text(*ast),
{
    let idents = insert_columns(ast)?;
    let name = ast.ident.as_str();
    let mut inserted: Vec<String> = Vec::new();
    let mut i: usize = 0;
    while i < idents.len()
        invariant
            i <= idents.len(),
            inserted@.len() == i,
            forall|j: int|
                0 <= j < i ==> inserted@[j]@ == "values.insert(\""@ + idents@[j]@
                    + "\".to_string(), self."@ + idents@[j]@ + ".into());"@,
        decreases idents.len() - i,
    {
        let ident = idents[i].as_str();
        inserted.push(
            String::from_str("values.insert(\"").concat(ident).concat(
                "\".to_string(), self.",
            ).concat(ident).concat(".into());"),
        );
        i = i + 1;
    }
    assert(texts(inserted@) =~= insertions(texts(idents@)));
    let text = String::from_str("impl ").concat(name).concat(
        " { pub fn insert_query() -> &'static str { \"",
    ).concat(statement_of(name, &idents).as_str()).concat(
        "\" } pub fn into_query_values(self) -> cdrs::query::QueryValues { use std::collections::HashMap; let mut values: HashMap<String, cdrs::types::value::Value> = HashMap::new(); ",
    ).concat(join_texts(&inserted, " ").as_str()).concat(
        " cdrs::query::QueryValues::NamedValues(values) } }",
    );
    Ok(tokens_of(text.as_str()))
}

/// The column list of the `insert` statement reads back as the columns, in
/// order: the text between the brackets after the table's name is the columns
/// joined by a comma and a space, and splitting it there gives the columns
/// back, where no column holds a comma.
pub proof fn lemma_insert_columns_listed(table: Seq<char>, columns: Seq<Seq<char>>)
    requires
        columns.len() > 0,
        all_free_of(columns, ','),
    ensures
        insert_statement(table, columns) == "insert into "@ + table + "("@ + join(columns, ", "@)
            + ") values ("@ + join(placeholders(columns.len()), ", "@) + ")"@,
        split(join(columns, ", "@), ", "@) == columns,
{
    reveal_strlit(", ");
    lemma_split_join(columns, ", "@);
}

} // verus!
