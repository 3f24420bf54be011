use cdrs_helpers_derive::db_mirror::insert_queries::{
    generate_insert_queries, insert_columns, insert_query,
};
use cdrs_helpers_derive::db_mirror::pk_object::{generate_pk_object, parse_derives, primary_key};
use cdrs_helpers_derive::db_mirror::select_queries::{
    generate_select_queries, select_family, Method, Operator, QueryKind,
};
use cdrs_helpers_derive::db_mirror::{impl_db_mirror, key_partitioning, read_with_attributes};
use cdrs_helpers_derive::error::GenError;
use cdrs_helpers_derive::model::{Attribute, Body, DeriveInput, Field, Ty};
use cdrs_helpers_derive::text::split_text;

fn field(name: &str, ty: &str, attrs: &[&str]) -> Field {
    Field {
        ident: name.to_string(),
        ty: Ty::simple(ty),
        attrs: attrs.iter().map(|a| Attribute::Word { name: a.to_string() }).collect(),
    }
}

fn record(name: &str, fields: Vec<Field>) -> DeriveInput {
    DeriveInput { ident: name.to_string(), body: Body::Struct { fields } }
}

fn some_struct() -> DeriveInput {
    record("SomeStruct", vec![field("pk", "i32", &[]), field("name", "String", &[])])
}

fn composite() -> DeriveInput {
    record(
        "SomeStruct",
        vec![
            field("id", "i32", &["partition_key"]),
            field("another_id", "i32", &["partition_key"]),
            field("cluster_key", "i32", &["clustering_key"]),
            field("another_cluster_key", "i32", &["clustering_key"]),
            field("name", "String", &[]),
        ],
    )
}

fn single_key() -> DeriveInput {
    record("T", vec![field("id", "i64", &["partition_key"]), field("v", "String", &[])])
}

fn method<'a>(methods: &'a [Method], name: &str) -> &'a Method {
    let found: Vec<&Method> = methods.iter().filter(|m| m.fn_name == name).collect();
    assert_eq!(found.len(), 1, "{}", name);
    found[0]
}

fn names(methods: &[Method]) -> Vec<&str> {
    methods.iter().map(|m| m.fn_name.as_str()).collect()
}

const SELECT_ALL_T: &str = "impl T { pub fn select_all() -> &'static str { \"select * from T\" } pub fn select_all_count() -> &'static str { \"select count(*) from T\" } }";

const INSERT_T: &str = "impl T { pub fn insert_query() -> &'static str { \"insert into T(id, v) values (?, ?)\" } pub fn into_query_values(self) -> cdrs::query::QueryValues { use std::collections::HashMap; let mut values: HashMap<String, cdrs::types::value::Value> = HashMap::new(); values.insert(\"id\".to_string(), self.id.into()); values.insert(\"v\".to_string(), self.v.into()); cdrs::query::QueryValues::NamedValues(values) } }";

const UNIQUE_T: &str = "impl T { pub fn select_unique(id: i64) -> (&'static str, cdrs::query::QueryValues) { let mut values: Vec<cdrs::types::value::Value> = Vec::new(); values.push(id.into()); (\"select * from T where id = ?\", cdrs::query::QueryValues::SimpleValues(values)) } }";

const IN_T: &str = "impl T { pub fn select_by_in_id(in_id: std::vec::Vec<i64>) -> (&'static str, cdrs::query::QueryValues) { let mut values: Vec<cdrs::types::value::Value> = Vec::new(); values.push(in_id.into()); (\"select * from T where id in (?)\", cdrs::query::QueryValues::SimpleValues(values)) } }";

const IN_LIMITED_T: &str = "impl T { pub fn select_by_in_id_limited_by(in_id: std::vec::Vec<i64>, limited_by: i32) -> (&'static str, cdrs::query::QueryValues) { let mut values: Vec<cdrs::types::value::Value> = Vec::new(); values.push(in_id.into()); values.push(limited_by.into()); (\"select * from T where id in (?) limit ?\", cdrs::query::QueryValues::SimpleValues(values)) } }";

const IN_COUNT_T: &str = "impl T { pub fn select_count_in_id(in_id: std::vec::Vec<i64>) -> (&'static str, cdrs::query::QueryValues) { let mut values: Vec<cdrs::types::value::Value> = Vec::new(); values.push(in_id.into()); (\"select count(*) from T where id in (?)\", cdrs::query::QueryValues::SimpleValues(values)) } }";

const IN_COUNT_LIMITED_T: &str = "impl T { pub fn select_count_in_id_limited_by(in_id: std::vec::Vec<i64>, limited_by: i32) -> (&'static str, cdrs::query::QueryValues) { let mut values: Vec<cdrs::types::value::Value> = Vec::new(); values.push(in_id.into()); values.push(limited_by.into()); (\"select count(*) from T where id in (?) limit ?\", cdrs::query::QueryValues::SimpleValues(values)) } }";

const KEY_T: &str = "#[derive(Clone, Debug)] pub struct TPrimaryKey { pub id: i64, } impl T { pub fn primary_key(&self) -> TPrimaryKey { TPrimaryKey { id: self.id.clone(), } } }";

#[test]
fn test_insert_query() {
    assert_eq!(
        "insert into SomeStruct(pk, name) values (?, ?)",
        insert_query(&some_struct()).unwrap()
    )
}

#[test]
fn insert_bundle_is_keyed_by_the_field_names_in_order() {
    assert_eq!(insert_columns(&some_struct()).unwrap(), vec!["pk", "name"]);
    assert_eq!(
        insert_columns(&composite()).unwrap(),
        vec!["id", "another_id", "cluster_key", "another_cluster_key", "name"]
    );
}

#[test]
fn insert_methods_text() {
    assert_eq!(generate_insert_queries(&single_key()).unwrap().as_str(), INSERT_T);
}

#[test]
fn insert_of_a_record_without_fields() {
    let ast = record("E", vec![]);
    assert_eq!(insert_query(&ast).unwrap(), "insert into E() values ()");
    assert!(insert_columns(&ast).unwrap().is_empty());
}

#[test]
fn insert_has_one_placeholder_per_field() {
    for ast in [some_struct(), composite(), single_key()] {
        let statement = insert_query(&ast).unwrap();
        let fields = insert_columns(&ast).unwrap();
        assert_eq!(statement.matches('?').count(), fields.len());
        let listed = &statement[statement.find('(').unwrap() + 1..statement.find(')').unwrap()];
        assert_eq!(listed.split(", ").collect::<Vec<_>>(), fields);
    }
}

#[test]
fn composite_key_statements() {
    let ast = composite();
    assert_eq!(
        insert_query(&ast).unwrap(),
        "insert into SomeStruct(id, another_id, cluster_key, another_cluster_key, name) values (?, ?, ?, ?, ?)"
    );
    let methods = select_family(&ast).unwrap();
    assert_eq!(
        method(&methods, "select_by_id_another_id").statement(),
        "select * from SomeStruct where id = ? and another_id = ?"
    );
    assert_eq!(
        method(&methods, "select_by_id_another_id_cluster_key").statement(),
        "select * from SomeStruct where id = ? and another_id = ? and cluster_key = ?"
    );
    assert_eq!(
        method(&methods, "select_unique").statement(),
        "select * from SomeStruct where id = ? and another_id = ? and cluster_key = ? and another_cluster_key = ?"
    );
    assert_eq!(
        method(&methods, "select_by_id_another_id_in_cluster_key").statement(),
        "select * from SomeStruct where id = ? and another_id = ? and cluster_key in (?)"
    );
    assert_eq!(
        method(&methods, "select_by_id_another_id_cluster_key_larger_than_another_cluster_key")
            .statement(),
        "select * from SomeStruct where id = ? and another_id = ? and cluster_key = ? and another_cluster_key > ?"
    );
}

#[test]
fn composite_key_family_in_order() {
    let methods = select_family(&composite()).unwrap();
    let mut expected: Vec<String> = Vec::new();
    let four = |base: &str, expected: &mut Vec<String>| {
        let rest = base.strip_prefix("select_by_").unwrap();
        expected.push(base.to_string());
        expected.push(format!("{}_limited_by", base));
        expected.push(format!("select_count_{}", rest));
        expected.push(format!("select_count_{}_limited_by", rest));
    };
    four("select_by_id_another_id", &mut expected);
    four("select_by_id_in_another_id", &mut expected);
    four("select_by_id_another_id_cluster_key", &mut expected);
    four("select_by_id_another_id_in_cluster_key", &mut expected);
    for word in ["equal_or_smaller_than", "smaller_than", "equal_or_larger_than", "larger_than"] {
        four(&format!("select_by_id_another_id_{}_cluster_key", word), &mut expected);
    }
    expected.push("select_unique".to_string());
    four("select_by_id_another_id_cluster_key_in_another_cluster_key", &mut expected);
    for word in ["equal_or_smaller_than", "smaller_than", "equal_or_larger_than", "larger_than"] {
        four(
            &format!("select_by_id_another_id_cluster_key_{}_another_cluster_key", word),
            &mut expected,
        );
    }
    assert_eq!(names(&methods), expected);
    assert_eq!(methods.len(), 8 + 24 + 21);
}

#[test]
fn method_names_do_not_collide() {
    let methods = select_family(&composite()).unwrap();
    let mut all = names(&methods);
    all.sort();
    all.dedup();
    assert_eq!(all.len(), methods.len());
}

#[test]
fn in_method_takes_a_sequence_of_the_key_type() {
    let methods = select_family(&composite()).unwrap();
    let m = method(&methods, "select_by_id_another_id_in_cluster_key");
    assert_eq!(m.kind, QueryKind::In);
    assert_eq!(m.param_names, vec!["id", "another_id", "in_cluster_key"]);
    assert_eq!(m.types, vec!["i32", "i32", "std::vec::Vec<i32>"]);
    assert_eq!(m.select_clause, "*");
    assert_eq!(m.name, "SomeStruct");
    assert!(!m.counting && !m.limited);
}

#[test]
fn range_methods_keep_the_key_type() {
    let methods = select_family(&composite()).unwrap();
    let cases = [
        ("equal_or_smaller_than", "<=", Operator::EqualWithSmaller),
        ("smaller_than", "<", Operator::Smaller),
        ("equal_or_larger_than", ">=", Operator::EqualWithLarger),
        ("larger_than", ">", Operator::Larger),
    ];
    for (word, symbol, operator) in cases {
        let m = method(&methods, &format!("select_by_id_another_id_{}_cluster_key", word));
        assert_eq!(m.kind, QueryKind::Range { operator });
        assert_eq!(
            m.where_clause,
            format!("id = ? and another_id = ? and cluster_key {} ?", symbol)
        );
        assert_eq!(m.param_names, vec!["id", "another_id", "range_cluster_key"]);
        assert_eq!(m.types, vec!["i32", "i32", "i32"]);
    }
}

#[test]
fn limited_and_counting_siblings() {
    let methods = select_family(&composite()).unwrap();
    let limited = method(&methods, "select_by_id_another_id_limited_by");
    assert_eq!(
        limited.statement(),
        "select * from SomeStruct where id = ? and another_id = ? limit ?"
    );
    assert_eq!(limited.param_names, vec!["id", "another_id", "limited_by"]);
    assert_eq!(limited.types, vec!["i32", "i32", "i32"]);
    assert!(limited.limited && !limited.counting);
    let counting = method(&methods, "select_count_id_another_id");
    assert_eq!(
        counting.statement(),
        "select count(*) from SomeStruct where id = ? and another_id = ?"
    );
    assert!(counting.counting && !counting.limited);
    let both = method(&methods, "select_count_id_another_id_limited_by");
    assert_eq!(
        both.statement(),
        "select count(*) from SomeStruct where id = ? and another_id = ? limit ?"
    );
    assert!(both.counting && both.limited);
    assert!(methods.iter().all(|m| m.fn_name != "select_unique_limited_by"));
    assert!(methods.iter().all(|m| !m.fn_name.starts_with("select_count_unique")));
}

#[test]
fn placeholders_match_parameters() {
    for ast in [composite(), single_key()] {
        for m in select_family(&ast).unwrap() {
            assert_eq!(m.statement().matches('?').count(), m.param_names.len(), "{}", m.fn_name);
            assert_eq!(m.param_names.len(), m.types.len());
        }
    }
}

#[test]
fn every_prefix_has_its_methods() {
    let methods = select_family(&composite()).unwrap();
    let plain = |m: &&Method| !m.counting && !m.limited;
    for r in 2..=4 {
        let equal = methods
            .iter()
            .filter(plain)
            .filter(|m| m.kind == QueryKind::Equal && m.param_names.len() == r)
            .count();
        assert_eq!(equal, 1);
        let ranges = methods
            .iter()
            .filter(plain)
            .filter(|m| matches!(m.kind, QueryKind::Range { .. }) && m.param_names.len() == r)
            .count();
        assert_eq!(ranges, if r > 2 { 4 } else { 0 });
    }
}

#[test]
fn partition_key_without_clustering_key() {
    let methods = select_family(&single_key()).unwrap();
    assert_eq!(
        names(&methods),
        vec![
            "select_unique",
            "select_by_in_id",
            "select_by_in_id_limited_by",
            "select_count_in_id",
            "select_count_in_id_limited_by"
        ]
    );
    assert!(methods.iter().all(|m| !matches!(m.kind, QueryKind::Range { .. })));
    assert_eq!(methods[0].statement(), "select * from T where id = ?");
    assert_eq!(methods[1].statement(), "select * from T where id in (?)");
}

#[test]
fn select_methods_text() {
    let expected =
        [SELECT_ALL_T, UNIQUE_T, IN_T, IN_LIMITED_T, IN_COUNT_T, IN_COUNT_LIMITED_T].join(" ");
    assert_eq!(generate_select_queries(&single_key()).unwrap().as_str(), expected);
}

#[test]
fn no_keys_gives_select_all_only() {
    let ast = record("T", vec![field("id", "i64", &[]), field("v", "String", &[])]);
    assert!(select_family(&ast).unwrap().is_empty());
    assert_eq!(generate_select_queries(&ast).unwrap().as_str(), SELECT_ALL_T);
    assert_eq!(primary_key(&ast, Some("Clone")).unwrap(), None);
    assert_eq!(generate_pk_object(&ast, Some("Clone")).unwrap().as_str(), "");
    assert_eq!(
        impl_db_mirror(&ast, None).unwrap().as_str(),
        [SELECT_ALL_T, INSERT_T].join(" ")
    );
}

#[test]
fn mirror_is_selects_then_inserts_then_companion() {
    let expected = [
        SELECT_ALL_T,
        UNIQUE_T,
        IN_T,
        IN_LIMITED_T,
        IN_COUNT_T,
        IN_COUNT_LIMITED_T,
        INSERT_T,
        KEY_T,
    ]
    .join(" ");
    assert_eq!(impl_db_mirror(&single_key(), Some("Clone, Debug")).unwrap().as_str(), expected);
    assert_eq!(
        cdrs_helpers_derive::db_mirror(&single_key(), Some("Clone, Debug")).unwrap(),
        expected
    );
}

#[test]
fn generation_is_repeatable() {
    let first = impl_db_mirror(&composite(), Some("Clone")).unwrap();
    let second = impl_db_mirror(&composite(), Some("Clone")).unwrap();
    assert_eq!(first.as_str(), second.as_str());
    assert_eq!(select_family(&composite()).unwrap(), select_family(&composite()).unwrap());
}

#[test]
fn other_attributes_and_fields_do_not_change_the_methods() {
    let mut noisy = composite();
    if let Body::Struct { fields } = &mut noisy.body {
        fields[4].attrs.push(Attribute::Word { name: "json_mapped".to_string() });
        fields[0].attrs.push(Attribute::List { name: "partition_key".to_string() });
        fields[4].ty = Ty::simple("Blob");
    }
    assert_eq!(select_family(&noisy).unwrap(), select_family(&composite()).unwrap());
}

#[test]
fn key_split_follows_source_order() {
    let ast = record(
        "T",
        vec![
            field("c1", "i32", &["clustering_key"]),
            field("p1", "i32", &["partition_key"]),
            field("x", "i32", &[]),
            field("c2", "i32", &["clustering_key"]),
            field("p2", "i32", &["partition_key"]),
        ],
    );
    let (all, partition, clustering) = read_with_attributes(&ast).unwrap();
    assert_eq!(all.len(), 5);
    assert_eq!(partition.iter().map(|f| f.ident.as_str()).collect::<Vec<_>>(), vec!["p1", "p2"]);
    assert_eq!(clustering.iter().map(|f| f.ident.as_str()).collect::<Vec<_>>(), vec!["c1", "c2"]);
    let split = key_partitioning(&ast).unwrap();
    let idents = |fields: &[&Field]| fields.iter().map(|f| f.ident.clone()).collect::<Vec<_>>();
    assert_eq!(idents(&split.partition_key), vec!["p1", "p2"]);
    assert_eq!(idents(&split.clustering_key), vec!["c1", "c2"]);
    assert_eq!(idents(&split.other), vec!["x"]);
    let key = primary_key(&ast, None).unwrap().unwrap();
    assert_eq!(key.names, vec!["p1", "p2", "c1", "c2"]);
    assert_eq!(select_family(&ast).unwrap()[0].fn_name, "select_by_p1_p2");
}

#[test]
fn a_field_of_both_keys_is_in_both() {
    let ast = record(
        "T",
        vec![field("a", "i32", &["partition_key", "clustering_key"]), field("b", "i32", &[])],
    );
    let split = key_partitioning(&ast).unwrap();
    assert_eq!(split.partition_key.len(), 1);
    assert_eq!(split.clustering_key.len(), 1);
    assert_eq!(split.other.len(), 1);
    assert_eq!(split.other[0].ident, "b");
    assert_eq!(primary_key(&ast, None).unwrap().unwrap().names, vec!["a", "a"]);
}

#[test]
fn clustering_key_without_partition_key_is_rejected() {
    let ast = record(
        "T",
        vec![field("a", "i32", &[]), field("c", "i32", &["clustering_key"]), field("d", "i32", &["clustering_key"])],
    );
    let expected = GenError::AttributeMisuse { ident: "c".to_string() };
    assert_eq!(read_with_attributes(&ast).unwrap_err(), expected);
    assert_eq!(key_partitioning(&ast).unwrap_err(), expected);
    assert_eq!(select_family(&ast).unwrap_err(), expected);
    assert_eq!(generate_select_queries(&ast).unwrap_err(), expected);
    assert_eq!(primary_key(&ast, None).unwrap_err(), expected);
    assert_eq!(generate_pk_object(&ast, None).unwrap_err(), expected);
    assert_eq!(impl_db_mirror(&ast, None).unwrap_err(), expected);
    assert_eq!(expected.message(), "clustering key without partition key: c");
    assert_eq!(insert_query(&ast).unwrap(), "insert into T(a, c, d) values (?, ?, ?)");
}

#[test]
fn records_without_named_fields_are_rejected() {
    for body in [Body::Enum, Body::Tuple, Body::Unit] {
        let ast = DeriveInput { ident: "Shape".to_string(), body };
        let expected = GenError::UnsupportedShape { ident: "Shape".to_string() };
        assert_eq!(impl_db_mirror(&ast, None).unwrap_err(), expected);
        assert_eq!(insert_query(&ast).unwrap_err(), expected);
        assert_eq!(insert_columns(&ast).unwrap_err(), expected);
        assert_eq!(generate_insert_queries(&ast).unwrap_err(), expected);
        assert_eq!(select_family(&ast).unwrap_err(), expected);
        assert_eq!(primary_key(&ast, None).unwrap_err(), expected);
        assert_eq!(expected.message(), "unsupported shape: Shape");
    }
}

#[test]
fn primary_key_companion() {
    let key = primary_key(&composite(), Some("Clone, Debug, PartialEq")).unwrap().unwrap();
    assert_eq!(key.name, "SomeStructPrimaryKey");
    assert_eq!(key.names, vec!["id", "another_id", "cluster_key", "another_cluster_key"]);
    assert_eq!(key.types, vec!["i32", "i32", "i32", "i32"]);
    assert_eq!(key.derives, vec!["Clone", "Debug", "PartialEq"]);
    assert_eq!(generate_pk_object(&single_key(), Some("Clone, Debug")).unwrap().as_str(), KEY_T);
    assert_eq!(
        generate_pk_object(&single_key(), None).unwrap().as_str(),
        "#[derive()] pub struct TPrimaryKey { pub id: i64, } impl T { pub fn primary_key(&self) -> TPrimaryKey { TPrimaryKey { id: self.id.clone(), } } }"
    );
}

#[test]
fn derive_list() {
    assert!(parse_derives(None).is_empty());
    assert!(parse_derives(Some("")).is_empty());
    assert_eq!(parse_derives(Some("Clone")), vec!["Clone"]);
    assert_eq!(parse_derives(Some("Clone, Debug")), vec!["Clone", "Debug"]);
    assert_eq!(parse_derives(Some("Clone,Debug")), vec!["Clone,Debug"]);
    assert_eq!(parse_derives(Some("Clone, ")), vec!["Clone", ""]);
    assert_eq!(parse_derives(Some(", ")), vec!["", ""]);
}

#[test]
fn split_agrees_with_std() {
    let cases = [
        ("", ", "),
        ("a", ", "),
        ("a, b", ", "),
        ("a, b, c", ", "),
        (", a", ", "),
        ("a,, b", ", "),
        ("a,  b", ", "),
        (",", ", "),
        ("aaa", "aa"),
        ("aaaa", "aa"),
        ("é, ü", ", "),
        ("abc", "abcd"),
        ("abc", "abc"),
    ];
    for (s, separator) in cases {
        let expected: Vec<&str> = s.split(separator).collect();
        assert_eq!(split_text(s, separator), expected, "{:?} by {:?}", s, separator);
    }
    assert_eq!(split_text("abc", ""), vec!["abc"]);
}

#[test]
fn all_operators_in_order() {
    assert_eq!(
        Operator::all_operators(),
        vec![
            Operator::EqualWithSmaller,
            Operator::Smaller,
            Operator::EqualWithLarger,
            Operator::Larger
        ]
    );
}
