//! Which methods the family of a table holds, and how many of each.

use crate::common::{has_word, marked, with_attr};
use crate::db_mirror::pk_object::record_companion_text;
use crate::db_mirror::select_queries::{
    counting_of, equal_and_in, equal_method, family, family_upto, in_method, limited_of,
    method_texts, prefix_methods, range_method, ranges, ranges_upto,
    record_family, select_all_text, select_queries_text, variants, with_limited, MethodView,
    Operator, QueryKind,
};
use crate::db_mirror::{clustering_keys, keyed_fields, partition_keys};
use crate::error::GenErrorView;
use crate::model::{field_names, field_types, DeriveInput, Field};
use crate::tokens::appended;
use vstd::prelude::*;

verus! {

/// How many of `methods` are `wanted`.
pub open spec fn count_where(methods: Seq<MethodView>, wanted: spec_fn(MethodView) -> bool) -> nat
    decreases methods.len(),
{
    if methods.len() == 0 {
        0
    } else {
        count_where(methods.drop_last(), wanted) + if wanted(methods.last()) {
            1nat
        } else {
            0nat
        }
    }
}

/// Counting over a concatenation adds up.
pub proof fn lemma_count_where_add(
    a: Seq<MethodView>,
    b: Seq<MethodView>,
    wanted: spec_fn(MethodView) -> bool,
)
    ensures
        count_where(a + b, wanted) == count_where(a, wanted) + count_where(b, wanted),
    decreases b.len(),
{
    if b.len() == 0 {
        assert(a + b =~= a);
    } else {
        assert((a + b).drop_last() =~= a + b.drop_last());
        lemma_count_where_add(a, b.drop_last(), wanted);
    }
}

/// Where none is wanted, none is counted.
pub proof fn lemma_count_where_none(methods: Seq<MethodView>, wanted: spec_fn(MethodView) -> bool)
    requires
        forall|i: int| 0 <= i < methods.len() ==> !wanted(#[trigger] methods[i]),
    ensures
        count_where(methods, wanted) == 0,
    decreases methods.len(),
{
    if methods.len() > 0 {
        lemma_count_where_none(methods.drop_last(), wanted);
    }
}

/// Whether the method selects rows and takes no limit: whether it is the
/// method that its siblings follow from.
pub open spec fn plain(method: MethodView) -> bool {
    !method.counting && !method.limited
}

/// The plain methods with `=` on each of `r` keys.
pub open spec fn equal_over(r: int) -> spec_fn(MethodView) -> bool {
    |method: MethodView|
        method.kind is Equal && plain(method) && method.param_names.len() == r
}

/// The plain methods that compare the last of `r` keys with `operator`.
pub open spec fn range_over(r: int, operator: Operator) -> spec_fn(MethodView) -> bool {
    |method: MethodView|
        method.kind == (QueryKind::Range { operator }) && plain(method)
            && method.param_names.len() == r
}

/// The plain methods that compare the last of `r` keys with an operator.
pub open spec fn ranges_over(r: int) -> spec_fn(MethodView) -> bool {
    |method: MethodView|
        method.kind is Range && plain(method) && method.param_names.len() == r
}

/// One if `b` holds, else none.
pub open spec fn one_if(b: bool) -> nat {
    if b {
        1
    } else {
        0
    }
}

/// Of the methods that follow from a plain method, only the method itself is
/// plain.
pub proof fn lemma_variants_count(method: MethodView, wanted: spec_fn(MethodView) -> bool)
    requires
        plain(method),
        forall|other: MethodView| #[trigger] wanted(other) ==> plain(other),
    ensures
        count_where(variants(method), wanted) == one_if(wanted(method)),
{
    let counting = counting_of(method);
    assert(count_where(with_limited(method), wanted) == one_if(wanted(method))) by {
        reveal_with_fuel(count_where, 3);
        assert(seq![method, limited_of(method)].drop_last() =~= seq![method]);
        assert(seq![method].drop_last() =~= Seq::<MethodView>::empty());
    }
    assert(count_where(with_limited(counting), wanted) == 0) by {
        reveal_with_fuel(count_where, 3);
        assert(seq![counting, limited_of(counting)].drop_last() =~= seq![counting]);
        assert(seq![counting].drop_last() =~= Seq::<MethodView>::empty());
    }
    lemma_count_where_add(with_limited(method), with_limited(counting), wanted);
}

/// How many of the methods for a prefix of `r` keys are wanted, where only
/// plain methods are.
pub proof fn lemma_prefix_count(
    table: Seq<char>,
    keys: Seq<Seq<char>>,
    types: Seq<Seq<char>>,
    m: int,
    r: int,
    wanted: spec_fn(MethodView) -> bool,
)
    requires
        forall|other: MethodView| #[trigger] wanted(other) ==> plain(other),
    ensures
        count_where(prefix_methods(table, keys, types, m, r), wanted) == one_if(
            wanted(equal_method(table, keys.take(r), types.take(r), r == keys.len())),
        ) + one_if(wanted(in_method(table, keys.take(r), types.take(r)))) + if r > m {
            one_if(
                wanted(
                    range_method(table, keys.take(r), types.take(r), Operator::EqualWithSmaller),
                ),
            ) + one_if(
                wanted(range_method(table, keys.take(r), types.take(r), Operator::Smaller)),
            ) + one_if(
                wanted(
                    range_method(table, keys.take(r), types.take(r), Operator::EqualWithLarger),
                ),
            ) + one_if(wanted(range_method(table, keys.take(r), types.take(r), Operator::Larger)))
        } else {
            0
        },
{
    let names = keys.take(r);
    let kinds = types.take(r);
    let equal = variants(equal_method(table, names, kinds, r == keys.len()));
    let contained = variants(in_method(table, names, kinds));
    lemma_variants_count(equal_method(table, names, kinds, r == keys.len()), wanted);
    lemma_variants_count(in_method(table, names, kinds), wanted);
    lemma_count_where_add(equal, contained, wanted);
    if r > m {
        let first = variants(range_method(table, names, kinds, Operator::EqualWithSmaller));
        let second = variants(range_method(table, names, kinds, Operator::Smaller));
        let third = variants(range_method(table, names, kinds, Operator::EqualWithLarger));
        let fourth = variants(range_method(table, names, kinds, Operator::Larger));
        reveal_with_fuel(ranges_upto, 5);
        assert(ranges(table, names, kinds) =~= first + second + third + fourth);
        lemma_variants_count(
            range_method(table, names, kinds, Operator::EqualWithSmaller),
            wanted,
        );
        lemma_variants_count(range_method(table, names, kinds, Operator::Smaller), wanted);
        lemma_variants_count(range_method(table, names, kinds, Operator::EqualWithLarger), wanted);
        lemma_variants_count(range_method(table, names, kinds, Operator::Larger), wanted);
        lemma_count_where_add(first, second, wanted);
        lemma_count_where_add(first + second, third, wanted);
        lemma_count_where_add(first + second + third, fourth, wanted);
        lemma_count_where_add(equal + contained, ranges(table, names, kinds), wanted);
    } else {
        assert(prefix_methods(table, keys, types, m, r) =~= equal + contained);
    }
}

/// Among the methods for the prefixes up to `last` keys, one is the plain
/// method with `=` on each of `r` keys, where there is a prefix of `r` keys.
pub proof fn lemma_family_upto_equal(
    table: Seq<char>,
    keys: Seq<Seq<char>>,
    types: Seq<Seq<char>>,
    m: int,
    last: int,
    r: int,
)
    requires
        0 < m <= last <= keys.len(),
    ensures
        count_where(family_upto(table, keys, types, m, last), equal_over(r)) == one_if(
            m <= r <= last,
        ),
    decreases last - m,
{
    lemma_prefix_count(table, keys, types, m, last, equal_over(r));
    if last > m {
        lemma_family_upto_equal(table, keys, types, m, last - 1, r);
        lemma_count_where_add(
            family_upto(table, keys, types, m, last - 1),
            prefix_methods(table, keys, types, m, last),
            equal_over(r),
        );
    }
}

/// Among the methods for the prefixes up to `last` keys, one is the plain
/// method that compares the last of `r` keys with `operator`, where there is a
/// prefix of `r` keys that reaches into the clustering key.
pub proof fn lemma_family_upto_range(
    table: Seq<char>,
    keys: Seq<Seq<char>>,
    types: Seq<Seq<char>>,
    m: int,
    last: int,
    r: int,
    operator: Operator,
)
    requires
        0 < m <= last <= keys.len(),
    ensures
        count_where(family_upto(table, keys, types, m, last), range_over(r, operator)) == one_if(
            m < r <= last,
        ),
    decreases last - m,
{
    lemma_prefix_count(table, keys, types, m, last, range_over(r, operator));
    if last > m {
        lemma_family_upto_range(table, keys, types, m, last - 1, r, operator);
        lemma_count_where_add(
            family_upto(table, keys, types, m, last - 1),
            prefix_methods(table, keys, types, m, last),
            range_over(r, operator),
        );
    }
}

/// Among the methods for the prefixes up to `last` keys, four are plain range
/// methods over `r` keys, where there is a prefix of `r` keys that reaches
/// into the clustering key, and none where there is not.
pub proof fn lemma_family_upto_ranges(
    table: Seq<char>,
    keys: Seq<Seq<char>>,
    types: Seq<Seq<char>>,
    m: int,
    last: int,
    r: int,
)
    requires
        0 < m <= last <= keys.len(),
    ensures
        count_where(family_upto(table, keys, types, m, last), ranges_over(r)) == if m < r
            <= last {
            4nat
        } else {
            0nat
        },
    decreases last - m,
{
    lemma_prefix_count(table, keys, types, m, last, ranges_over(r));
    if last > m {
        lemma_family_upto_ranges(table, keys, types, m, last - 1, r);
        lemma_count_where_add(
            family_upto(table, keys, types, m, last - 1),
            prefix_methods(table, keys, types, m, last),
            ranges_over(r),
        );
    }
}

/// For every prefix of the primary key that holds the partition key, the
/// family holds exactly one plain method with `=` on each key of the prefix.
pub proof fn lemma_equal_method_for_each_prefix(
    table: Seq<char>,
    partition: Seq<Seq<char>>,
    partition_types: Seq<Seq<char>>,
    clustering: Seq<Seq<char>>,
    clustering_types: Seq<Seq<char>>,
    r: int,
)
    requires
        0 < partition.len() <= r <= partition.len() + clustering.len(),
    ensures
        count_where(
            family(table, partition, partition_types, clustering, clustering_types),
            equal_over(r),
        ) == 1,
{
    let keys = partition + clustering;
    lemma_family_upto_equal(
        table,
        keys,
        partition_types + clustering_types,
        partition.len() as int,
        keys.len() as int,
        r,
    );
}

/// For every prefix of the primary key that reaches into the clustering key,
/// the family holds exactly four plain range methods, one for each operator.
/// It holds none for any other number of keys.
pub proof fn lemma_range_methods_for_each_prefix(
    table: Seq<char>,
    partition: Seq<Seq<char>>,
    partition_types: Seq<Seq<char>>,
    clustering: Seq<Seq<char>>,
    clustering_types: Seq<Seq<char>>,
    r: int,
)
    requires
        0 < partition.len(),
    ensures
        ({
            let methods = family(table, partition, partition_types, clustering, clustering_types);
            let reached = partition.len() < r <= partition.len() + clustering.len();
            &&& count_where(methods, ranges_over(r)) == if reached {
                4nat
            } else {
                0nat
            }
            &&& forall|operator: Operator|
                count_where(methods, #[trigger] range_over(r, operator)) == one_if(reached)
        }),
{
    let keys = partition + clustering;
    let types = partition_types + clustering_types;
    let m = partition.len() as int;
    lemma_family_upto_ranges(table, keys, types, m, keys.len() as int, r);
    assert forall|operator: Operator|
        count_where(
            family(table, partition, partition_types, clustering, clustering_types),
            #[trigger] range_over(r, operator),
        ) == one_if(m < r <= keys.len()) by {
        lemma_family_upto_range(table, keys, types, m, keys.len() as int, r, operator);
    }
}

/// A table with a partition key and no clustering key has `select_unique` for
/// the whole partition key, the methods that look the last partition key up in
/// a sequence, and no range method.
pub proof fn lemma_partition_key_only(
    table: Seq<char>,
    partition: Seq<Seq<char>>,
    partition_types: Seq<Seq<char>>,
)
    requires
        partition.len() > 0,
        partition.len() == partition_types.len(),
    ensures
        ({
            let methods = family(
                table,
                partition,
                partition_types,
                Seq::empty(),
                Seq::empty(),
            );
            let unique = equal_method(table, partition, partition_types, true);
            &&& unique.fn_name == "select_unique"@
            &&& methods == seq![unique] + variants(in_method(table, partition, partition_types))
            &&& forall|i: int| 0 <= i < methods.len() ==> !((#[trigger] methods[i]).kind is Range)
        }),
{
    let none = Seq::<Seq<char>>::empty();
    assert(partition + none =~= partition);
    assert(partition_types + none =~= partition_types);
    assert(partition.take(partition.len() as int) =~= partition);
    assert(partition_types.take(partition.len() as int) =~= partition_types);
    let unique = equal_method(table, partition, partition_types, true);
    assert(variants(unique) =~= seq![unique]);
    let methods = family(table, partition, partition_types, none, none);
    assert(methods =~= seq![unique] + variants(in_method(table, partition, partition_types)));
}

/// A record without a partition key has no method but `select_all` and
/// `select_all_count`, and no companion.
pub proof fn lemma_no_partition_key(ast: DeriveInput, list: Option<Seq<char>>)
    requires
        keyed_fields(ast) matches Ok(fields) && partition_keys(fields).len() == 0,
    ensures
        record_family(ast) == Ok::<Seq<MethodView>, GenErrorView>(Seq::empty()),
        select_queries_text(ast) == Ok::<Seq<char>, GenErrorView>(select_all_text(ast.ident@)),
        record_companion_text(ast, list) == Ok::<Seq<char>, GenErrorView>(Seq::empty()),
{
    let fields = keyed_fields(ast)->Ok_0;
    assert(field_names(partition_keys(fields)).len() == 0);
    assert(method_texts(Seq::<MethodView>::empty()) =~= Seq::<Seq<char>>::empty());
}

/// Whether two lists of fields have the same names and types and carry `attr`
/// on the same fields.
pub open spec fn alike(first: Seq<Field>, second: Seq<Field>, attr: Seq<char>) -> bool {
    &&& first.len() == second.len()
    &&& forall|i: int|
        0 <= i < first.len() ==> {
            &&& (#[trigger] first[i]).ident@ == second[i].ident@
            &&& first[i].ty.text@ == second[i].ty.text@
            &&& has_word(first[i].attrs@, attr) == has_word(second[i].attrs@, attr)
        }
}

/// Fields that are alike give the same keys.
pub proof fn lemma_alike_keys(first: Seq<Field>, second: Seq<Field>, attr: Seq<char>)
    requires
        alike(first, second, attr),
    ensures
        marked(first, attr) == marked(second, attr),
        field_names(with_attr(first, attr)) == field_names(with_attr(second, attr)),
        field_types(with_attr(first, attr)) == field_types(with_attr(second, attr)),
    decreases first.len(),
{
    if first.len() > 0 {
        assert(alike(first.drop_last(), second.drop_last(), attr)) by {
            assert forall|i: int| 0 <= i < first.len() - 1 implies {
                &&& (#[trigger] first.drop_last()[i]).ident@ == second.drop_last()[i].ident@
                &&& first.drop_last()[i].ty.text@ == second.drop_last()[i].ty.text@
                &&& has_word(first.drop_last()[i].attrs@, attr) == has_word(
                    second.drop_last()[i].attrs@,
                    attr,
                )
            } by {
                assert(first.drop_last()[i] == first[i]);
            }
        }
        lemma_alike_keys(first.drop_last(), second.drop_last(), attr);
        assert(first.last() == first[first.len() - 1]);
    }
    crate::common::lemma_marked_in_range(first, attr);
    assert(field_names(with_attr(first, attr)) =~= field_names(with_attr(second, attr))) by {
        assert forall|i: int| 0 <= i < marked(first, attr).len() implies with_attr(
            first,
            attr,
        )[i].ident@ == with_attr(second, attr)[i].ident@ by {
            let k = marked(first, attr)[i];
            assert(first[k].ident@ == second[k].ident@);
        }
    }
    assert(field_types(with_attr(first, attr)) =~= field_types(with_attr(second, attr))) by {
        assert forall|i: int| 0 <= i < marked(first, attr).len() implies with_attr(
            first,
            attr,
        )[i].ty.text@ == with_attr(second, attr)[i].ty.text@ by {
            let k = marked(first, attr)[i];
            assert(first[k].ty.text@ == second[k].ty.text@);
        }
    }
}

/// The name of a method is determined by the names of its keys, by the form
/// of its last predicate and, for a range method, by its operator: neither the
/// table nor the types of the keys change it.
pub proof fn lemma_method_name_determined(
    table: Seq<char>,
    other_table: Seq<char>,
    names: Seq<Seq<char>>,
    types: Seq<Seq<char>>,
    other_types: Seq<Seq<char>>,
    full: bool,
    operator: Operator,
)
    ensures
        equal_method(table, names, types, full).fn_name == equal_method(
            other_table,
            names,
            other_types,
            full,
        ).fn_name,
        in_method(table, names, types).fn_name == in_method(
            other_table,
            names,
            other_types,
        ).fn_name,
        range_method(table, names, types, operator).fn_name == range_method(
            other_table,
            names,
            other_types,
            operator,
        ).fn_name,
{
}

/// The `select` methods are determined by the name of the record and by the
/// names, types and key attributes of its fields, in source order: two records
/// that agree in these have the same methods and the same text.
pub proof fn lemma_select_methods_determined(first: DeriveInput, second: DeriveInput)
    requires
        first.ident@ == second.ident@,
        first.named_fields() matches Some(fields) && second.named_fields() matches Some(others)
            && alike(fields, others, "partition_key"@) && alike(fields, others, "clustering_key"@),
    ensures
        record_family(first) == record_family(second),
        select_queries_text(first) == select_queries_text(second),
{
    let fields = first.named_fields()->Some_0;
    let others = second.named_fields()->Some_0;
    lemma_alike_keys(fields, others, "partition_key"@);
    lemma_alike_keys(fields, others, "clustering_key"@);
    assert(partition_keys(fields).len() == field_names(partition_keys(fields)).len());
    assert(partition_keys(others).len() == field_names(partition_keys(others)).len());
    assert(clustering_keys(fields).len() == field_names(clustering_keys(fields)).len());
    assert(clustering_keys(others).len() == field_names(clustering_keys(others)).len());
    if partition_keys(fields).len() == 0 && clustering_keys(fields).len() > 0 {
        crate::common::lemma_marked_in_range(fields, "clustering_key"@);
        assert(field_names(clustering_keys(fields))[0] == clustering_keys(fields)[0].ident@);
        assert(field_names(clustering_keys(others))[0] == clustering_keys(others)[0].ident@);
    }
}

} // verus!
