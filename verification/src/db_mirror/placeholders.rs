//! Placeholders: each generated statement has one `?` for each value that is
//! bound to it.

use crate::db_mirror::insert_queries::{insert_statement, placeholders};
use crate::db_mirror::select_queries::{
    counting_of, equal_and_in, equal_method, family, family_upto, in_method, limited_of,
    parameterized_text, predicates, prefix_methods, range_method, ranges, ranges_upto, variants,
    MethodView, Operator,
};
use crate::text::{all_free_of, count_char, free_of, join, lemma_count_add, lemma_count_free};
use vstd::prelude::*;

verus! {

/// Joined parts hold what the parts hold, where the separator holds none.
pub proof fn lemma_count_join(parts: Seq<Seq<char>>, separator: Seq<char>, c: char, each: nat)
    requires
        count_char(separator, c) == 0,
        forall|i: int| 0 <= i < parts.len() ==> count_char(#[trigger] parts[i], c) == each,
    ensures
        count_char(join(parts, separator), c) == each * parts.len(),
    decreases parts.len(),
{
    if parts.len() == 0 {
        assert(each * parts.len() == 0) by (nonlinear_arith)
            requires
                parts.len() == 0,
        ;
    } else if parts.len() == 1 {
        assert(each * parts.len() == each) by (nonlinear_arith)
            requires
                parts.len() == 1,
        ;
    } else {
        let head = parts.drop_last();
        assert forall|i: int| 0 <= i < head.len() implies count_char(#[trigger] head[i], c)
            == each by {
            assert(head[i] == parts[i]);
        }
        lemma_count_join(head, separator, c, each);
        lemma_count_add(join(head, separator), separator, c);
        lemma_count_add(join(head, separator) + separator, parts.last(), c);
        assert(each * head.len() + each == each * parts.len()) by (nonlinear_arith)
            requires
                head.len() + 1 == parts.len(),
        ;
    }
}

/// A text that ends in `c` and holds no other holds one.
pub proof fn lemma_count_ends(s: Seq<char>, c: char)
    requires
        s.len() > 0,
        s.last() == c,
        free_of(s.drop_last(), c),
    ensures
        count_char(s, c) == 1,
{
    lemma_count_free(s.drop_last(), c);
}

/// What the fixed parts of the statements hold.
pub proof fn lemma_count_fixed()
    ensures
        count_char("select "@, '?') == 0,
        count_char(" from "@, '?') == 0,
        count_char(" where "@, '?') == 0,
        count_char("*"@, '?') == 0,
        count_char("count(*)"@, '?') == 0,
        count_char(" and "@, '?') == 0,
        count_char(" "@, '?') == 0,
        count_char(", "@, '?') == 0,
        count_char("insert into "@, '?') == 0,
        count_char("("@, '?') == 0,
        count_char(") values ("@, '?') == 0,
        count_char(")"@, '?') == 0,
        count_char(" = ?"@, '?') == 1,
        count_char(" ?"@, '?') == 1,
        count_char("?"@, '?') == 1,
        count_char(" limit ?"@, '?') == 1,
        count_char(" in (?)"@, '?') == 1,
        forall|operator: Operator| count_char(#[trigger] operator.symbol(), '?') == 0,
{
    reveal_strlit("select ");
    reveal_strlit(" from ");
    reveal_strlit(" where ");
    reveal_strlit("*");
    reveal_strlit("count(*)");
    reveal_strlit(" and ");
    reveal_strlit(" ");
    reveal_strlit(", ");
    reveal_strlit("insert into ");
    reveal_strlit("(");
    reveal_strlit(") values (");
    reveal_strlit(")");
    reveal_strlit(" = ?");
    reveal_strlit(" ?");
    reveal_strlit("?");
    reveal_strlit(" limit ?");
    reveal_strlit(" in (?)");
    reveal_strlit("<=");
    reveal_strlit("<");
    reveal_strlit(">=");
    reveal_strlit(">");
    lemma_count_free("select "@, '?');
    lemma_count_free(" from "@, '?');
    lemma_count_free(" where "@, '?');
    lemma_count_free("*"@, '?');
    lemma_count_free("count(*)"@, '?');
    lemma_count_free(" and "@, '?');
    lemma_count_free(" "@, '?');
    lemma_count_free(", "@, '?');
    lemma_count_free("insert into "@, '?');
    lemma_count_free("("@, '?');
    lemma_count_free(") values ("@, '?');
    lemma_count_free(")"@, '?');
    lemma_count_free("<="@, '?');
    lemma_count_free("<"@, '?');
    lemma_count_free(">="@, '?');
    lemma_count_free(">"@, '?');
    lemma_count_ends(" = ?"@, '?');
    lemma_count_ends(" ?"@, '?');
    lemma_count_ends("?"@, '?');
    lemma_count_ends(" limit ?"@, '?');
    let inner = " in (?)"@.drop_last();
    lemma_count_ends(inner, '?');
    assert forall|operator: Operator| count_char(#[trigger] operator.symbol(), '?') == 0 by {
        match operator {
            Operator::EqualWithSmaller => {},
            Operator::Smaller => {},
            Operator::EqualWithLarger => {},
            Operator::Larger => {},
        }
    }
}

/// The `insert` statement has one placeholder for each column, where neither
/// the table's name nor a column's holds a `?`.
pub proof fn lemma_insert_placeholders(table: Seq<char>, columns: Seq<Seq<char>>)
    requires
        free_of(table, '?'),
        all_free_of(columns, '?'),
    ensures
        count_char(insert_statement(table, columns), '?') == columns.len(),
{
    lemma_count_fixed();
    lemma_count_free(table, '?');
    assert forall|i: int| 0 <= i < columns.len() implies count_char(#[trigger] columns[i], '?')
        == 0 by {
        lemma_count_free(columns[i], '?');
    }
    lemma_count_join(columns, ", "@, '?', 0);
    lemma_count_join(placeholders(columns.len()), ", "@, '?', 1);
    let a = "insert into "@ + table;
    let b = a + "("@;
    let c = b + join(columns, ", "@);
    let d = c + ") values ("@;
    let e = d + join(placeholders(columns.len()), ", "@);
    lemma_count_add("insert into "@, table, '?');
    lemma_count_add(a, "("@, '?');
    lemma_count_add(b, join(columns, ", "@), '?');
    lemma_count_add(c, ") values ("@, '?');
    lemma_count_add(d, join(placeholders(columns.len()), ", "@), '?');
    lemma_count_add(e, ")"@, '?');
    assert(0 * columns.len() == 0) by (nonlinear_arith);
    assert(1 * columns.len() == columns.len()) by (nonlinear_arith);
}

/// The predicates of `names` hold one placeholder for each name.
pub proof fn lemma_parameterized_placeholders(names: Seq<Seq<char>>)
    requires
        all_free_of(names, '?'),
    ensures
        count_char(parameterized_text(names), '?') == names.len(),
{
    lemma_count_fixed();
    assert forall|i: int| 0 <= i < names.len() implies count_char(
        #[trigger] predicates(names)[i],
        '?',
    ) == 1 by {
        lemma_count_free(names[i], '?');
        lemma_count_add(names[i], " = ?"@, '?');
    }
    lemma_count_join(predicates(names), " and "@, '?', 1);
    assert(1 * names.len() == names.len()) by (nonlinear_arith);
}

/// Whether the statement of the method has one placeholder for each of its
/// parameters.
pub open spec fn balanced(method: MethodView) -> bool {
    count_char(method.statement(), '?') == method.param_names.len()
}

/// Whether each of the methods is balanced.
pub open spec fn all_balanced(methods: Seq<MethodView>) -> bool {
    forall|i: int| 0 <= i < methods.len() ==> balanced(#[trigger] methods[i])
}

/// How many placeholders the statement of a method holds: those of its `where`
/// clause, where neither the table's name nor the `select` clause holds one.
pub proof fn lemma_statement_placeholders(method: MethodView)
    requires
        free_of(method.name, '?'),
        count_char(method.select_clause, '?') == 0,
    ensures
        count_char(method.statement(), '?') == count_char(method.where_clause, '?'),
{
    lemma_count_fixed();
    lemma_count_free(method.name, '?');
    let a = "select "@ + method.select_clause;
    let b = a + " from "@;
    let c = b + method.name;
    let d = c + " where "@;
    lemma_count_add("select "@, method.select_clause, '?');
    lemma_count_add(a, " from "@, '?');
    lemma_count_add(b, method.name, '?');
    lemma_count_add(c, " where "@, '?');
    lemma_count_add(d, method.where_clause, '?');
}

/// The methods that follow from a balanced method that selects rows are
/// balanced.
pub proof fn lemma_variants_balanced(method: MethodView)
    requires
        free_of(method.name, '?'),
        method.select_clause == "*"@,
        balanced(method),
    ensures
        all_balanced(variants(method)),
{
    lemma_count_fixed();
    let counting = counting_of(method);
    lemma_statement_placeholders(method);
    lemma_statement_placeholders(counting);
    lemma_statement_placeholders(limited_of(method));
    lemma_statement_placeholders(limited_of(counting));
    lemma_count_add(method.where_clause, " limit ?"@, '?');
}

/// The method with `=` on every key is balanced.
pub proof fn lemma_equal_balanced(
    table: Seq<char>,
    names: Seq<Seq<char>>,
    types: Seq<Seq<char>>,
    full: bool,
)
    requires
        free_of(table, '?'),
        all_free_of(names, '?'),
    ensures
        balanced(equal_method(table, names, types, full)),
{
    lemma_count_fixed();
    lemma_parameterized_placeholders(names);
    lemma_statement_placeholders(equal_method(table, names, types, full));
}

/// The method that looks its last key up in a sequence is balanced.
pub proof fn lemma_in_balanced(table: Seq<char>, names: Seq<Seq<char>>, types: Seq<Seq<char>>)
    requires
        free_of(table, '?'),
        all_free_of(names, '?'),
        names.len() > 0,
    ensures
        balanced(in_method(table, names, types)),
{
    lemma_count_fixed();
    let head = names.drop_last();
    assert(all_free_of(head, '?')) by {
        assert forall|i: int| 0 <= i < head.len() implies free_of(#[trigger] head[i], '?') by {
            assert(head[i] == names[i]);
        }
    }
    lemma_parameterized_placeholders(head);
    lemma_count_free(names.last(), '?');
    let clause = parameterized_text(head);
    if head.len() == 0 {
        lemma_count_add(clause, names.last(), '?');
        lemma_count_add(clause + names.last(), " in (?)"@, '?');
    } else {
        lemma_count_add(clause, " and "@, '?');
        lemma_count_add(clause + " and "@, names.last(), '?');
        lemma_count_add(clause + " and "@ + names.last(), " in (?)"@, '?');
    }
    lemma_statement_placeholders(in_method(table, names, types));
}

/// The method that compares its last key with an operator is balanced.
pub proof fn lemma_range_balanced(
    table: Seq<char>,
    names: Seq<Seq<char>>,
    types: Seq<Seq<char>>,
    operator: Operator,
)
    requires
        free_of(table, '?'),
        all_free_of(names, '?'),
        names.len() > 0,
    ensures
        balanced(range_method(table, names, types, operator)),
{
    lemma_count_fixed();
    let head = names.drop_last();
    assert(all_free_of(head, '?')) by {
        assert forall|i: int| 0 <= i < head.len() implies free_of(#[trigger] head[i], '?') by {
            assert(head[i] == names[i]);
        }
    }
    lemma_parameterized_placeholders(head);
    lemma_count_free(names.last(), '?');
    let clause = parameterized_text(head);
    let a = clause + " and "@;
    let b = a + names.last();
    let c = b + " "@;
    let d = c + operator.symbol();
    lemma_count_add(clause, " and "@, '?');
    lemma_count_add(a, names.last(), '?');
    lemma_count_add(b, " "@, '?');
    lemma_count_add(c, operator.symbol(), '?');
    lemma_count_add(d, " ?"@, '?');
    lemma_statement_placeholders(range_method(table, names, types, operator));
}

/// The methods for a prefix of the keys are balanced.
pub proof fn lemma_prefix_balanced(
    table: Seq<char>,
    keys: Seq<Seq<char>>,
    types: Seq<Seq<char>>,
    m: int,
    r: int,
)
    requires
        free_of(table, '?'),
        all_free_of(keys, '?'),
        0 < r <= keys.len(),
    ensures
        all_balanced(prefix_methods(table, keys, types, m, r)),
{
    let names = keys.take(r);
    let kinds = types.take(r);
    assert(all_free_of(names, '?')) by {
        assert forall|i: int| 0 <= i < names.len() implies free_of(#[trigger] names[i], '?') by {
            assert(names[i] == keys[i]);
        }
    }
    lemma_equal_balanced(table, names, kinds, r == keys.len());
    lemma_variants_balanced(equal_method(table, names, kinds, r == keys.len()));
    lemma_in_balanced(table, names, kinds);
    lemma_variants_balanced(in_method(table, names, kinds));
    reveal_with_fuel(ranges_upto, 5);
    lemma_range_balanced(table, names, kinds, Operator::EqualWithSmaller);
    lemma_range_balanced(table, names, kinds, Operator::Smaller);
    lemma_range_balanced(table, names, kinds, Operator::EqualWithLarger);
    lemma_range_balanced(table, names, kinds, Operator::Larger);
    lemma_variants_balanced(range_method(table, names, kinds, Operator::EqualWithSmaller));
    lemma_variants_balanced(range_method(table, names, kinds, Operator::Smaller));
    lemma_variants_balanced(range_method(table, names, kinds, Operator::EqualWithLarger));
    lemma_variants_balanced(range_method(table, names, kinds, Operator::Larger));
}

/// The methods for the prefixes up to `r` keys are balanced.
pub proof fn lemma_family_upto_balanced(
    table: Seq<char>,
    keys: Seq<Seq<char>>,
    types: Seq<Seq<char>>,
    m: int,
    r: int,
)
    requires
        free_of(table, '?'),
        all_free_of(keys, '?'),
        0 < m <= keys.len(),
        r <= keys.len(),
    ensures
        all_balanced(family_upto(table, keys, types, m, r)),
    decreases r - m,
{
    if r <= m {
        lemma_prefix_balanced(table, keys, types, m, m);
    } else {
        lemma_family_upto_balanced(table, keys, types, m, r - 1);
        lemma_prefix_balanced(table, keys, types, m, r);
    }
}

/// The statement of every method of the family has one placeholder for each
/// parameter of the method, where neither the table's name nor a key's holds a
/// `?`.
pub proof fn lemma_family_placeholders(
    table: Seq<char>,
    partition: Seq<Seq<char>>,
    partition_types: Seq<Seq<char>>,
    clustering: Seq<Seq<char>>,
    clustering_types: Seq<Seq<char>>,
)
    requires
        free_of(table, '?'),
        all_free_of(partition, '?'),
        all_free_of(clustering, '?'),
    ensures
        all_balanced(family(table, partition, partition_types, clustering, clustering_types)),
{
    if partition.len() > 0 {
        let keys = partition + clustering;
        assert(all_free_of(keys, '?')) by {
            assert forall|i: int| 0 <= i < keys.len() implies free_of(#[trigger] keys[i], '?') by {
                if i < partition.len() {
                    assert(keys[i] == partition[i]);
                } else {
                    assert(keys[i] == clustering[i - partition.len()]);
                }
            }
        }
        lemma_family_upto_balanced(
            table,
            keys,
            partition_types + clustering_types,
            partition.len() as int,
            keys.len() as int,
        );
    }
}

} // verus!
