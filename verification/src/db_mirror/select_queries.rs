//! The family of `select` methods of a table mirror.

use crate::db_mirror::{clustering_keys, keyed_fields, partition_keys, read_with_attributes};
use crate::error::{GenError, GenErrorView};
use crate::model::{field_names, field_types, ref_names, ref_types, DeriveInput, Field};
use crate::text::{join, join_texts, text_eq, texts};
use crate::tokens::{
    appended, tokens_append, tokens_as_str, tokens_of, tokens_result, tokens_text,
};
use vstd::prelude::*;
use vstd::string::{StrSliceExecFns, StringExecFns};

verus! {

/// A comparison of the last key of a range query.
#[derive(Clone, Copy, Debug, PartialEq, Eq)]
pub enum Operator {
    /// `<=`
    EqualWithSmaller,
    /// `<`
    Smaller,
    /// `>=`
    EqualWithLarger,
    /// `>`
    Larger,
}

impl Operator {
    /// The four operators, in the order in which their methods are emitted.
    pub fn all_operators() -> (operators: Vec<Operator>)
        ensures
            operators@ == seq![
                Operator::EqualWithSmaller,
                Operator::Smaller,
                Operator::EqualWithLarger,
                Operator::Larger,
            ],
    {
        let mut operators: Vec<Operator> = Vec::new();
        operators.push(Operator::EqualWithSmaller);
        operators.push(Operator::Smaller);
        operators.push(Operator::EqualWithLarger);
        operators.push(Operator::Larger);
        assert(operators@ =~= seq![
            Operator::EqualWithSmaller,
            Operator::Smaller,
            Operator::EqualWithLarger,
            Operator::Larger,
        ]);
        operators
    }

    /// The operator as it stands in a statement.
    pub open spec fn symbol(self) -> Seq<char> {
        match self {
            Operator::EqualWithSmaller => "<="@,
            Operator::Smaller => "<"@,
            Operator::EqualWithLarger => ">="@,
            Operator::Larger => ">"@,
        }
    }

    /// The operator as it stands in a method's name.
    pub open spec fn word(self) -> Seq<char> {
        match self {
            Operator::EqualWithSmaller => "equal_or_smaller_than"@,
            Operator::Smaller => "smaller_than"@,
            Operator::EqualWithLarger => "equal_or_larger_than"@,
            Operator::Larger => "larger_than"@,
        }
    }
}

/// The form of the last predicate of a query.
#[derive(Clone, Copy, Debug, PartialEq, Eq)]
pub enum QueryKind {
    /// Every key is compared with `=`.
    Equal,
    /// The last key is looked up in a sequence.
    In,
    /// The last key is compared with an operator.
    Range { operator: Operator },
}

/// A generated `select` method.
#[derive(Debug, PartialEq, Eq)]
pub struct Method {
    /// The record, which names the table.
    pub name: String,
    pub kind: QueryKind,
    /// Whether the method counts the rows rather than selecting them.
    pub counting: bool,
    /// Whether the method takes a limit as its last parameter.
    pub limited: bool,
    pub select_clause: String,
    pub fn_name: String,
    pub param_names: Vec<String>,
    pub types: Vec<String>,
    pub where_clause: String,
}

/// A [`Method`] with its texts as sequences of characters.
pub struct MethodView {
    pub name: Seq<char>,
    pub kind: QueryKind,
    pub counting: bool,
    pub limited: bool,
    pub select_clause: Seq<char>,
    pub fn_name: Seq<char>,
    pub param_names: Seq<Seq<char>>,
    pub types: Seq<Seq<char>>,
    pub where_clause: Seq<char>,
}

impl View for Method {
    type V = MethodView;

    open spec fn view(&self) -> MethodView {
        MethodView {
            name: self.name@,
            kind: self.kind,
            counting: self.counting,
            limited: self.limited,
            select_clause: self.select_clause@,
            fn_name: self.fn_name@,
            param_names: texts(self.param_names@),
            types: texts(self.types@),
            where_clause: self.where_clause@,
        }
    }
}

impl MethodView {
    /// The statement that the method returns.
    pub open spec fn statement(self) -> Seq<char> {
        "select "@ + self.select_clause + " from "@ + self.name + " where "@ + self.where_clause
    }

    /// Each parameter has a type.
    pub open spec fn wf(self) -> bool {
        self.param_names.len() == self.types.len()
    }
}

impl Method {
    /// The statement that the method returns.
    pub fn statement(&self) -> (statement: String)
        ensures
            statement@ == self@.statement(),
    {
        String::from_str("select ").concat(self.select_clause.as_str()).concat(" from ").concat(
            self.name.as_str(),
        ).concat(" where ").concat(self.where_clause.as_str())
    }
}

/// The views of `methods`, in order.
pub open spec fn method_views(methods: Seq<Method>) -> Seq<MethodView> {
    Seq::new(methods.len(), |i: int| methods[i]@)
}

/// One equality predicate with a placeholder per name.
pub open spec fn predicates(names: Seq<Seq<char>>) -> Seq<Seq<char>> {
    Seq::new(names.len(), |i: int| names[i] + " = ?"@)
}

/// The predicates `<name> = ?` of `names`, joined by `and`.
pub open spec fn parameterized_text(names: Seq<Seq<char>>) -> Seq<char> {
    join(predicates(names), " and "@)
}

/// The name of the method that selects by `names`.
pub open spec fn fn_name_text(names: Seq<Seq<char>>) -> Seq<char> {
    "select_by_"@ + join(names, "_"@)
}

/// The name of the method that selects by `names` with `=`: `select_unique`
/// where `names` is the whole primary key.
pub open spec fn equal_fn_name(names: Seq<Seq<char>>, full: bool) -> Seq<char> {
    if full {
        "select_unique"@
    } else {
        fn_name_text(names)
    }
}

/// The name of the method that selects by `names` with `=` and looks `last` up
/// in a sequence.
pub open spec fn in_fn_name(names: Seq<Seq<char>>, last: Seq<char>) -> Seq<char> {
    if names.len() == 0 {
        fn_name_text(names) + "in_"@ + last
    } else {
        fn_name_text(names) + "_"@ + "in_"@ + last
    }
}

/// The `where` clause that compares `names` with `=` and looks `last` up in a
/// sequence.
pub open spec fn in_where_clause(names: Seq<Seq<char>>, last: Seq<char>) -> Seq<char> {
    if names.len() == 0 {
        parameterized_text(names) + last + " in (?)"@
    } else {
        parameterized_text(names) + " and "@ + last + " in (?)"@
    }
}

/// The name of the method that selects by `names` with `=` and compares `last`
/// with `operator`.
pub open spec fn range_fn_name(names: Seq<Seq<char>>, operator: Operator, last: Seq<char>) -> Seq<
    char,
> {
    fn_name_text(names) + "_"@ + operator.word() + "_"@ + last
}

/// The `where` clause that compares `names` with `=` and `last` with
/// `operator`.
pub open spec fn range_where_clause(
    names: Seq<Seq<char>>,
    operator: Operator,
    last: Seq<char>,
) -> Seq<char> {
    parameterized_text(names) + " and "@ + last + " "@ + operator.symbol() + " ?"@
}

/// The predicates `<name> = ?` of `v`, joined by `and`.
fn parameterized(v: &Vec<String>) -> (clause: String)
    ensures
        clause@ == parameterized_text(texts(v@)),
{
    let mut parts: Vec<String> = Vec::new();
    let mut i: usize = 0;
    while i < v.len()
        invariant
            i <= v.len(),
            parts@.len() == i,
            forall|j: int| 0 <= j < i ==> parts@[j]@ == v@[j]@ + " = ?"@,
        decreases v.len() - i,
    {
        parts.push(String::from_str(v[i].as_str()).concat(" = ?"));
        i = i + 1;
    }
    assert(texts(parts@) =~= predicates(texts(v@)));
    join_texts(&parts, " and ")
}

/// The name of the method that selects by the names `v`.
fn create_fn_name(v: &Vec<String>) -> (fn_name: String)
    ensures
        fn_name@ == fn_name_text(texts(v@)),
{
    let joined = join_texts(v, "_");
    String::from_str("select_by_").concat(joined.as_str())
}

/// A copy of `v`.
fn copy_texts(v: &Vec<String>) -> (copy: Vec<String>)
    ensures
        texts(copy@) == texts(v@),
{
    let mut copy: Vec<String> = Vec::new();
    let mut i: usize = 0;
    while i < v.len()
        invariant
            i <= v.len(),
            copy@.len() == i,
            forall|j: int| 0 <= j < i ==> copy@[j]@ == v@[j]@,
        decreases v.len() - i,
    {
        copy.push(v[i].clone());
        i = i + 1;
    }
    assert(texts(copy@) =~= texts(v@));
    copy
}

/// The table and the keys that a query is written for.
struct Writer {
    name: String,
    names: Vec<String>,
    types: Vec<String>,
}

impl Writer {
    /// Each key has a type.
    spec fn wf(self) -> bool {
        self.names@.len() == self.types@.len()
    }

    /// A writer for the table `name` and the keys `fields`.
    fn new(name: &str, fields: &Vec<&Field>) -> (writer: Writer)
        ensures
            writer.wf(),
            writer.name@ == name@,
            texts(writer.names@) == ref_names(fields@),
            texts(writer.types@) == ref_types(fields@),
    {
        let mut names: Vec<String> = Vec::new();
        let mut types: Vec<String> = Vec::new();
        let mut i: usize = 0;
        while i < fields.len()
            invariant
                i <= fields.len(),
                names@.len() == i,
                types@.len() == i,
                forall|j: int| 0 <= j < i ==> names@[j]@ == fields@[j].ident@,
                forall|j: int| 0 <= j < i ==> types@[j]@ == fields@[j].ty.text@,
            decreases fields.len() - i,
        {
            names.push(fields[i].ident.clone());
            types.push(fields[i].ty.text.clone());
            i = i + 1;
        }
        assert(texts(names@) =~= ref_names(fields@));
        assert(texts(types@) =~= ref_types(fields@));
        Writer { name: String::from_str(name), names, types }
    }

    /// A copy of the writer.
    fn duplicate(&self) -> (writer: Writer)
        requires
            self.wf(),
        ensures
            writer.wf(),
            writer.name@ == self.name@,
            writer.names@.len() == self.names@.len(),
            texts(writer.names@) == texts(self.names@),
            texts(writer.types@) == texts(self.types@),
    {
        let names = copy_texts(&self.names);
        let types = copy_texts(&self.types);
        assert(names@.len() == texts(names@).len());
        assert(types@.len() == texts(types@).len());
        Writer { name: self.name.clone(), names, types }
    }
}

/// What a query writer says of the method that it writes.
trait Write {
    /// Whether the writer can be used.
    spec fn wf(&self) -> bool;

    spec fn table(&self) -> Seq<char>;

    spec fn kind(&self) -> QueryKind;

    spec fn where_clause(&self) -> Seq<char>;

    spec fn fn_name(&self) -> Seq<char>;

    spec fn param_names(&self) -> Seq<Seq<char>>;

    spec fn types(&self) -> Seq<Seq<char>>;

    /// A usable writer has a type for each parameter.
    proof fn lemma_wf(&self)
        requires
            self.wf(),
        ensures
            self.param_names().len() == self.types().len(),
    ;

    /// The record, which names the table.
    fn name(&self) -> (name: String)
        requires
            self.wf(),
        ensures
            name@ == self.table(),
    ;

    /// The form of the last predicate.
    fn query_kind(&self) -> (kind: QueryKind)
        requires
            self.wf(),
        ensures
            kind == self.kind(),
    ;

    /// What follows `where` in the statement.
    fn create_where_clause(&self) -> (clause: String)
        requires
            self.wf(),
        ensures
            clause@ == self.where_clause(),
    ;

    /// The name of the method.
    fn create_fn_name(&self) -> (fn_name: String)
        requires
            self.wf(),
        ensures
            fn_name@ == self.fn_name(),
    ;

    /// The names of the method's parameters, which are bound in this order.
    fn create_param_names(&self) -> (names: Vec<String>)
        requires
            self.wf(),
        ensures
            texts(names@) == self.param_names(),
    ;

    /// The types of the method's parameters.
    fn create_types(&self) -> (types: Vec<String>)
        requires
            self.wf(),
        ensures
            texts(types@) == self.types(),
    ;
}

/// Writes the query that compares every key with `=`.
struct WriteWithoutIn {
    writer: Writer,
    writing_full_pk: bool,
}

impl Write for WriteWithoutIn {
    spec fn wf(&self) -> bool {
        self.writer.wf()
    }

    spec fn table(&self) -> Seq<char> {
        self.writer.name@
    }

    spec fn kind(&self) -> QueryKind {
        QueryKind::Equal
    }

    spec fn where_clause(&self) -> Seq<char> {
        parameterized_text(texts(self.writer.names@))
    }

    spec fn fn_name(&self) -> Seq<char> {
        equal_fn_name(texts(self.writer.names@), self.writing_full_pk)
    }

    spec fn param_names(&self) -> Seq<Seq<char>> {
        texts(self.writer.names@)
    }

    spec fn types(&self) -> Seq<Seq<char>> {
        texts(self.writer.types@)
    }

    proof fn lemma_wf(&self) {
    }

    fn name(&self) -> (name: String) {
        self.writer.name.clone()
    }

    fn query_kind(&self) -> (kind: QueryKind) {
        QueryKind::Equal
    }

    fn create_where_clause(&self) -> (clause: String) {
        parameterized(&self.writer.names)
    }

    fn create_fn_name(&self) -> (fn_name: String) {
        if self.writing_full_pk {
            return String::from_str("select_unique");
        }
        create_fn_name(&self.writer.names)
    }

    fn create_param_names(&self) -> (names: Vec<String>) {
        copy_texts(&self.writer.names)
    }

    fn create_types(&self) -> (types: Vec<String>) {
        copy_texts(&self.writer.types)
    }
}

/// Writes the query that looks the last key up in a sequence.
struct WriteWithIn {
    /// The keys before the last.
    writer: Writer,
    last_name: String,
    last_type: String,
}

impl WriteWithIn {
    /// Splits the last key off `writer`.
    fn new(writer: Writer) -> (write: WriteWithIn)
        requires
            writer.wf(),
            writer.names@.len() > 0,
        ensures
            write.writer.wf(),
            write.writer.name@ == writer.name@,
            texts(write.writer.names@) == texts(writer.names@).drop_last(),
            texts(write.writer.types@) == texts(writer.types@).drop_last(),
            write.last_name@ == texts(writer.names@).last(),
            write.last_type@ == texts(writer.types@).last(),
    {
        let mut writer = writer;
        let ghost names = texts(writer.names@);
        let ghost types = texts(writer.types@);
        let last_name = writer.names.pop().unwrap();
        let last_type = writer.types.pop().unwrap();
        assert(texts(writer.names@) =~= names.drop_last());
        assert(texts(writer.types@) =~= types.drop_last());
        WriteWithIn { writer, last_name, last_type }
    }
}

impl Write for WriteWithIn {
    spec fn wf(&self) -> bool {
        self.writer.wf()
    }

    spec fn table(&self) -> Seq<char> {
        self.writer.name@
    }

    spec fn kind(&self) -> QueryKind {
        QueryKind::In
    }

    spec fn where_clause(&self) -> Seq<char> {
        in_where_clause(texts(self.writer.names@), self.last_name@)
    }

    spec fn fn_name(&self) -> Seq<char> {
        in_fn_name(texts(self.writer.names@), self.last_name@)
    }

    spec fn param_names(&self) -> Seq<Seq<char>> {
        texts(self.writer.names@).push("in_"@ + self.last_name@)
    }

    spec fn types(&self) -> Seq<Seq<char>> {
        texts(self.writer.types@).push("std::vec::Vec<"@ + self.last_type@ + ">"@)
    }

    proof fn lemma_wf(&self) {
    }

    fn name(&self) -> (name: String) {
        self.writer.name.clone()
    }

    fn query_kind(&self) -> (kind: QueryKind) {
        QueryKind::In
    }

    fn create_where_clause(&self) -> (clause: String) {
        let where_clause = parameterized(&self.writer.names);
        if self.writer.names.len() == 0 {
            where_clause.concat(self.last_name.as_str()).concat(" in (?)")
        } else {
            where_clause.concat(" and ").concat(self.last_name.as_str()).concat(" in (?)")
        }
    }

    fn create_fn_name(&self) -> (fn_name: String) {
        let fn_name = create_fn_name(&self.writer.names);
        // With a single key there is nothing to separate the word from.
        if self.writer.names.len() == 0 {
            fn_name.concat("in_").concat(self.last_name.as_str())
        } else {
            fn_name.concat("_").concat("in_").concat(self.last_name.as_str())
        }
    }

    fn create_param_names(&self) -> (names: Vec<String>) {
        let mut names = copy_texts(&self.writer.names);
        let ghost before = texts(names@);
        names.push(String::from_str("in_").concat(self.last_name.as_str()));
        assert(texts(names@) =~= before.push("in_"@ + self.last_name@));
        names
    }

    fn create_types(&self) -> (types: Vec<String>) {
        let mut types = copy_texts(&self.writer.types);
        let ghost before = texts(types@);
        // The last parameter is a sequence of the key's type.
        types.push(
            String::from_str("std::vec::Vec<").concat(self.last_type.as_str()).concat(">"),
        );
        assert(texts(types@) =~= before.push("std::vec::Vec<"@ + self.last_type@ + ">"@));
        types
    }
}

/// Writes the query that compares the last key with an operator.
struct WriteRange {
    /// The keys before the last.
    writer: Writer,
    last_name: String,
    last_type: String,
    operator: Operator,
}

impl WriteRange {
    /// Splits the last key off `writer`, to be compared with `operator`.
    fn new(writer: Writer, operator: Operator) -> (write: WriteRange)
        requires
            writer.wf(),
            writer.names@.len() > 0,
        ensures
            write.writer.wf(),
            write.operator == operator,
            write.writer.name@ == writer.name@,
            texts(write.writer.names@) == texts(writer.names@).drop_last(),
            texts(write.writer.types@) == texts(writer.types@).drop_last(),
            write.last_name@ == texts(writer.names@).last(),
            write.last_type@ == texts(writer.types@).last(),
    {
        let write_with_in = WriteWithIn::new(writer);
        WriteRange {
            writer: write_with_in.writer,
            last_name: write_with_in.last_name,
            last_type: write_with_in.last_type,
            operator,
        }
    }
}

impl Write for WriteRange {
    spec fn wf(&self) -> bool {
        self.writer.wf()
    }

    spec fn table(&self) -> Seq<char> {
        self.writer.name@
    }

    spec fn kind(&self) -> QueryKind {
        QueryKind::Range { operator: self.operator }
    }

    spec fn where_clause(&self) -> Seq<char> {
        range_where_clause(texts(self.writer.names@), self.operator, self.last_name@)
    }

    spec fn fn_name(&self) -> Seq<char> {
        range_fn_name(texts(self.writer.names@), self.operator, self.last_name@)
    }

    spec fn param_names(&self) -> Seq<Seq<char>> {
        texts(self.writer.names@).push("range_"@ + self.last_name@)
    }

    spec fn types(&self) -> Seq<Seq<char>> {
        texts(self.writer.types@).push(self.last_type@)
    }

    proof fn lemma_wf(&self) {
    }

    fn name(&self) -> (name: String) {
        self.writer.name.clone()
    }

    fn query_kind(&self) -> (kind: QueryKind) {
        QueryKind::Range { operator: self.operator }
    }

    fn create_where_clause(&self) -> (clause: String) {
        let where_clause = parameterized(&self.writer.names);
        let op = match self.operator {
            Operator::EqualWithSmaller => "<=",
            Operator::Smaller => "<",
            Operator::EqualWithLarger => ">=",
            Operator::Larger => ">",
        };
        where_clause.concat(" and ").concat(self.last_name.as_str()).concat(" ").concat(op).concat(
            " ?",
        )
    }

    fn create_fn_name(&self) -> (fn_name: String) {
        let fn_name = create_fn_name(&self.writer.names);
        let separator = match self.operator {
            Operator::EqualWithSmaller => "equal_or_smaller_than",
            Operator::Smaller => "smaller_than",
            Operator::EqualWithLarger => "equal_or_larger_than",
            Operator::Larger => "larger_than",
        };
        fn_name.concat("_").concat(separator).concat("_").concat(self.last_name.as_str())
    }

    fn create_param_names(&self) -> (names: Vec<String>) {
        let mut names = copy_texts(&self.writer.names);
        let ghost before = texts(names@);
        names.push(String::from_str("range_").concat(self.last_name.as_str()));
        assert(texts(names@) =~= before.push("range_"@ + self.last_name@));
        names
    }

    fn create_types(&self) -> (types: Vec<String>) {
        let mut types = copy_texts(&self.writer.types);
        let ghost before = texts(types@);
        types.push(self.last_type.clone());
        assert(texts(types@) =~= before.push(self.last_type@));
        types
    }
}

/// The method that a writer writes, selecting rows without a limit.
spec fn written<W: Write>(write: W) -> MethodView {
    MethodView {
        name: write.table(),
        kind: write.kind(),
        counting: false,
        limited: false,
        select_clause: "*"@,
        fn_name: write.fn_name(),
        param_names: write.param_names(),
        types: write.types(),
        where_clause: write.where_clause(),
    }
}

/// The name of the method that counts what the method `fn_name` selects.
pub open spec fn count_fn_name(fn_name: Seq<char>) -> Seq<char> {
    if "select_by_"@.is_prefix_of(fn_name) {
        "select_count_"@ + fn_name.skip("select_by_"@.len() as int)
    } else {
        fn_name
    }
}

/// The method that counts what `method` selects.
pub open spec fn counting_of(method: MethodView) -> MethodView {
    MethodView {
        counting: true,
        select_clause: "count(*)"@,
        fn_name: count_fn_name(method.fn_name),
        ..method
    }
}

/// The method that does what `method` does for at most a given number of rows.
pub open spec fn limited_of(method: MethodView) -> MethodView {
    MethodView {
        limited: true,
        fn_name: method.fn_name + "_limited_by"@,
        param_names: method.param_names.push("limited_by"@),
        types: method.types.push("i32"@),
        where_clause: method.where_clause + " limit ?"@,
        ..method
    }
}

/// `method`, and its limited sibling unless it selects a unique row.
pub open spec fn with_limited(method: MethodView) -> Seq<MethodView> {
    if method.fn_name == "select_unique"@ {
        seq![method]
    } else {
        seq![method, limited_of(method)]
    }
}

/// The methods that follow from `method`: itself and its limited sibling, then
/// the counting method and its limited sibling. A unique row has neither a
/// limit nor a count.
pub open spec fn variants(method: MethodView) -> Seq<MethodView> {
    if method.fn_name == "select_unique"@ {
        with_limited(method)
    } else {
        with_limited(method) + with_limited(counting_of(method))
    }
}

/// The name of the method that counts what the method `fn_name` selects.
fn count_name(fn_name: &str) -> (name: String)
    ensures
        name@ == count_fn_name(fn_name@),
{
    let prefix = "select_by_";
    let n = prefix.unicode_len();
    let len = fn_name.unicode_len();
    if len >= n && text_eq(fn_name.substring_char(0, n), prefix) {
        String::from_str("select_count_").concat(fn_name.substring_char(n, len))
    } else {
        String::from_str(fn_name)
    }
}

/// Adds to `methods` the method of `write` with the given `select_clause` and
/// name, and its limited sibling unless it selects a unique row.
fn add_methods<W: Write>(
    methods: &mut Vec<Method>,
    write: &W,
    select_clause: &str,
    fn_name: String,
    counting: bool,
)
    requires
        write.wf(),
    ensures
        method_views(final(methods)@) == method_views(old(methods)@) + with_limited(
            MethodView {
                counting,
                select_clause: select_clause@,
                fn_name: fn_name@,
                ..written(*write)
            },
        ),
{
    let ghost before = method_views(methods@);
    let ghost method = MethodView {
        counting,
        select_clause: select_clause@,
        fn_name: fn_name@,
        ..written(*write)
    };
    let unique = text_eq(fn_name.as_str(), "select_unique");
    let limited_name = String::from_str(fn_name.as_str()).concat("_limited_by");
    // Without a limit.
    methods.push(
        Method {
            name: write.name(),
            kind: write.query_kind(),
            counting,
            limited: false,
            select_clause: String::from_str(select_clause),
            fn_name,
            param_names: write.create_param_names(),
            types: write.create_types(),
            where_clause: write.create_where_clause(),
        },
    );
    assert(method_views(methods@) =~= before.push(method));
    // A limit on a query for a unique row would say nothing.
    if !unique {
        let mut param_names = write.create_param_names();
        let ghost names = texts(param_names@);
        param_names.push(String::from_str("limited_by"));
        assert(texts(param_names@) =~= names.push("limited_by"@));
        let mut types = write.create_types();
        let ghost type_texts = texts(types@);
        types.push(String::from_str("i32"));
        assert(texts(types@) =~= type_texts.push("i32"@));
        // With a limit.
        methods.push(
            Method {
                name: write.name(),
                kind: write.query_kind(),
                counting,
                limited: true,
                select_clause: String::from_str(select_clause),
                fn_name: limited_name,
                param_names,
                types,
                where_clause: write.create_where_clause().concat(" limit ?"),
            },
        );
        assert(method_views(methods@) =~= before.push(method).push(limited_of(method)));
    }
    assert(method_views(methods@) =~= before + with_limited(method));
}

/// The methods of one writer: the selecting method and, unless it selects a
/// unique row, its limited sibling and the two counting methods.
fn generate<W: Write>(write: &W) -> (methods: Vec<Method>)
    requires
        write.wf(),
    ensures
        method_views(methods@) == variants(written(*write)),
{
    let mut methods: Vec<Method> = Vec::new();
    assert(method_views(methods@) =~= Seq::<MethodView>::empty());
    let fn_name = write.create_fn_name();
    let unique = text_eq(fn_name.as_str(), "select_unique");
    let counting_name = count_name(fn_name.as_str());
    add_methods(&mut methods, write, "*", fn_name, false);
    assert(method_views(methods@) =~= with_limited(written(*write)));
    if !unique {
        add_methods(&mut methods, write, "count(*)", counting_name, true);
        assert(method_views(methods@) =~= with_limited(written(*write)) + with_limited(
            counting_of(written(*write)),
        ));
    }
    methods
}

/// The method that selects by `names` with `=` on every key.
pub open spec fn equal_method(
    table: Seq<char>,
    names: Seq<Seq<char>>,
    types: Seq<Seq<char>>,
    full: bool,
) -> MethodView {
    MethodView {
        name: table,
        kind: QueryKind::Equal,
        counting: false,
        limited: false,
        select_clause: "*"@,
        fn_name: equal_fn_name(names, full),
        param_names: names,
        types: types,
        where_clause: parameterized_text(names),
    }
}

/// The method that selects by `names` with `=` on every key but the last,
/// which is looked up in a sequence.
pub open spec fn in_method(
    table: Seq<char>,
    names: Seq<Seq<char>>,
    types: Seq<Seq<char>>,
) -> MethodView {
    MethodView {
        name: table,
        kind: QueryKind::In,
        counting: false,
        limited: false,
        select_clause: "*"@,
        fn_name: in_fn_name(names.drop_last(), names.last()),
        param_names: names.drop_last().push("in_"@ + names.last()),
        types: types.drop_last().push("std::vec::Vec<"@ + types.last() + ">"@),
        where_clause: in_where_clause(names.drop_last(), names.last()),
    }
}

/// The method that selects by `names` with `=` on every key but the last,
/// which is compared with `operator`.
pub open spec fn range_method(
    table: Seq<char>,
    names: Seq<Seq<char>>,
    types: Seq<Seq<char>>,
    operator: Operator,
) -> MethodView {
    MethodView {
        name: table,
        kind: QueryKind::Range { operator },
        counting: false,
        limited: false,
        select_clause: "*"@,
        fn_name: range_fn_name(names.drop_last(), operator, names.last()),
        param_names: names.drop_last().push("range_"@ + names.last()),
        types: types.drop_last().push(types.last()),
        where_clause: range_where_clause(names.drop_last(), operator, names.last()),
    }
}

/// The methods with `=` and with `in` for the keys `names`.
pub open spec fn equal_and_in(
    table: Seq<char>,
    names: Seq<Seq<char>>,
    types: Seq<Seq<char>>,
    full: bool,
) -> Seq<MethodView> {
    variants(equal_method(table, names, types, full)) + variants(in_method(table, names, types))
}

/// The operators, in the order in which their methods are emitted.
pub open spec fn operators() -> Seq<Operator> {
    seq![
        Operator::EqualWithSmaller,
        Operator::Smaller,
        Operator::EqualWithLarger,
        Operator::Larger,
    ]
}

/// The range methods for the keys `names` and the first `count` operators.
pub open spec fn ranges_upto(
    table: Seq<char>,
    names: Seq<Seq<char>>,
    types: Seq<Seq<char>>,
    count: int,
) -> Seq<MethodView>
    decreases count,
{
    if count <= 0 {
        Seq::empty()
    } else {
        ranges_upto(table, names, types, count - 1) + variants(
            range_method(table, names, types, operators()[count - 1]),
        )
    }
}

/// The range methods for the keys `names`, one family per operator.
pub open spec fn ranges(table: Seq<char>, names: Seq<Seq<char>>, types: Seq<Seq<char>>) -> Seq<
    MethodView,
> {
    ranges_upto(table, names, types, 4)
}

/// The methods for the first `r` of `keys`, of which the first `m` are the
/// partition key: those with `=` and with `in`, and the range methods where
/// the prefix reaches into the clustering key.
pub open spec fn prefix_methods(
    table: Seq<char>,
    keys: Seq<Seq<char>>,
    types: Seq<Seq<char>>,
    m: int,
    r: int,
) -> Seq<MethodView> {
    equal_and_in(table, keys.take(r), types.take(r), r == keys.len()) + if r > m {
        ranges(table, keys.take(r), types.take(r))
    } else {
        Seq::empty()
    }
}

/// The methods for the prefixes of `keys` from the partition key, which is the
/// first `m` keys, up to the first `r` keys.
pub open spec fn family_upto(
    table: Seq<char>,
    keys: Seq<Seq<char>>,
    types: Seq<Seq<char>>,
    m: int,
    r: int,
) -> Seq<MethodView>
    decreases r - m,
{
    if r <= m {
        prefix_methods(table, keys, types, m, m)
    } else {
        family_upto(table, keys, types, m, r - 1) + prefix_methods(table, keys, types, m, r)
    }
}

/// The `select` methods of a table with the given partition and clustering
/// keys, in the order in which they are emitted: none without a partition key,
/// else those of each prefix of the primary key that holds the partition key.
pub open spec fn family(
    table: Seq<char>,
    partition: Seq<Seq<char>>,
    partition_types: Seq<Seq<char>>,
    clustering: Seq<Seq<char>>,
    clustering_types: Seq<Seq<char>>,
) -> Seq<MethodView> {
    if partition.len() == 0 {
        Seq::empty()
    } else {
        family_upto(
            table,
            partition + clustering,
            partition_types + clustering_types,
            partition.len() as int,
            (partition + clustering).len() as int,
        )
    }
}

/// The `select` methods of the record.
pub open spec fn record_family(ast: DeriveInput) -> Result<Seq<MethodView>, GenErrorView> {
    match keyed_fields(ast) {
        Err(e) => Err(e),
        Ok(fields) => Ok(
            family(
                ast.ident@,
                field_names(partition_keys(fields)),
                field_types(partition_keys(fields)),
                field_names(clustering_keys(fields)),
                field_types(clustering_keys(fields)),
            ),
        ),
    }
}

/// The views of generated methods, or of the error in their place.
pub open spec fn methods_result(r: Result<Vec<Method>, GenError>) -> Result<
    Seq<MethodView>,
    GenErrorView,
> {
    match r {
        Ok(methods) => Ok(method_views(methods@)),
        Err(e) => Err(e@),
    }
}

/// Adds to `queries` the methods with `=` and with `in` for the keys of
/// `writer`.
fn generate_all(queries: &mut Vec<Method>, writer: Writer, writing_full_pk: bool)
    requires
        writer.wf(),
        writer.names@.len() > 0,
    ensures
        method_views(final(queries)@) == method_views(old(queries)@) + equal_and_in(
            writer.name@,
            texts(writer.names@),
            texts(writer.types@),
            writing_full_pk,
        ),
{
    let ghost before = method_views(queries@);
    let with_in = WriteWithIn::new(writer.duplicate());
    let without_in = WriteWithoutIn { writer, writing_full_pk };
    let mut equal = generate(&without_in);
    let mut contained = generate(&with_in);
    proof {
        let names = texts(without_in.writer.names@);
        let types = texts(without_in.writer.types@);
        assert(written(without_in) == equal_method(
            without_in.writer.name@,
            names,
            types,
            writing_full_pk,
        ));
        assert(written(with_in) == in_method(without_in.writer.name@, names, types));
    }
    let ghost first = method_views(equal@);
    let ghost second = method_views(contained@);
    queries.append(&mut equal);
    assert(method_views(queries@) =~= before + first);
    queries.append(&mut contained);
    assert(method_views(queries@) =~= before + (first + second));
}

/// Adds to `queries` the range methods for the keys of `writer`, one family
/// per operator.
fn generate_ranges(queries: &mut Vec<Method>, writer: &Writer)
    requires
        writer.wf(),
        writer.names@.len() > 0,
    ensures
        method_views(final(queries)@) == method_views(old(queries)@) + ranges(
            writer.name@,
            texts(writer.names@),
            texts(writer.types@),
        ),
{
    let ghost before = method_views(queries@);
    let ghost names = texts(writer.names@);
    let ghost types = texts(writer.types@);
    let all = Operator::all_operators();
    let mut i: usize = 0;
    assert(before + ranges_upto(writer.name@, names, types, 0) =~= before);
    while i < all.len()
        invariant
            i <= all.len(),
            all@ == operators(),
            writer.wf(),
            writer.names@.len() > 0,
            names == texts(writer.names@),
            types == texts(writer.types@),
            method_views(queries@) == before + ranges_upto(
                writer.name@,
                names,
                types,
                i as int,
            ),
        decreases all.len() - i,
    {
        let write = WriteRange::new(writer.duplicate(), all[i]);
        let mut range = generate(&write);
        assert(written(write) == range_method(writer.name@, names, types, operators()[i as int]));
        let ghost so_far = method_views(queries@);
        let ghost added = method_views(range@);
        queries.append(&mut range);
        assert(method_views(queries@) =~= so_far + added);
        assert(before + ranges_upto(writer.name@, names, types, i + 1) =~= so_far + added);
        i = i + 1;
    }
}

/// The `select` methods of the record, in the order in which they are emitted.
///
/// A record without a partition key has none. Else each prefix of the primary
/// key that holds the whole partition key has its methods with `=` and with
/// `in`, and, where it reaches into the clustering key, its range methods.
pub fn select_family(ast: &DeriveInput) -> (methods: Result<Vec<Method>, GenError>)
    ensures
        methods_result(methods) == record_family(*ast),
{
    let (fields, partition_key_fields, cluster_key_fields) = read_with_attributes(ast)?;
    let mut methods: Vec<Method> = Vec::new();
    assert(method_views(methods@) =~= Seq::<MethodView>::empty());
    if partition_key_fields.len() == 0 {
        return Ok(methods);
    }
    let ghost table = ast.ident@;
    let ghost partition = field_names(partition_keys(fields@));
    let ghost partition_types = field_types(partition_keys(fields@));
    let ghost clustering = field_names(clustering_keys(fields@));
    let ghost clustering_types = field_types(clustering_keys(fields@));
    let ghost keys = partition + clustering;
    let ghost types = partition_types + clustering_types;
    let ghost m = partition.len() as int;
    assert(ref_names(partition_key_fields@) =~= partition);
    assert(ref_types(partition_key_fields@) =~= partition_types);
    assert(keys.take(m) =~= partition);
    assert(types.take(m) =~= partition_types);

    generate_all(
        &mut methods,
        Writer::new(ast.ident.as_str(), &partition_key_fields),
        cluster_key_fields.len() == 0,
    );
    assert(method_views(methods@) =~= family_upto(table, keys, types, m, m));

    let mut processed = partition_key_fields;
    let mut i: usize = 0;
    while i < cluster_key_fields.len()
        invariant
            i <= cluster_key_fields.len(),
            m > 0,
            m == partition.len(),
            partition.len() == partition_types.len(),
            clustering.len() == clustering_types.len(),
            clustering.len() == cluster_key_fields@.len(),
            keys == partition + clustering,
            types == partition_types + clustering_types,
            table == ast.ident@,
            forall|j: int|
                0 <= j < cluster_key_fields@.len() ==> cluster_key_fields@[j].ident@
                    == clustering[j] && cluster_key_fields@[j].ty.text@ == clustering_types[j],
            ref_names(processed@) == keys.take(m + i),
            ref_types(processed@) == types.take(m + i),
            method_views(methods@) == family_upto(table, keys, types, m, m + i),
        decreases cluster_key_fields.len() - i,
    {
        processed.push(cluster_key_fields[i]);
        assert(ref_names(processed@) =~= keys.take(m + i + 1));
        assert(ref_types(processed@) =~= types.take(m + i + 1));
        let writer = Writer::new(ast.ident.as_str(), &processed);
        let ghost so_far = method_views(methods@);
        generate_all(&mut methods, writer.duplicate(), i + 1 == cluster_key_fields.len());
        generate_ranges(&mut methods, &writer);
        assert(method_views(methods@) =~= so_far + prefix_methods(
            table,
            keys,
            types,
            m,
            m + i + 1,
        ));
        i = i + 1;
    }
    Ok(methods)
}

/// Whether each method has a type for each of its parameters.
pub open spec fn all_wf(methods: Seq<MethodView>) -> bool {
    forall|i: int| 0 <= i < methods.len() ==> (#[trigger] methods[i]).wf()
}

/// The methods that follow from a method with a type for each parameter have
/// one too.
pub proof fn lemma_variants_wf(method: MethodView)
    requires
        method.wf(),
    ensures
        all_wf(variants(method)),
{
}

/// Every method of the family has a type for each of its parameters.
pub proof fn lemma_family_wf(
    table: Seq<char>,
    partition: Seq<Seq<char>>,
    partition_types: Seq<Seq<char>>,
    clustering: Seq<Seq<char>>,
    clustering_types: Seq<Seq<char>>,
)
    requires
        partition.len() == partition_types.len(),
        clustering.len() == clustering_types.len(),
    ensures
        all_wf(family(table, partition, partition_types, clustering, clustering_types)),
{
    if partition.len() > 0 {
        let keys = partition + clustering;
        let types = partition_types + clustering_types;
        lemma_family_upto_wf(table, keys, types, partition.len() as int, keys.len() as int);
    }
}

/// Every method for a prefix of the keys has a type for each of its
/// parameters.
pub proof fn lemma_prefix_wf(
    table: Seq<char>,
    keys: Seq<Seq<char>>,
    types: Seq<Seq<char>>,
    m: int,
    r: int,
)
    requires
        keys.len() == types.len(),
        0 < r <= keys.len(),
    ensures
        all_wf(prefix_methods(table, keys, types, m, r)),
{
    let names = keys.take(r);
    let kinds = types.take(r);
    lemma_variants_wf(equal_method(table, names, kinds, r == keys.len()));
    lemma_variants_wf(in_method(table, names, kinds));
    reveal_with_fuel(ranges_upto, 5);
    lemma_variants_wf(range_method(table, names, kinds, Operator::EqualWithSmaller));
    lemma_variants_wf(range_method(table, names, kinds, Operator::Smaller));
    lemma_variants_wf(range_method(table, names, kinds, Operator::EqualWithLarger));
    lemma_variants_wf(range_method(table, names, kinds, Operator::Larger));
}

/// Every method for the prefixes up to `r` keys has a type for each of its
/// parameters.
pub proof fn lemma_family_upto_wf(
    table: Seq<char>,
    keys: Seq<Seq<char>>,
    types: Seq<Seq<char>>,
    m: int,
    r: int,
)
    requires
        keys.len() == types.len(),
        0 < m <= keys.len(),
        r <= keys.len(),
    ensures
        all_wf(family_upto(table, keys, types, m, r)),
    decreases r - m,
{
    if r <= m {
        lemma_prefix_wf(table, keys, types, m, m);
    } else {
        lemma_family_upto_wf(table, keys, types, m, r - 1);
        lemma_prefix_wf(table, keys, types, m, r);
    }
}

/// The parameters of a method, each with its type.
pub open spec fn declarations(names: Seq<Seq<char>>, types: Seq<Seq<char>>) -> Seq<Seq<char>> {
    Seq::new(names.len(), |i: int| names[i] + ": "@ + types[i])
}

/// The statements that bind the parameters, in the order of the placeholders.
pub open spec fn bindings(names: Seq<Seq<char>>) -> Seq<Seq<char>> {
    Seq::new(names.len(), |i: int| "values.push("@ + names[i] + ".into());"@)
}

/// The text of a generated method: it takes its parameters, binds them in
/// order and returns the statement with the positional bundle.
pub open spec fn method_text(method: MethodView) -> Seq<char> {
    "impl "@ + method.name + " { pub fn "@ + method.fn_name + "("@ + join(
        declarations(method.param_names, method.types),
        ", "@,
    )
        + ") -> (&'static str, cdrs::query::QueryValues) { let mut values: Vec<cdrs::types::value::Value> = Vec::new(); "@
        + join(bindings(method.param_names), " "@) + " (\""@ + method.statement()
        + "\", cdrs::query::QueryValues::SimpleValues(values)) } }"@
}

/// The texts of `methods`, in order.
pub open spec fn method_texts(methods: Seq<MethodView>) -> Seq<Seq<char>> {
    Seq::new(methods.len(), |i: int| method_text(methods[i]))
}

/// The text of a generated method.
fn write_impl(method: &Method) -> (tokens: quote::Tokens)
    requires
        method@.wf(),
    ensures
        tokens_text(tokens) == method_text(method@),
{
    let mut declared: Vec<String> = Vec::new();
    let mut bound: Vec<String> = Vec::new();
    assert(method.param_names@.len() == method@.param_names.len());
    assert(method.types@.len() == method@.types.len());
    let mut i: usize = 0;
    while i < method.param_names.len()
        invariant
            i <= method.param_names.len(),
            method.param_names@.len() == method.types@.len(),
            declared@.len() == i,
            bound@.len() == i,
            forall|j: int|
                0 <= j < i ==> declared@[j]@ == method.param_names@[j]@ + ": "@
                    + method.types@[j]@,
            forall|j: int|
                0 <= j < i ==> bound@[j]@ == "values.push("@ + method.param_names@[j]@
                    + ".into());"@,
        decreases method.param_names.len() - i,
    {
        let name = method.param_names[i].as_str();
        declared.push(String::from_str(name).concat(": ").concat(method.types[i].as_str()));
        bound.push(String::from_str("values.push(").concat(name).concat(".into());"));
        i = i + 1;
    }
    assert(texts(declared@) =~= declarations(method@.param_names, method@.types));
    assert(texts(bound@) =~= bindings(method@.param_names));
    let text = String::from_str("impl ").concat(method.name.as_str()).concat(" { pub fn ").concat(
        method.fn_name.as_str(),
    ).concat("(").concat(join_texts(&declared, ", ").as_str()).concat(
        ") -> (&'static str, cdrs::query::QueryValues) { let mut values: Vec<cdrs::types::value::Value> = Vec::new(); ",
    ).concat(join_texts(&bound, " ").as_str()).concat(" (\"").concat(
        method.statement().as_str(),
    ).concat("\", cdrs::query::QueryValues::SimpleValues(values)) } }");
    tokens_of(text.as_str())
}

/// The text of the two methods that select and count every row of `table`.
pub open spec fn select_all_text(table: Seq<char>) -> Seq<char> {
    "impl "@ + table + " { pub fn select_all() -> &'static str { \"select * from "@ + table
        + "\" } pub fn select_all_count() -> &'static str { \"select count(*) from "@ + table
        + "\" } }"@
}

/// The text of the `select` methods of the record: those that select and count
/// every row, then each method of its family.
pub open spec fn select_queries_text(ast: DeriveInput) -> Result<Seq<char>, GenErrorView> {
    match record_family(ast) {
        Err(e) => Err(e),
        Ok(methods) => Ok(appended(select_all_text(ast.ident@), method_texts(methods))),
    }
}

/// The `select` methods of the record: `select_all` and `select_all_count`,
/// then the methods of its family.
pub fn generate_select_queries(ast: &DeriveInput) -> (tokens: Result<quote::Tokens, GenError>)
    ensures
        tokens_result(tokens) == select_queries_text(*ast),
{
    let methods = select_family(ast)?;
    proof {
        let fields = keyed_fields(*ast)->Ok_0;
        lemma_family_wf(
            ast.ident@,
            field_names(partition_keys(fields)),
            field_types(partition_keys(fields)),
            field_names(clustering_keys(fields)),
            field_types(clustering_keys(fields)),
        );
    }
    let name = ast.ident.as_str();
    let select_all = String::from_str("impl ").concat(name).concat(
        " { pub fn select_all() -> &'static str { \"select * from ",
    ).concat(name).concat(
        "\" } pub fn select_all_count() -> &'static str { \"select count(*) from ",
    ).concat(name).concat("\" } }");
    let mut tokens = tokens_of(select_all.as_str());
    let ghost all = method_texts(method_views(methods@));
    let mut i: usize = 0;
    while i < methods.len()
        invariant
            i <= methods.len(),
            all_wf(method_views(methods@)),
            all == method_texts(method_views(methods@)),
            tokens_text(tokens) == appended(select_all_text(ast.ident@), all.take(i as int)),
        decreases methods.len() - i,
    {
        assert(method_views(methods@)[i as int].wf());
        let method = write_impl(&methods[i]);
        assert(all.take(i + 1).drop_last() =~= all.take(i as int));
        tokens_append(&mut tokens, tokens_as_str(&method));
        i = i + 1;
    }
    assert(all.take(methods.len() as int) =~= all);
    Ok(tokens)
}

} // verus!
