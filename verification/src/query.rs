//! The condition tree and the fluent query builder.

use vstd::prelude::*;
use vstd::string::StringExecFns;

use crate::assoc::assoc_lookup;
use crate::assoc::assoc_set;
use crate::assoc::assoc_unique;
use crate::query_values::Value;

verus! {

/// One comparison operator of a condition. Negated forms render as a `NOT`
/// prefix on the positive fragment rather than as a distinct SQL operator.
#[derive(Debug, PartialEq, Eq, Structural, Clone, Copy)]
pub enum Operator {
    Equal,
    NotEqual,
    Greater,
    NotGreater,
    GreaterOrEqual,
    NotGreaterOrEqual,
    Less,
    LessOrEqual,
    NotLess,
    NotLessOrEqual,
    Like,
    NotLike,
    Null,
    NotNull,
    In,
    NotIn,
}

/// The statement kinds a builder can be consumed for.
#[derive(Debug, PartialEq, Eq, Structural, Clone, Copy)]
pub enum Action {
    Insert,
    Update,
    Delete,
    SelectAll,
    SelectOne,
}

/// How an explicit condition call asks to be joined to the previous ones.
#[derive(Debug, PartialEq, Eq, Structural, Clone, Copy)]
pub enum WhereJoin {
    And,
    Or,
}

/// The kind of a join specification.
#[derive(Debug, PartialEq, Eq, Structural, Clone, Copy)]
pub enum JoinType {
    Inner,
    Left,
    Right,
}

impl JoinType {
    /// The keyword this join kind renders as.
    pub open spec fn keyword(self) -> Seq<char> {
        match self {
            JoinType::Inner => seq!['i', 'n', 'n', 'e', 'r'],
            JoinType::Left => seq!['l', 'e', 'f', 't'],
            JoinType::Right => seq!['r', 'i', 'g', 'h', 't'],
        }
    }

    /// Renders the join kind as its SQL keyword.
    pub fn name(&self) -> (r: &'static str)
        ensures
            r@ == self.keyword(),
    {
        proof {
            reveal_strlit("inner");
            reveal_strlit("left");
            reveal_strlit("right");
        }
        let r = match self {
            JoinType::Inner => "inner",
            JoinType::Left => "left",
            JoinType::Right => "right",
        };
        proof {
            assert(r@ =~= self.keyword());
        }
        r
    }
}

/// One predicate: a column, an operator, and the value to compare with.
#[derive(Debug)]
pub struct Condition {
    pub column: String,
    pub operator: Operator,
    pub value: Value,
}

/// A condition tagged with its boolean connective: the first condition of a
/// builder carries no connective, every later one is joined by AND or OR.
#[derive(Debug)]
pub enum WhereJoinOperator {
    First(Condition),
    And(Condition),
    Or(Condition),
}

/// Which value shapes an operator accepts: null tests carry `Value::Null`
/// and render without a placeholder, set membership carries a vector, and
/// every other operator carries a scalar or a sub-query.
pub open spec fn condition_fits(operator: Operator, value: Value) -> bool {
    match operator {
        Operator::Null | Operator::NotNull => value is Null,
        Operator::In | Operator::NotIn => value.is_vector(),
        _ => value.is_scalar(),
    }
}

impl Condition {
    /// The operator and the value shape fit together.
    pub open spec fn wf(self) -> bool {
        condition_fits(self.operator, self.value)
    }

    pub fn new(column: &str, operator: Operator, value: Value) -> (r: Self)
        ensures
            r.column@ == column@,
            r.operator == operator,
            r.value == value,
    {
        Self { column: column.to_owned(), operator, value }
    }

    pub fn column(&self) -> (r: &String)
        ensures
            r == &self.column,
    {
        &self.column
    }

    pub fn operator(&self) -> (r: &Operator)
        ensures
            r == &self.operator,
    {
        &self.operator
    }

    pub fn value(&self) -> (r: &Value)
        ensures
            r == &self.value,
    {
        &self.value
    }
}

pub open spec fn entry_condition(e: WhereJoinOperator) -> Condition {
    match e {
        WhereJoinOperator::First(c) => c,
        WhereJoinOperator::And(c) => c,
        WhereJoinOperator::Or(c) => c,
    }
}

/// The views of a list of owned strings.
pub open spec fn strs_view(v: Seq<String>) -> Seq<Seq<char>> {
    v.map_values(|s: String| s@)
}

/// The column list an optional selection stands for: absence selects all.
pub open spec fn opt_cols_view(o: Option<Vec<String>>) -> Seq<Seq<char>> {
    match o {
        Option::None => Seq::empty(),
        Option::Some(v) => strs_view(v@),
    }
}

/// Accumulates target tables, selected columns, update payloads, join
/// specifications, and the ordered, connective-tagged condition list.
#[derive(Debug)]
pub struct QueryBuilder {
    pub where_clauses: Vec<WhereJoinOperator>,
    pub tables: Vec<String>,
    pub select_columns: Option<Vec<String>>,
    pub set_columns: Option<Vec<(String, String)>>,
    pub joins: Option<Vec<JoinQueryBuilder>>,
}

/// One join specification: the joined table, the ON clause, the join kind,
/// and optionally the columns selected from the joined table.
#[derive(Debug)]
pub struct JoinQueryBuilder {
    pub table: String,
    pub join_clause: String,
    pub select_columns: Option<Vec<String>>,
    pub join_type: JoinType,
}

/// The ON clause a join renders: `left <op> right` with single spaces.
pub open spec fn join_clause_view(left: Seq<char>, operator: Seq<char>, right: Seq<char>) -> Seq<
    char,
> {
    left + seq![' '] + operator + seq![' '] + right
}

/// Everything but the condition list is unchanged.
pub open spec fn same_shape(pre: QueryBuilder, post: QueryBuilder) -> bool {
    &&& post.tables == pre.tables
    &&& post.select_columns == pre.select_columns
    &&& post.set_columns == pre.set_columns
    &&& post.joins == pre.joins
}

/// The connective an appended condition must carry: the first condition of
/// a builder is always tagged as first — an explicit AND or OR request
/// degrades — and a later bare call joins with AND.
pub open spec fn entry_tagged_as(
    e: WhereJoinOperator,
    prior_len: nat,
    and_or: Option<WhereJoin>,
) -> bool {
    if prior_len == 0 {
        e is First
    } else {
        match and_or {
            Option::Some(WhereJoin::Or) => e is Or,
            _ => e is And,
        }
    }
}

/// A condition's parts, compared by view.
pub open spec fn cond_is(c: Condition, column: Seq<char>, op: Operator, value: Value) -> bool {
    &&& c.column@ == column
    &&& c.operator == op
    &&& c.value == value
}

/// One condition was appended: the prior entries stand unchanged, and the
/// new entry holds the given parts under the connective policy.
pub open spec fn appends_condition(
    pre: QueryBuilder,
    post: QueryBuilder,
    column: Seq<char>,
    op: Operator,
    value: Value,
    and_or: Option<WhereJoin>,
) -> bool {
    &&& post.where_clauses@.len() == pre.where_clauses@.len() + 1
    &&& post.where_clauses@.drop_last() == pre.where_clauses@
    &&& cond_is(entry_condition(post.where_clauses@.last()), column, op, value)
    &&& entry_tagged_as(post.where_clauses@.last(), pre.where_clauses@.len(), and_or)
    &&& same_shape(pre, post)
}

/// Two ordering conditions on one column were appended, the second joined
/// by AND: the shape of `between` and `not_between`.
pub open spec fn appends_bounds(
    pre: QueryBuilder,
    post: QueryBuilder,
    column: Seq<char>,
    lower_op: Operator,
    upper_op: Operator,
    first: Value,
    last: Value,
    and_or: Option<WhereJoin>,
) -> bool {
    &&& post.where_clauses@.len() == pre.where_clauses@.len() + 2
    &&& post.where_clauses@.subrange(0, pre.where_clauses@.len() as int) == pre.where_clauses@
    &&& cond_is(
        entry_condition(post.where_clauses@[pre.where_clauses@.len() as int]),
        column,
        lower_op,
        first,
    )
    &&& entry_tagged_as(
        post.where_clauses@[pre.where_clauses@.len() as int],
        pre.where_clauses@.len(),
        and_or,
    )
    &&& cond_is(entry_condition(post.where_clauses@.last()), column, upper_op, last)
    &&& post.where_clauses@.last() is And
    &&& same_shape(pre, post)
}

/// The first entry, and only the first, carries no connective.
pub open spec fn wf_tags(s: Seq<WhereJoinOperator>) -> bool {
    forall|i: int| 0 <= i < s.len() ==> (s[i] is First <==> i == 0)
}

/// LAW: every condition call keeps the connective invariant — the first
/// condition of a builder, and only the first, is tagged as first.
pub proof fn lemma_condition_call_keeps_tags(
    pre: QueryBuilder,
    post: QueryBuilder,
    column: Seq<char>,
    op: Operator,
    value: Value,
    and_or: Option<WhereJoin>,
)
    requires
        wf_tags(pre.where_clauses@),
        appends_condition(pre, post, column, op, value, and_or),
    ensures
        wf_tags(post.where_clauses@),
{
    let s = post.where_clauses@;
    assert forall|i: int| 0 <= i < s.len() implies (s[i] is First <==> i == 0) by {
        if i < s.len() - 1 {
            assert(s[i] == pre.where_clauses@[i]);
        }
    }
}

/// Appends clones of all given strings to a list.
fn extend_strings(target: &mut Vec<String>, items: &Vec<String>)
    ensures
        strs_view(final(target)@) == strs_view(old(target)@) + strs_view(items@),
{
    let ghost pre = strs_view(target@);
    let n = items.len();
    let mut i: usize = 0;
    while i < n
        invariant
            pre == strs_view(old(target)@),
            n == items@.len(),
            i <= n,
            strs_view(target@) =~= pre + strs_view(items@.subrange(0, i as int)),
        decreases n - i,
    {
        let ghost prev = target@;
        proof {
            assert(strs_view(prev).len() == prev.len());
            assert(prev.len() == pre.len() + i);
        }
        let c = items[i].clone();
        let ghost gc = c;
        target.push(c);
        i = i + 1;
        proof {
            assert(target@ == prev.push(gc));
            assert(gc == items@[i - 1]);
            let lhs = strs_view(target@);
            let rhs = pre + strs_view(items@.subrange(0, i as int));
            assert(lhs.len() == rhs.len());
            assert forall|k: int| 0 <= k < lhs.len() implies lhs[k] == rhs[k] by {
                if k < prev.len() {
                    assert(lhs[k] == strs_view(prev)[k]);
                    assert(strs_view(prev)[k] == (pre + strs_view(items@.subrange(0, i - 1)))[k]);
                } else {
                    assert(lhs[k] == gc@);
                }
            }
            assert(lhs =~= rhs);
        }
    }
    proof {
        assert(items@.subrange(0, n as int) =~= items@);
    }
}

impl JoinQueryBuilder {
    pub fn new(
        table: &str,
        left_table: &str,
        operator: &str,
        right_table: &str,
        join_type: JoinType,
        select_columns: Option<Vec<String>>,
    ) -> (r: Self)
        ensures
            r.table@ == table@,
            r.join_clause@ == join_clause_view(left_table@, operator@, right_table@),
            r.join_type == join_type,
            r.select_columns == select_columns,
    {
        let mut clause = left_table.to_owned();
        clause.append(" ");
        clause.append(operator);
        clause.append(" ");
        clause.append(right_table);
        proof {
            reveal_strlit(" ");
            assert(clause@ =~= join_clause_view(left_table@, operator@, right_table@));
        }
        Self { table: table.to_owned(), join_clause: clause, join_type, select_columns }
    }

    /// Appends one column to the join's selection, allocating it first if
    /// the join selected all columns so far.
    pub fn select(&mut self, column: &str)
        ensures
            final(self).select_columns is Some,
            opt_cols_view(final(self).select_columns) == opt_cols_view(
                old(self).select_columns,
            ).push(column@),
            final(self).table == old(self).table,
            final(self).join_clause == old(self).join_clause,
            final(self).join_type == old(self).join_type,
    {
        let mut cols = match self.select_columns.take() {
            Some(c) => c,
            None => Vec::new(),
        };
        cols.push(column.to_owned());
        self.select_columns = Some(cols);
        proof {
            assert(opt_cols_view(self.select_columns) =~= opt_cols_view(
                old(self).select_columns,
            ).push(column@));
        }
    }

    /// Appends several columns to the join's selection.
    pub fn select_multiple(&mut self, columns: Vec<String>)
        ensures
            final(self).select_columns is Some,
            opt_cols_view(final(self).select_columns) == opt_cols_view(old(self).select_columns)
                + strs_view(columns@),
            final(self).table == old(self).table,
            final(self).join_clause == old(self).join_clause,
            final(self).join_type == old(self).join_type,
    {
        let mut cols = match self.select_columns.take() {
            Some(c) => c,
            None => Vec::new(),
        };
        extend_strings(&mut cols, &columns);
        self.select_columns = Some(cols);
        proof {
            assert(opt_cols_view(self.select_columns) =~= opt_cols_view(old(self).select_columns)
                + strs_view(columns@));
        }
    }

    pub fn select_columns(&self) -> (r: &Option<Vec<String>>)
        ensures
            r == &self.select_columns,
    {
        &self.select_columns
    }

    pub fn join_clause(&self) -> (r: &str)
        ensures
            r@ == self.join_clause@,
    {
        self.join_clause.as_str()
    }

    pub fn table(&self) -> (r: &str)
        ensures
            r@ == self.table@,
    {
        self.table.as_str()
    }

    pub fn join_type(&self) -> (r: &JoinType)
        ensures
            r == &self.join_type,
    {
        &self.join_type
    }
}

impl QueryBuilder {
    /// An empty builder over the given target tables.
    pub fn new(tables: Vec<String>) -> (r: Self)
        ensures
            r.where_clauses@ =~= Seq::<WhereJoinOperator>::empty(),
            r.tables == tables,
            r.select_columns is None,
            r.set_columns is None,
            r.joins is None,
    {
        Self {
            where_clauses: Vec::new(),
            tables,
            select_columns: None,
            set_columns: None,
            joins: None,
        }
    }

    pub fn tables(&self) -> (r: &Vec<String>)
        ensures
            r == &self.tables,
    {
        &self.tables
    }

    pub fn select_columns(&self) -> (r: &Option<Vec<String>>)
        ensures
            r == &self.select_columns,
    {
        &self.select_columns
    }

    pub fn set_columns(&self) -> (r: &Option<Vec<(String, String)>>)
        ensures
            r == &self.set_columns,
    {
        &self.set_columns
    }

    pub fn joins(&self) -> (r: &Option<Vec<JoinQueryBuilder>>)
        ensures
            r == &self.joins,
    {
        &self.joins
    }

    pub fn where_clauses(&self) -> (r: &Vec<WhereJoinOperator>)
        ensures
            r == &self.where_clauses,
    {
        &self.where_clauses
    }

    /// Binds one update-payload column, last write winning on a repeated
    /// column name.
    pub fn set(&mut self, column: &str, value: &str)
        requires
            old(self).set_cols_unique(),
        ensures
            final(self).set_cols_unique(),
            final(self).set_columns is Some,
            forall|k: Seq<char>|
                assoc_lookup(final(self).set_columns->0@, k) == (if k == column@ {
                    Some(value@)
                } else {
                    assoc_lookup(set_cols_entries(old(self).set_columns), k)
                }),
            final(self).where_clauses == old(self).where_clauses,
            final(self).tables == old(self).tables,
            final(self).select_columns == old(self).select_columns,
            final(self).joins == old(self).joins,
    {
        let mut cols = match self.set_columns.take() {
            Some(c) => c,
            None => Vec::new(),
        };
        assoc_set(&mut cols, column, value);
        self.set_columns = Some(cols);
    }

    /// Binds several update-payload columns in order, last write winning.
    pub fn set_multiple(&mut self, column_and_values: Vec<(String, String)>)
        requires
            old(self).set_cols_unique(),
        ensures
            final(self).set_cols_unique(),
            final(self).set_columns is Some,
            forall|k: Seq<char>|
                assoc_lookup(final(self).set_columns->0@, k) == (match assoc_lookup(
                    column_and_values@,
                    k,
                ) {
                    Some(v) => Some(v),
                    None => assoc_lookup(set_cols_entries(old(self).set_columns), k),
                }),
            final(self).where_clauses == old(self).where_clauses,
            final(self).tables == old(self).tables,
            final(self).select_columns == old(self).select_columns,
            final(self).joins == old(self).joins,
    {
        let mut cols = match self.set_columns.take() {
            Some(c) => c,
            None => Vec::new(),
        };
        let ghost pre = cols@;
        let n = column_and_values.len();
        let mut i: usize = 0;
        while i < n
            invariant
                n == column_and_values@.len(),
                i <= n,
                assoc_unique(cols@),
                forall|k: Seq<char>|
                    assoc_lookup(cols@, k) == (match assoc_lookup(
                        column_and_values@.subrange(0, i as int),
                        k,
                    ) {
                        Some(v) => Some(v),
                        None => assoc_lookup(pre, k),
                    }),
            decreases n - i,
        {
            assoc_set(
                &mut cols,
                column_and_values[i].0.as_str(),
                column_and_values[i].1.as_str(),
            );
            i = i + 1;
            proof {
                lemma_assoc_lookup_snoc(column_and_values@, i as int);
            }
        }
        proof {
            assert(column_and_values@.subrange(0, n as int) =~= column_and_values@);
        }
        self.set_columns = Some(cols);
    }

    /// The update payload has no repeated column names.
    pub open spec fn set_cols_unique(self) -> bool {
        assoc_unique(set_cols_entries(self.set_columns))
    }

    /// Appends one column to the selection, allocating it first if the
    /// builder selected all columns so far.
    pub fn select(&mut self, column: &str)
        ensures
            final(self).select_columns is Some,
            opt_cols_view(final(self).select_columns) == opt_cols_view(
                old(self).select_columns,
            ).push(column@),
            final(self).where_clauses == old(self).where_clauses,
            final(self).tables == old(self).tables,
            final(self).set_columns == old(self).set_columns,
            final(self).joins == old(self).joins,
    {
        let mut cols = match self.select_columns.take() {
            Some(c) => c,
            None => Vec::new(),
        };
        cols.push(column.to_owned());
        self.select_columns = Some(cols);
        proof {
            assert(opt_cols_view(self.select_columns) =~= opt_cols_view(
                old(self).select_columns,
            ).push(column@));
        }
    }

    /// Appends several columns to the selection.
    pub fn select_multiple(&mut self, columns: Vec<String>)
        ensures
            final(self).select_columns is Some,
            opt_cols_view(final(self).select_columns) == opt_cols_view(old(self).select_columns)
                + strs_view(columns@),
            final(self).where_clauses == old(self).where_clauses,
            final(self).tables == old(self).tables,
            final(self).set_columns == old(self).set_columns,
            final(self).joins == old(self).joins,
    {
        let mut cols = match self.select_columns.take() {
            Some(c) => c,
            None => Vec::new(),
        };
        extend_strings(&mut cols, &columns);
        self.select_columns = Some(cols);
        proof {
            assert(opt_cols_view(self.select_columns) =~= opt_cols_view(old(self).select_columns)
                + strs_view(columns@));
        }
    }

    /// Appends a raw tagged condition. The caller supplies a tag that fits
    /// the position: the first entry carries no connective, later entries
    /// carry one.
    pub fn where_(&mut self, where_clause: WhereJoinOperator)
        requires
            old(self).where_clauses@.len() == 0 <==> where_clause is First,
        ensures
            final(self).where_clauses@ == old(self).where_clauses@.push(where_clause),
            same_shape(*old(self), *final(self)),
    {
        self.where_clauses.push(where_clause);
    }

    /// The bare-call policy: the first condition of a builder carries no
    /// connective, every later bare call joins with AND.
    fn first_or_and(&mut self, condition: Condition)
        ensures
            appends_condition(
                *old(self),
                *final(self),
                condition.column@,
                condition.operator,
                condition.value,
                None,
            ),
    {
        if self.where_clauses.len() == 0 {
            self.where_(WhereJoinOperator::First(condition));
        } else {
            self.where_(WhereJoinOperator::And(condition));
        }
        proof {
            assert(self.where_clauses@.drop_last() =~= old(self).where_clauses@);
        }
    }

    /// Appends one condition under the connective policy: the first
    /// condition is tagged as first whatever was asked, a later one carries
    /// the requested connective, with AND for a bare call.
    pub fn where_operator(
        &mut self,
        column: &str,
        operator: Operator,
        value: Value,
        and_or: Option<WhereJoin>,
    )
        requires
            condition_fits(operator, value),
        ensures
            appends_condition(*old(self), *final(self), column@, operator, value, and_or),
    {
        let condition = Condition::new(column, operator, value);
        if self.where_clauses.len() == 0 {
            self.where_(WhereJoinOperator::First(condition));
        } else {
            match and_or {
                Some(WhereJoin::Or) => self.where_(WhereJoinOperator::Or(condition)),
                _ => self.where_(WhereJoinOperator::And(condition)),
            }
        }
        proof {
            assert(self.where_clauses@.drop_last() =~= old(self).where_clauses@);
        }
    }

    /// Appends a join specification.
    pub fn join(
        &mut self,
        table: &str,
        left_table: &str,
        operator: &str,
        right_table: &str,
        join_type: JoinType,
        select_columns: Option<Vec<String>>,
    )
        ensures
            final(self).joins is Some,
            final(self).joins->0@.len() == joins_len(old(self).joins) + 1,
            old(self).joins is Some ==> final(self).joins->0@.drop_last() == old(self).joins->0@,
            old(self).joins is None ==> final(self).joins->0@.len() == 1,
            ({
                let j = final(self).joins->0@.last();
                &&& j.table@ == table@
                &&& j.join_clause@ == join_clause_view(left_table@, operator@, right_table@)
                &&& j.join_type == join_type
                &&& j.select_columns == select_columns
            }),
            final(self).where_clauses == old(self).where_clauses,
            final(self).tables == old(self).tables,
            final(self).select_columns == old(self).select_columns,
            final(self).set_columns == old(self).set_columns,
    {
        let mut js = match self.joins.take() {
            Some(j) => j,
            None => Vec::new(),
        };
        let join = JoinQueryBuilder::new(
            table,
            left_table,
            operator,
            right_table,
            join_type,
            select_columns,
        );
        js.push(join);
        self.joins = Some(js);
    }

    /// Appends a LEFT JOIN selecting all columns of the joined table.
    pub fn left_join(&mut self, table: &str, left_table: &str, operator: &str, right_table: &str)
        ensures
            final(self).joins is Some,
            final(self).joins->0@.len() == joins_len(old(self).joins) + 1,
            old(self).joins is Some ==> final(self).joins->0@.drop_last() == old(self).joins->0@,
            ({
                let j = final(self).joins->0@.last();
                &&& j.table@ == table@
                &&& j.join_clause@ == join_clause_view(left_table@, operator@, right_table@)
                &&& j.join_type == JoinType::Left
                &&& j.select_columns is None
            }),
            final(self).where_clauses == old(self).where_clauses,
            final(self).tables == old(self).tables,
            final(self).select_columns == old(self).select_columns,
            final(self).set_columns == old(self).set_columns,
    {
        self.join(table, left_table, operator, right_table, JoinType::Left, None);
    }

    /// Appends a LEFT JOIN selecting the given columns of the joined table.
    pub fn left_join_and_select(
        &mut self,
        table: &str,
        left_table: &str,
        operator: &str,
        right_table: &str,
        select_columns: Vec<String>,
    )
        ensures
            final(self).joins is Some,
            final(self).joins->0@.len() == joins_len(old(self).joins) + 1,
            old(self).joins is Some ==> final(self).joins->0@.drop_last() == old(self).joins->0@,
            ({
                let j = final(self).joins->0@.last();
                &&& j.table@ == table@
                &&& j.join_clause@ == join_clause_view(left_table@, operator@, right_table@)
                &&& j.join_type == JoinType::Left
                &&& j.select_columns == Some(select_columns)
            }),
            final(self).where_clauses == old(self).where_clauses,
            final(self).tables == old(self).tables,
            final(self).select_columns == old(self).select_columns,
            final(self).set_columns == old(self).set_columns,
    {
        self.join(table, left_table, operator, right_table, JoinType::Left, Some(select_columns));
    }
}

impl QueryBuilder {
    pub fn eq(&mut self, column: &str, value: Value)
        requires
            value.is_scalar(),
        ensures
            appends_condition(*old(self), *final(self), column@, Operator::Equal, value, None),
    {
        self.where_operator(column, Operator::Equal, value, None);
    }

    pub fn and_eq(&mut self, column: &str, value: Value)
        requires
            value.is_scalar(),
        ensures
            appends_condition(
                *old(self),
                *final(self),
                column@,
                Operator::Equal,
                value,
                Some(WhereJoin::And),
            ),
    {
        self.where_operator(column, Operator::Equal, value, Some(WhereJoin::And));
    }

    pub fn or_eq(&mut self, column: &str, value: Value)
        requires
            value.is_scalar(),
        ensures
            appends_condition(
                *old(self),
                *final(self),
                column@,
                Operator::Equal,
                value,
                Some(WhereJoin::Or),
            ),
    {
        self.where_operator(column, Operator::Equal, value, Some(WhereJoin::Or));
    }

    pub fn not_eq(&mut self, column: &str, value: Value)
        requires
            value.is_scalar(),
        ensures
            appends_condition(*old(self), *final(self), column@, Operator::NotEqual, value, None),
    {
        self.where_operator(column, Operator::NotEqual, value, None);
    }

    pub fn and_not_eq(&mut self, column: &str, value: Value)
        requires
            value.is_scalar(),
        ensures
            appends_condition(
                *old(self),
                *final(self),
                column@,
                Operator::NotEqual,
                value,
                Some(WhereJoin::And),
            ),
    {
        self.where_operator(column, Operator::NotEqual, value, Some(WhereJoin::And));
    }

    pub fn or_not_eq(&mut self, column: &str, value: Value)
        requires
            value.is_scalar(),
        ensures
            appends_condition(
                *old(self),
                *final(self),
                column@,
                Operator::NotEqual,
                value,
                Some(WhereJoin::Or),
            ),
    {
        self.where_operator(column, Operator::NotEqual, value, Some(WhereJoin::Or));
    }

    pub fn gt(&mut self, column: &str, value: Value)
        requires
            value.is_scalar(),
        ensures
            appends_condition(*old(self), *final(self), column@, Operator::Greater, value, None),
    {
        self.where_operator(column, Operator::Greater, value, None);
    }

    pub fn and_gt(&mut self, column: &str, value: Value)
        requires
            value.is_scalar(),
        ensures
            appends_condition(
                *old(self),
                *final(self),
                column@,
                Operator::Greater,
                value,
                Some(WhereJoin::And),
            ),
    {
        self.where_operator(column, Operator::Greater, value, Some(WhereJoin::And));
    }

    pub fn or_gt(&mut self, column: &str, value: Value)
        requires
            value.is_scalar(),
        ensures
            appends_condition(
                *old(self),
                *final(self),
                column@,
                Operator::Greater,
                value,
                Some(WhereJoin::Or),
            ),
    {
        self.where_operator(column, Operator::Greater, value, Some(WhereJoin::Or));
    }

    pub fn ngt(&mut self, column: &str, value: Value)
        requires
            value.is_scalar(),
        ensures
            appends_condition(
                *old(self),
                *final(self),
                column@,
                Operator::NotGreater,
                value,
                None,
            ),
    {
        self.where_operator(column, Operator::NotGreater, value, None);
    }

    pub fn and_ngt(&mut self, column: &str, value: Value)
        requires
            value.is_scalar(),
        ensures
            appends_condition(
                *old(self),
                *final(self),
                column@,
                Operator::NotGreater,
                value,
                Some(WhereJoin::And),
            ),
    {
        self.where_operator(column, Operator::NotGreater, value, Some(WhereJoin::And));
    }

    pub fn or_ngt(&mut self, column: &str, value: Value)
        requires
            value.is_scalar(),
        ensures
            appends_condition(
                *old(self),
                *final(self),
                column@,
                Operator::NotGreater,
                value,
                Some(WhereJoin::Or),
            ),
    {
        self.where_operator(column, Operator::NotGreater, value, Some(WhereJoin::Or));
    }

    pub fn gt_or_eq(&mut self, column: &str, value: Value)
        requires
            value.is_scalar(),
        ensures
            appends_condition(
                *old(self),
                *final(self),
                column@,
                Operator::GreaterOrEqual,
                value,
                None,
            ),
    {
        self.where_operator(column, Operator::GreaterOrEqual, value, None);
    }

    pub fn and_gt_or_eq(&mut self, column: &str, value: Value)
        requires
            value.is_scalar(),
        ensures
            appends_condition(
                *old(self),
                *final(self),
                column@,
                Operator::GreaterOrEqual,
                value,
                Some(WhereJoin::And),
            ),
    {
        self.where_operator(column, Operator::GreaterOrEqual, value, Some(WhereJoin::And));
    }

    pub fn or_gt_or_eq(&mut self, column: &str, value: Value)
        requires
            value.is_scalar(),
        ensures
            appends_condition(
                *old(self),
                *final(self),
                column@,
                Operator::GreaterOrEqual,
                value,
                Some(WhereJoin::Or),
            ),
    {
        self.where_operator(column, Operator::GreaterOrEqual, value, Some(WhereJoin::Or));
    }

    pub fn not_gt_or_eq(&mut self, column: &str, value: Value)
        requires
            value.is_scalar(),
        ensures
            appends_condition(
                *old(self),
                *final(self),
                column@,
                Operator::NotGreaterOrEqual,
                value,
                None,
            ),
    {
        self.where_operator(column, Operator::NotGreaterOrEqual, value, None);
    }

    pub fn and_not_gt_or_eq(&mut self, column: &str, value: Value)
        requires
            value.is_scalar(),
        ensures
            appends_condition(
                *old(self),
                *final(self),
                column@,
                Operator::NotGreaterOrEqual,
                value,
                Some(WhereJoin::And),
            ),
    {
        self.where_operator(column, Operator::NotGreaterOrEqual, value, Some(WhereJoin::And));
    }

    pub fn or_not_gt_or_eq(&mut self, column: &str, value: Value)
        requires
            value.is_scalar(),
        ensures
            appends_condition(
                *old(self),
                *final(self),
                column@,
                Operator::NotGreaterOrEqual,
                value,
                Some(WhereJoin::Or),
            ),
    {
        self.where_operator(column, Operator::NotGreaterOrEqual, value, Some(WhereJoin::Or));
    }

    pub fn le(&mut self, column: &str, value: Value)
        requires
            value.is_scalar(),
        ensures
            appends_condition(*old(self), *final(self), column@, Operator::Less, value, None),
    {
        self.where_operator(column, Operator::Less, value, None);
    }

    pub fn and_le(&mut self, column: &str, value: Value)
        requires
            value.is_scalar(),
        ensures
            appends_condition(
                *old(self),
                *final(self),
                column@,
                Operator::Less,
                value,
                Some(WhereJoin::And),
            ),
    {
        self.where_operator(column, Operator::Less, value, Some(WhereJoin::And));
    }

    pub fn or_le(&mut self, column: &str, value: Value)
        requires
            value.is_scalar(),
        ensures
            appends_condition(
                *old(self),
                *final(self),
                column@,
                Operator::Less,
                value,
                Some(WhereJoin::Or),
            ),
    {
        self.where_operator(column, Operator::Less, value, Some(WhereJoin::Or));
    }

    pub fn le_or_eq(&mut self, column: &str, value: Value)
        requires
            value.is_scalar(),
        ensures
            appends_condition(
                *old(self),
                *final(self),
                column@,
                Operator::LessOrEqual,
                value,
                None,
            ),
    {
        self.where_operator(column, Operator::LessOrEqual, value, None);
    }

    pub fn and_le_or_eq(&mut self, column: &str, value: Value)
        requires
            value.is_scalar(),
        ensures
            appends_condition(
                *old(self),
                *final(self),
                column@,
                Operator::LessOrEqual,
                value,
                Some(WhereJoin::And),
            ),
    {
        self.where_operator(column, Operator::LessOrEqual, value, Some(WhereJoin::And));
    }

    pub fn or_le_or_eq(&mut self, column: &str, value: Value)
        requires
            value.is_scalar(),
        ensures
            appends_condition(
                *old(self),
                *final(self),
                column@,
                Operator::LessOrEqual,
                value,
                Some(WhereJoin::Or),
            ),
    {
        self.where_operator(column, Operator::LessOrEqual, value, Some(WhereJoin::Or));
    }

    pub fn not_le(&mut self, column: &str, value: Value)
        requires
            value.is_scalar(),
        ensures
            appends_condition(*old(self), *final(self), column@, Operator::NotLess, value, None),
    {
        self.where_operator(column, Operator::NotLess, value, None);
    }

    pub fn and_nle(&mut self, column: &str, value: Value)
        requires
            value.is_scalar(),
        ensures
            appends_condition(
                *old(self),
                *final(self),
                column@,
                Operator::NotLess,
                value,
                Some(WhereJoin::And),
            ),
    {
        self.where_operator(column, Operator::NotLess, value, Some(WhereJoin::And));
    }

    pub fn or_nle(&mut self, column: &str, value: Value)
        requires
            value.is_scalar(),
        ensures
            appends_condition(
                *old(self),
                *final(self),
                column@,
                Operator::NotLess,
                value,
                Some(WhereJoin::Or),
            ),
    {
        self.where_operator(column, Operator::NotLess, value, Some(WhereJoin::Or));
    }

    pub fn nle_or_eq(&mut self, column: &str, value: Value)
        requires
            value.is_scalar(),
        ensures
            appends_condition(
                *old(self),
                *final(self),
                column@,
                Operator::NotLessOrEqual,
                value,
                None,
            ),
    {
        self.where_operator(column, Operator::NotLessOrEqual, value, None);
    }

    pub fn and_nle_or_eq(&mut self, column: &str, value: Value)
        requires
            value.is_scalar(),
        ensures
            appends_condition(
                *old(self),
                *final(self),
                column@,
                Operator::NotLessOrEqual,
                value,
                Some(WhereJoin::And),
            ),
    {
        self.where_operator(column, Operator::NotLessOrEqual, value, Some(WhereJoin::And));
    }

    pub fn or_nle_or_eq(&mut self, column: &str, value: Value)
        requires
            value.is_scalar(),
        ensures
            appends_condition(
                *old(self),
                *final(self),
                column@,
                Operator::NotLessOrEqual,
                value,
                Some(WhereJoin::Or),
            ),
    {
        self.where_operator(column, Operator::NotLessOrEqual, value, Some(WhereJoin::Or));
    }

    pub fn like(&mut self, column: &str, value: Value)
        requires
            value.is_scalar(),
        ensures
            appends_condition(*old(self), *final(self), column@, Operator::Like, value, None),
    {
        self.where_operator(column, Operator::Like, value, None);
    }

    pub fn and_like(&mut self, column: &str, value: Value)
        requires
            value.is_scalar(),
        ensures
            appends_condition(
                *old(self),
                *final(self),
                column@,
                Operator::Like,
                value,
                Some(WhereJoin::And),
            ),
    {
        self.where_operator(column, Operator::Like, value, Some(WhereJoin::And));
    }

    pub fn or_like(&mut self, column: &str, value: Value)
        requires
            value.is_scalar(),
        ensures
            appends_condition(
                *old(self),
                *final(self),
                column@,
                Operator::Like,
                value,
                Some(WhereJoin::Or),
            ),
    {
        self.where_operator(column, Operator::Like, value, Some(WhereJoin::Or));
    }

    pub fn nlike(&mut self, column: &str, value: Value)
        requires
            value.is_scalar(),
        ensures
            appends_condition(*old(self), *final(self), column@, Operator::NotLike, value, None),
    {
        self.where_operator(column, Operator::NotLike, value, None);
    }

    pub fn and_nlike(&mut self, column: &str, value: Value)
        requires
            value.is_scalar(),
        ensures
            appends_condition(
                *old(self),
                *final(self),
                column@,
                Operator::NotLike,
                value,
                Some(WhereJoin::And),
            ),
    {
        self.where_operator(column, Operator::NotLike, value, Some(WhereJoin::And));
    }

    pub fn or_nlike(&mut self, column: &str, value: Value)
        requires
            value.is_scalar(),
        ensures
            appends_condition(
                *old(self),
                *final(self),
                column@,
                Operator::NotLike,
                value,
                Some(WhereJoin::Or),
            ),
    {
        self.where_operator(column, Operator::NotLike, value, Some(WhereJoin::Or));
    }

    pub fn is_null(&mut self, column: &str)
        ensures
            appends_condition(
                *old(self),
                *final(self),
                column@,
                Operator::Null,
                Value::Null,
                None,
            ),
    {
        self.where_operator(column, Operator::Null, Value::Null, None);
    }

    pub fn and_is_null(&mut self, column: &str)
        ensures
            appends_condition(
                *old(self),
                *final(self),
                column@,
                Operator::Null,
                Value::Null,
                Some(WhereJoin::And),
            ),
    {
        self.where_operator(column, Operator::Null, Value::Null, Some(WhereJoin::And));
    }

    pub fn or_is_null(&mut self, column: &str)
        ensures
            appends_condition(
                *old(self),
                *final(self),
                column@,
                Operator::Null,
                Value::Null,
                Some(WhereJoin::Or),
            ),
    {
        self.where_operator(column, Operator::Null, Value::Null, Some(WhereJoin::Or));
    }

    pub fn is_not_null(&mut self, column: &str)
        ensures
            appends_condition(
                *old(self),
                *final(self),
                column@,
                Operator::NotNull,
                Value::Null,
                None,
            ),
    {
        self.where_operator(column, Operator::NotNull, Value::Null, None);
    }

    pub fn and_is_not_null(&mut self, column: &str)
        ensures
            appends_condition(
                *old(self),
                *final(self),
                column@,
                Operator::NotNull,
                Value::Null,
                Some(WhereJoin::And),
            ),
    {
        self.where_operator(column, Operator::NotNull, Value::Null, Some(WhereJoin::And));
    }

    pub fn or_is_not_null(&mut self, column: &str)
        ensures
            appends_condition(
                *old(self),
                *final(self),
                column@,
                Operator::NotNull,
                Value::Null,
                Some(WhereJoin::Or),
            ),
    {
        self.where_operator(column, Operator::NotNull, Value::Null, Some(WhereJoin::Or));
    }

    pub fn is_in(&mut self, column: &str, value: Value)
        requires
            value.is_vector(),
        ensures
            appends_condition(*old(self), *final(self), column@, Operator::In, value, None),
    {
        self.where_operator(column, Operator::In, value, None);
    }

    pub fn and_is_in(&mut self, column: &str, value: Value)
        requires
            value.is_vector(),
        ensures
            appends_condition(
                *old(self),
                *final(self),
                column@,
                Operator::In,
                value,
                Some(WhereJoin::And),
            ),
    {
        self.where_operator(column, Operator::In, value, Some(WhereJoin::And));
    }

    pub fn or_is_in(&mut self, column: &str, value: Value)
        requires
            value.is_vector(),
        ensures
            appends_condition(
                *old(self),
                *final(self),
                column@,
                Operator::In,
                value,
                Some(WhereJoin::Or),
            ),
    {
        self.where_operator(column, Operator::In, value, Some(WhereJoin::Or));
    }

    pub fn is_not_in(&mut self, column: &str, value: Value)
        requires
            value.is_vector(),
        ensures
            appends_condition(*old(self), *final(self), column@, Operator::NotIn, value, None),
    {
        self.where_operator(column, Operator::NotIn, value, None);
    }

    pub fn and_is_not_in(&mut self, column: &str, value: Value)
        requires
            value.is_vector(),
        ensures
            appends_condition(
                *old(self),
                *final(self),
                column@,
                Operator::NotIn,
                value,
                Some(WhereJoin::And),
            ),
    {
        self.where_operator(column, Operator::NotIn, value, Some(WhereJoin::And));
    }

    pub fn or_is_not_in(&mut self, column: &str, value: Value)
        requires
            value.is_vector(),
        ensures
            appends_condition(
                *old(self),
                *final(self),
                column@,
                Operator::NotIn,
                value,
                Some(WhereJoin::Or),
            ),
    {
        self.where_operator(column, Operator::NotIn, value, Some(WhereJoin::Or));
    }

    /// Both bounds inclusive: `column >= first AND column <= last`.
    pub fn between(&mut self, column: &str, first: Value, last: Value)
        requires
            first.is_scalar(),
            last.is_scalar(),
        ensures
            appends_bounds(
                *old(self),
                *final(self),
                column@,
                Operator::GreaterOrEqual,
                Operator::LessOrEqual,
                first,
                last,
                None,
            ),
    {
        self.gt_or_eq(column, first);
        self.and_le_or_eq(column, last);
        proof {
            lemma_two_appended(*old(self), *self);
        }
    }

    pub fn and_between(&mut self, column: &str, first: Value, last: Value)
        requires
            first.is_scalar(),
            last.is_scalar(),
        ensures
            appends_bounds(
                *old(self),
                *final(self),
                column@,
                Operator::GreaterOrEqual,
                Operator::LessOrEqual,
                first,
                last,
                Some(WhereJoin::And),
            ),
    {
        self.and_gt_or_eq(column, first);
        self.and_le_or_eq(column, last);
        proof {
            lemma_two_appended(*old(self), *self);
        }
    }

    pub fn or_between(&mut self, column: &str, first: Value, last: Value)
        requires
            first.is_scalar(),
            last.is_scalar(),
        ensures
            appends_bounds(
                *old(self),
                *final(self),
                column@,
                Operator::GreaterOrEqual,
                Operator::LessOrEqual,
                first,
                last,
                Some(WhereJoin::Or),
            ),
    {
        self.or_gt_or_eq(column, first);
        self.and_le_or_eq(column, last);
        proof {
            lemma_two_appended(*old(self), *self);
        }
    }

    /// The negated form: `NOT column >= first AND NOT column <= last`.
    pub fn not_between(&mut self, column: &str, first: Value, last: Value)
        requires
            first.is_scalar(),
            last.is_scalar(),
        ensures
            appends_bounds(
                *old(self),
                *final(self),
                column@,
                Operator::NotGreaterOrEqual,
                Operator::NotLessOrEqual,
                first,
                last,
                None,
            ),
    {
        self.not_gt_or_eq(column, first);
        self.and_nle_or_eq(column, last);
        proof {
            lemma_two_appended(*old(self), *self);
        }
    }

    pub fn and_not_between(&mut self, column: &str, first: Value, last: Value)
        requires
            first.is_scalar(),
            last.is_scalar(),
        ensures
            appends_bounds(
                *old(self),
                *final(self),
                column@,
                Operator::NotGreaterOrEqual,
                Operator::NotLessOrEqual,
                first,
                last,
                Some(WhereJoin::And),
            ),
    {
        self.and_not_gt_or_eq(column, first);
        self.and_nle_or_eq(column, last);
        proof {
            lemma_two_appended(*old(self), *self);
        }
    }

    pub fn or_not_between(&mut self, column: &str, first: Value, last: Value)
        requires
            first.is_scalar(),
            last.is_scalar(),
        ensures
            appends_bounds(
                *old(self),
                *final(self),
                column@,
                Operator::NotGreaterOrEqual,
                Operator::NotLessOrEqual,
                first,
                last,
                Some(WhereJoin::Or),
            ),
    {
        self.or_not_gt_or_eq(column, first);
        self.and_nle_or_eq(column, last);
        proof {
            lemma_two_appended(*old(self), *self);
        }
    }
}

/// After two single appends the prior entries stand unchanged as a prefix.
proof fn lemma_two_appended(pre: QueryBuilder, post: QueryBuilder)
    requires
        post.where_clauses@.len() == pre.where_clauses@.len() + 2,
        post.where_clauses@.drop_last().drop_last() == pre.where_clauses@,
    ensures
        post.where_clauses@.subrange(0, pre.where_clauses@.len() as int) == pre.where_clauses@,
        post.where_clauses@[pre.where_clauses@.len() as int] == post.where_clauses@.drop_last().last(),
{
    let n = pre.where_clauses@.len() as int;
    assert(post.where_clauses@.subrange(0, n) =~= pre.where_clauses@);
}

/// The entries an optional update payload holds.
pub open spec fn set_cols_entries(o: Option<Vec<(String, String)>>) -> Seq<(String, String)> {
    match o {
        Option::None => Seq::empty(),
        Option::Some(v) => v@,
    }
}

/// How many join specifications an optional join list holds.
pub open spec fn joins_len(o: Option<Vec<JoinQueryBuilder>>) -> nat {
    match o {
        Option::None => 0,
        Option::Some(v) => v@.len(),
    }
}

/// A lookup in a prefix extended by one entry goes to that entry first.
proof fn lemma_assoc_lookup_snoc(s: Seq<(String, String)>, i: int)
    requires
        0 < i <= s.len(),
    ensures
        forall|k: Seq<char>|
            assoc_lookup(s.subrange(0, i), k) == (if s[i - 1].0@ == k {
                Some(s[i - 1].1@)
            } else {
                assoc_lookup(s.subrange(0, i - 1), k)
            }),
{
    assert(s.subrange(0, i).drop_last() =~= s.subrange(0, i - 1));
    assert(s.subrange(0, i).last() == s[i - 1]);
}

} // verus!
