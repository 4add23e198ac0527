//! The MySQL dialect translator: turns a query builder into a parameterized
//! SELECT statement whose placeholder positions and parameter list stay in
//! lockstep.

use vstd::prelude::*;
use vstd::string::StringExecFns;

use crate::query::Condition;
use crate::query::JoinQueryBuilder;
use crate::query::Operator;
use crate::query::QueryBuilder;
use crate::query::WhereJoin;
use crate::query::WhereJoinOperator;
use crate::query::entry_condition;
use crate::query::strs_view;
use crate::query_values::Value;
use crate::text::count_char;
use crate::text::dec_str_int;
use crate::text::dec_str_nat;
use crate::text::i64_to_dec;
use crate::text::lemma_count_char_concat;
use crate::text::u64_to_dec;

verus! {

/// How a boolean binds: `1` for true, `0` for false.
pub open spec fn bool_sql(b: bool) -> Seq<char> {
    if b {
        seq!['1']
    } else {
        seq!['0']
    }
}

/// `n` placeholders separated by commas: `?,?,?`.
pub open spec fn placeholders(n: nat) -> Seq<char>
    decreases n,
{
    if n == 0 {
        Seq::empty()
    } else if n == 1 {
        seq!['?']
    } else {
        placeholders((n - 1) as nat) + seq![',', '?']
    }
}

/// Items joined by single commas.
pub open spec fn commas(items: Seq<Seq<char>>) -> Seq<char>
    decreases items.len(),
{
    if items.len() == 0 {
        Seq::empty()
    } else if items.len() == 1 {
        items[0]
    } else {
        commas(items.drop_last()) + seq![','] + items.last()
    }
}

/// The all-columns selection for each target table: ` t.*, u.*`.
pub open spec fn tables_star(tables: Seq<Seq<char>>) -> Seq<char>
    decreases tables.len(),
{
    if tables.len() == 0 {
        Seq::empty()
    } else if tables.len() == 1 {
        seq![' '] + tables[0] + seq!['.', '*']
    } else {
        tables_star(tables.drop_last()) + seq![',', ' '] + tables.last() + seq!['.', '*']
    }
}

/// The join specifications an optional join list holds.
pub open spec fn opt_joins(o: Option<Vec<JoinQueryBuilder>>) -> Seq<JoinQueryBuilder> {
    match o {
        Option::None => Seq::empty(),
        Option::Some(v) => v@,
    }
}

/// The middle text of one binary comparison, spaces included.
pub open spec fn op_infix(op: Operator) -> Seq<char> {
    match op {
        Operator::Equal => seq![' ', '=', ' '],
        Operator::NotEqual => seq![' ', '<', '>', ' '],
        Operator::Greater => seq![' ', '>', ' '],
        Operator::NotGreater => seq![' ', '>', ' '],
        Operator::GreaterOrEqual => seq![' ', '>', '=', ' '],
        Operator::NotGreaterOrEqual => seq![' ', '>', '=', ' '],
        Operator::Less => seq![' ', '<', ' '],
        Operator::NotLess => seq![' ', '<', ' '],
        Operator::LessOrEqual => seq![' ', '<', '=', ' '],
        Operator::NotLessOrEqual => seq![' ', '<', '=', ' '],
        Operator::Like => seq![' ', 'l', 'i', 'k', 'e', ' '],
        Operator::NotLike => seq![' ', 'l', 'i', 'k', 'e', ' '],
        _ => Seq::empty(),
    }
}

/// Whether a binary comparison renders under a `NOT ` prefix.
pub open spec fn op_negated(op: Operator) -> bool {
    match op {
        Operator::NotGreater
        | Operator::NotGreaterOrEqual
        | Operator::NotLess
        | Operator::NotLessOrEqual
        | Operator::NotLike => true,
        _ => false,
    }
}

/// What stands on the right of a binary comparison: a parenthesized
/// sub-select for a sub-query value, one placeholder otherwise.
pub open spec fn value_rhs(v: Value) -> Seq<char>
    decreases v, 5int,
{
    match v {
        Value::SubQuery(q) => seq!['('] + query_sql(*q) + seq![')'],
        _ => seq!['?'],
    }
}

/// The parameters a value binds, in element order, as the strings handed to
/// the driver.
pub open spec fn value_params(v: Value) -> Seq<Seq<char>>
    decreases v, 6int,
{
    match v {
        Value::Null => Seq::empty(),
        Value::I64(x) => seq![dec_str_int(x as int)],
        Value::U64(x) => seq![dec_str_nat(x as nat)],
        Value::Text(s) => seq![s@],
        Value::Bool(b) => seq![bool_sql(b)],
        Value::I64s(xs) => xs@.map_values(|x: i64| dec_str_int(x as int)),
        Value::U64s(xs) => xs@.map_values(|x: u64| dec_str_nat(x as nat)),
        Value::Texts(xs) => strs_view(xs@),
        Value::Bools(xs) => xs@.map_values(|b: bool| bool_sql(b)),
        Value::SubQuery(q) => query_params(*q),
    }
}

/// The SQL fragment one condition renders as.
pub open spec fn cond_sql(c: Condition) -> Seq<char>
    decreases c, 7int,
{
    match c.operator {
        Operator::Null => c.column@ + seq![' ', 'I', 'S', ' ', 'N', 'U', 'L', 'L'],
        Operator::NotNull => c.column@ + seq![
            ' ',
            'I',
            'S',
            ' ',
            'N',
            'O',
            'T',
            ' ',
            'N',
            'U',
            'L',
            'L',
        ],
        Operator::In => c.column@ + seq![' ', 'I', 'N', ' ', '('] + placeholders(
            c.value.vector_len(),
        ) + seq![')'],
        Operator::NotIn => c.column@ + seq![' ', 'N', 'O', 'T', ' ', 'I', 'N', ' ', '(']
            + placeholders(c.value.vector_len()) + seq![')'],
        _ => (if op_negated(c.operator) {
            seq!['N', 'O', 'T', ' ']
        } else {
            Seq::empty()
        }) + c.column@ + op_infix(c.operator) + value_rhs(c.value),
    }
}

/// The parameters one condition binds: none for a null test.
pub open spec fn cond_params(c: Condition) -> Seq<Seq<char>>
    decreases c, 7int,
{
    match c.operator {
        Operator::Null | Operator::NotNull => Seq::empty(),
        _ => value_params(c.value),
    }
}

/// One tagged entry's fragment: the first condition carries no connective,
/// an AND entry is preceded by ` AND `, an OR entry by ` OR `.
pub open spec fn entry_sql(e: WhereJoinOperator) -> Seq<char>
    decreases e, 8int,
{
    match e {
        WhereJoinOperator::First(c) => cond_sql(c),
        WhereJoinOperator::And(c) => seq![' ', 'A', 'N', 'D', ' '] + cond_sql(c),
        WhereJoinOperator::Or(c) => seq![' ', 'O', 'R', ' '] + cond_sql(c),
    }
}

/// The condition list rendered left to right.
pub open spec fn entries_sql(s: Seq<WhereJoinOperator>) -> Seq<char>
    decreases s, 9int,
{
    if s.len() == 0 {
        Seq::empty()
    } else {
        entries_sql(s.drop_last()) + entry_sql(s.last())
    }
}

/// The parameters of the condition list, in the same left-to-right order
/// the fragments are rendered.
pub open spec fn entries_params(s: Seq<WhereJoinOperator>) -> Seq<Seq<char>>
    decreases s, 9int,
{
    if s.len() == 0 {
        Seq::empty()
    } else {
        entries_params(s.drop_last()) + cond_params(entry_condition(s.last()))
    }
}

/// The full WHERE clause of a non-empty condition list.
pub open spec fn where_sql(s: Seq<WhereJoinOperator>) -> Seq<char>
    decreases s, 10int,
{
    seq!['W', 'H', 'E', 'R', 'E', ' '] + entries_sql(s)
}

/// The selected-fields part: explicit columns, or every target table's
/// columns when nothing was selected.
pub open spec fn select_fields_sql(q: QueryBuilder) -> Seq<char> {
    match q.select_columns {
        Option::Some(cols) => seq![' '] + commas(strs_view(cols@)),
        Option::None => tables_star(strs_view(q.tables@)),
    }
}

/// One join's contribution to the selected fields.
pub open spec fn join_field_sql(j: JoinQueryBuilder) -> Seq<char> {
    match j.select_columns {
        Option::Some(cols) => seq![',', ' '] + commas(strs_view(cols@)),
        Option::None => seq![',', ' '] + j.table@ + seq!['.', '*'],
    }
}

/// Every join's contribution to the selected fields, in order.
pub open spec fn join_fields_sql(js: Seq<JoinQueryBuilder>) -> Seq<char>
    decreases js.len(),
{
    if js.len() == 0 {
        Seq::empty()
    } else {
        join_fields_sql(js.drop_last()) + join_field_sql(js.last())
    }
}

/// One join clause: ` <kind> join <table> on <clause>`.
pub open spec fn join_clause_sql(j: JoinQueryBuilder) -> Seq<char> {
    seq![' '] + j.join_type.keyword() + seq![' ', 'j', 'o', 'i', 'n', ' '] + j.table@ + seq![
        ' ',
        'o',
        'n',
        ' ',
    ] + j.join_clause@
}

/// Every join clause, in order.
pub open spec fn join_clauses_sql(js: Seq<JoinQueryBuilder>) -> Seq<char>
    decreases js.len(),
{
    if js.len() == 0 {
        Seq::empty()
    } else {
        join_clauses_sql(js.drop_last()) + join_clause_sql(js.last())
    }
}

/// The whole SELECT statement a builder renders as.
pub open spec fn query_sql(q: QueryBuilder) -> Seq<char>
    decreases q, 10int,
{
    seq!['S', 'E', 'L', 'E', 'C', 'T'] + select_fields_sql(q) + join_fields_sql(opt_joins(q.joins))
        + seq![' ', 'F', 'R', 'O', 'M', ' '] + commas(strs_view(q.tables@)) + join_clauses_sql(
        opt_joins(q.joins),
    ) + (if q.where_clauses@.len() == 0 {
        Seq::<char>::empty()
    } else {
        seq![' '] + where_sql(q.where_clauses@)
    })
}

/// The whole parameter list a builder binds, in placeholder order.
pub open spec fn query_params(q: QueryBuilder) -> Seq<Seq<char>>
    decreases q, 10int,
{
    entries_params(q.where_clauses@)
}

/// A one-longer prefix renders as the shorter prefix plus the new entry.
proof fn lemma_entries_snoc(s: Seq<WhereJoinOperator>, i: int)
    requires
        0 <= i < s.len(),
    ensures
        entries_sql(s.subrange(0, i + 1)) == entries_sql(s.subrange(0, i)) + entry_sql(s[i]),
        entries_params(s.subrange(0, i + 1)) == entries_params(s.subrange(0, i)) + cond_params(
            entry_condition(s[i]),
        ),
{
    assert(s.subrange(0, i + 1).drop_last() =~= s.subrange(0, i));
    assert(s.subrange(0, i + 1).last() == s[i]);
}

/// A one-longer prefix of a comma join adds one comma and the new item.
proof fn lemma_commas_snoc(items: Seq<Seq<char>>, i: int)
    requires
        0 < i < items.len(),
    ensures
        commas(items.subrange(0, i + 1)) == commas(items.subrange(0, i)) + seq![','] + items[i],
{
    assert(items.subrange(0, i + 1).drop_last() =~= items.subrange(0, i));
    assert(items.subrange(0, i + 1).last() == items[i]);
}

/// A one-longer prefix of the all-columns selection adds one `, t.*` part.
proof fn lemma_tables_star_snoc(tables: Seq<Seq<char>>, i: int)
    requires
        0 < i < tables.len(),
    ensures
        tables_star(tables.subrange(0, i + 1)) == tables_star(tables.subrange(0, i)) + seq![
            ',',
            ' ',
        ] + tables[i] + seq!['.', '*'],
{
    assert(tables.subrange(0, i + 1).drop_last() =~= tables.subrange(0, i));
    assert(tables.subrange(0, i + 1).last() == tables[i]);
}

/// A one-longer prefix of the join lists adds one join's parts.
proof fn lemma_joins_snoc(js: Seq<JoinQueryBuilder>, i: int)
    requires
        0 <= i < js.len(),
    ensures
        join_fields_sql(js.subrange(0, i + 1)) == join_fields_sql(js.subrange(0, i))
            + join_field_sql(js[i]),
        join_clauses_sql(js.subrange(0, i + 1)) == join_clauses_sql(js.subrange(0, i))
            + join_clause_sql(js[i]),
{
    assert(js.subrange(0, i + 1).drop_last() =~= js.subrange(0, i));
    assert(js.subrange(0, i + 1).last() == js[i]);
}

/// The infix text of one binary comparison.
fn infix_str(op: &Operator) -> (r: &'static str)
    requires
        !(*op is Null || *op is NotNull || *op is In || *op is NotIn),
    ensures
        r@ == op_infix(*op),
{
    proof {
        reveal_strlit(" = ");
        reveal_strlit(" <> ");
        reveal_strlit(" > ");
        reveal_strlit(" >= ");
        reveal_strlit(" < ");
        reveal_strlit(" <= ");
        reveal_strlit(" like ");
    }
    let r = match op {
        Operator::Equal => " = ",
        Operator::NotEqual => " <> ",
        Operator::Greater => " > ",
        Operator::NotGreater => " > ",
        Operator::GreaterOrEqual => " >= ",
        Operator::NotGreaterOrEqual => " >= ",
        Operator::Less => " < ",
        Operator::NotLess => " < ",
        Operator::LessOrEqual => " <= ",
        Operator::NotLessOrEqual => " <= ",
        Operator::Like => " like ",
        _ => " like ",
    };
    proof {
        assert(r@ =~= op_infix(*op));
    }
    r
}

/// Whether the comparison takes a `NOT ` prefix.
fn negated(op: &Operator) -> (r: bool)
    ensures
        r == op_negated(*op),
{
    match op {
        Operator::NotGreater
        | Operator::NotGreaterOrEqual
        | Operator::NotLess
        | Operator::NotLessOrEqual
        | Operator::NotLike => true,
        _ => false,
    }
}

/// `n` placeholders separated by commas.
fn placeholders_exec(n: usize) -> (r: String)
    ensures
        r@ == placeholders(n as nat),
{
    proof {
        reveal_strlit("?");
        reveal_strlit(",?");
    }
    if n == 0 {
        return String::new();
    }
    let mut s = "?".to_owned();
    let mut i: usize = 1;
    while i < n
        invariant
            1 <= i <= n,
            s@ == placeholders(i as nat),
        decreases n - i,
    {
        s.append(",?");
        i = i + 1;
        proof {
            reveal_strlit(",?");
            assert(s@ =~= placeholders(i as nat));
        }
    }
    proof {
        assert(s@ =~= placeholders(n as nat));
    }
    s
}

/// Joins items with single commas.
fn commas_exec(items: &Vec<String>) -> (r: String)
    ensures
        r@ == commas(strs_view(items@)),
{
    let mut s = String::new();
    if items.len() == 0 {
        return s;
    }
    s.append(items[0].as_str());
    proof {
        assert(strs_view(items@).subrange(0, 1) =~= seq![items@[0]@]);
        assert(s@ =~= commas(strs_view(items@).subrange(0, 1)));
    }
    let n = items.len();
    let mut i: usize = 1;
    while i < n
        invariant
            1 <= i <= n,
            n == items@.len(),
            s@ == commas(strs_view(items@).subrange(0, i as int)),
        decreases n - i,
    {
        s.append(",");
        s.append(items[i].as_str());
        i = i + 1;
        proof {
            reveal_strlit(",");
            assert(strs_view(items@).len() == items@.len());
            lemma_commas_snoc(strs_view(items@), i - 1);
            assert(strs_view(items@)[i - 1] == items@[i - 1]@);
            assert(s@ =~= commas(strs_view(items@).subrange(0, i as int)));
        }
    }
    proof {
        assert(strs_view(items@).subrange(0, n as int) =~= strs_view(items@));
    }
    s
}

/// Renders ` t.*` for every target table, comma separated.
fn tables_star_exec(tables: &Vec<String>) -> (r: String)
    ensures
        r@ == tables_star(strs_view(tables@)),
{
    proof {
        reveal_strlit(" ");
        reveal_strlit(", ");
        reveal_strlit(".*");
    }
    let mut s = String::new();
    if tables.len() == 0 {
        return s;
    }
    s.append(" ");
    s.append(tables[0].as_str());
    s.append(".*");
    proof {
        assert(strs_view(tables@).subrange(0, 1) =~= seq![tables@[0]@]);
        assert(s@ =~= tables_star(strs_view(tables@).subrange(0, 1)));
    }
    let n = tables.len();
    let mut i: usize = 1;
    while i < n
        invariant
            1 <= i <= n,
            n == tables@.len(),
            s@ == tables_star(strs_view(tables@).subrange(0, i as int)),
        decreases n - i,
    {
        s.append(", ");
        s.append(tables[i].as_str());
        s.append(".*");
        i = i + 1;
        proof {
            reveal_strlit(", ");
            reveal_strlit(".*");
            assert(strs_view(tables@).len() == tables@.len());
            lemma_tables_star_snoc(strs_view(tables@), i - 1);
            assert(strs_view(tables@)[i - 1] == tables@[i - 1]@);
            assert(s@ =~= tables_star(strs_view(tables@).subrange(0, i as int)));
        }
    }
    proof {
        assert(strs_view(tables@).subrange(0, n as int) =~= strs_view(tables@));
    }
    s
}

/// Binds every element of a signed vector, in order.
fn push_i64_params(xs: &Vec<i64>, params: &mut Vec<String>)
    ensures
        strs_view(final(params)@) == strs_view(old(params)@) + xs@.map_values(
            |x: i64| dec_str_int(x as int),
        ),
{
    let ghost base = strs_view(params@);
    let n = xs.len();
    let mut i: usize = 0;
    while i < n
        invariant
            base == strs_view(old(params)@),
            n == xs@.len(),
            i <= n,
            strs_view(params@) =~= base + xs@.subrange(0, i as int).map_values(
                |x: i64| dec_str_int(x as int),
            ),
        decreases n - i,
    {
        let ghost prev = params@;
        proof {
            assert(xs@.subrange(0, i as int).map_values(|x: i64| dec_str_int(x as int)).len()
                == i);
            assert(strs_view(prev).len() == prev.len());
            assert(prev.len() == base.len() + i);
        }
        let s = i64_to_dec(xs[i]);
        let ghost gs = s;
        params.push(s);
        i = i + 1;
        proof {
            assert(params@ == prev.push(gs));
            let lhs = strs_view(params@);
            let rhs = base + xs@.subrange(0, i as int).map_values(|x: i64| dec_str_int(x as int));
            assert(lhs.len() == rhs.len());
            assert forall|k: int| 0 <= k < lhs.len() implies lhs[k] == rhs[k] by {
                if k < prev.len() {
                    assert(lhs[k] == strs_view(prev)[k]);
                    assert(strs_view(prev)[k] == (base + xs@.subrange(0, i - 1).map_values(
                        |x: i64| dec_str_int(x as int),
                    ))[k]);
                } else {
                    assert(lhs[k] == gs@);
                }
            }
            assert(lhs =~= rhs);
        }
    }
    proof {
        assert(xs@.subrange(0, n as int) =~= xs@);
    }
}

/// Binds every element of an unsigned vector, in order.
fn push_u64_params(xs: &Vec<u64>, params: &mut Vec<String>)
    ensures
        strs_view(final(params)@) == strs_view(old(params)@) + xs@.map_values(
            |x: u64| dec_str_nat(x as nat),
        ),
{
    let ghost base = strs_view(params@);
    let n = xs.len();
    let mut i: usize = 0;
    while i < n
        invariant
            base == strs_view(old(params)@),
            n == xs@.len(),
            i <= n,
            strs_view(params@) =~= base + xs@.subrange(0, i as int).map_values(
                |x: u64| dec_str_nat(x as nat),
            ),
        decreases n - i,
    {
        let ghost prev = params@;
        proof {
            assert(xs@.subrange(0, i as int).map_values(|x: u64| dec_str_nat(x as nat)).len()
                == i);
            assert(strs_view(prev).len() == prev.len());
            assert(prev.len() == base.len() + i);
        }
        let s = u64_to_dec(xs[i]);
        let ghost gs = s;
        params.push(s);
        i = i + 1;
        proof {
            assert(params@ == prev.push(gs));
            let lhs = strs_view(params@);
            let rhs = base + xs@.subrange(0, i as int).map_values(|x: u64| dec_str_nat(x as nat));
            assert(lhs.len() == rhs.len());
            assert forall|k: int| 0 <= k < lhs.len() implies lhs[k] == rhs[k] by {
                if k < prev.len() {
                    assert(lhs[k] == strs_view(prev)[k]);
                    assert(strs_view(prev)[k] == (base + xs@.subrange(0, i - 1).map_values(
                        |x: u64| dec_str_nat(x as nat),
                    ))[k]);
                } else {
                    assert(lhs[k] == gs@);
                }
            }
            assert(lhs =~= rhs);
        }
    }
    proof {
        assert(xs@.subrange(0, n as int) =~= xs@);
    }
}

/// Binds every element of a string vector, in order.
fn push_text_params(xs: &Vec<String>, params: &mut Vec<String>)
    ensures
        strs_view(final(params)@) == strs_view(old(params)@) + strs_view(xs@),
{
    let ghost base = strs_view(params@);
    let n = xs.len();
    let mut i: usize = 0;
    while i < n
        invariant
            base == strs_view(old(params)@),
            n == xs@.len(),
            i <= n,
            strs_view(params@) =~= base + strs_view(xs@.subrange(0, i as int)),
        decreases n - i,
    {
        let ghost prev = params@;
        proof {
            assert(strs_view(xs@.subrange(0, i as int)).len() == i);
            assert(strs_view(prev).len() == prev.len());
            assert(prev.len() == base.len() + i);
        }
        let s = xs[i].clone();
        let ghost gs = s;
        params.push(s);
        i = i + 1;
        proof {
            assert(params@ == prev.push(gs));
            let lhs = strs_view(params@);
            let rhs = base + strs_view(xs@.subrange(0, i as int));
            assert(lhs.len() == rhs.len());
            assert forall|k: int| 0 <= k < lhs.len() implies lhs[k] == rhs[k] by {
                if k < prev.len() {
                    assert(lhs[k] == strs_view(prev)[k]);
                    assert(strs_view(prev)[k] == (base + strs_view(xs@.subrange(0, i - 1)))[k]);
                } else {
                    assert(lhs[k] == gs@);
                }
            }
            assert(lhs =~= rhs);
        }
    }
    proof {
        assert(xs@.subrange(0, n as int) =~= xs@);
        assert(strs_view(xs@.subrange(0, n as int)) =~= strs_view(xs@));
    }
}

/// Binds every element of a boolean vector, in order.
fn push_bool_params(xs: &Vec<bool>, params: &mut Vec<String>)
    ensures
        strs_view(final(params)@) == strs_view(old(params)@) + xs@.map_values(
            |b: bool| bool_sql(b),
        ),
{
    let ghost base = strs_view(params@);
    let n = xs.len();
    let mut i: usize = 0;
    while i < n
        invariant
            base == strs_view(old(params)@),
            n == xs@.len(),
            i <= n,
            strs_view(params@) =~= base + xs@.subrange(0, i as int).map_values(
                |b: bool| bool_sql(b),
            ),
        decreases n - i,
    {
        let ghost prev = params@;
        proof {
            assert(xs@.subrange(0, i as int).map_values(|b: bool| bool_sql(b)).len() == i);
            assert(strs_view(prev).len() == prev.len());
            assert(prev.len() == base.len() + i);
        }
        let s = if xs[i] {
            "1".to_owned()
        } else {
            "0".to_owned()
        };
        let ghost gs = s;
        proof {
            reveal_strlit("1");
            reveal_strlit("0");
            assert(gs@ =~= bool_sql(xs@[i as int]));
        }
        params.push(s);
        i = i + 1;
        proof {
            assert(params@ == prev.push(gs));
            let lhs = strs_view(params@);
            let rhs = base + xs@.subrange(0, i as int).map_values(|b: bool| bool_sql(b));
            assert(lhs.len() == rhs.len());
            assert forall|k: int| 0 <= k < lhs.len() implies lhs[k] == rhs[k] by {
                if k < prev.len() {
                    assert(lhs[k] == strs_view(prev)[k]);
                    assert(strs_view(prev)[k] == (base + xs@.subrange(0, i - 1).map_values(
                        |b: bool| bool_sql(b),
                    ))[k]);
                } else {
                    assert(lhs[k] == gs@);
                }
            }
            assert(lhs =~= rhs);
        }
    }
    proof {
        assert(xs@.subrange(0, n as int) =~= xs@);
    }
}

/// A string list with one element pushed views as the viewed push.
proof fn lemma_strs_view_push(s: Seq<String>, x: String)
    ensures
        strs_view(s.push(x)) == strs_view(s).push(x@),
{
    assert(strs_view(s.push(x)) =~= strs_view(s).push(x@));
}

/// Binds the parameters of one value, in order. For a sub-query the whole
/// sub-select is generated again and only its parameters are kept.
fn push_value_params(v: &Value, params: &mut Vec<String>)
    ensures
        strs_view(final(params)@) == strs_view(old(params)@) + value_params(*v),
    decreases *v, 1int,
{
    proof {
        reveal_strlit("1");
        reveal_strlit("0");
    }
    let ghost base = params@;
    match v {
        Value::Null => {
            proof {
                assert(strs_view(params@) =~= strs_view(base) + value_params(*v));
            }
        },
        Value::I64(x) => {
            params.push(i64_to_dec(*x));
            proof {
                lemma_strs_view_push(base, params@.last());
                assert(strs_view(params@) =~= strs_view(base) + value_params(*v));
            }
        },
        Value::U64(x) => {
            params.push(u64_to_dec(*x));
            proof {
                lemma_strs_view_push(base, params@.last());
                assert(strs_view(params@) =~= strs_view(base) + value_params(*v));
            }
        },
        Value::Text(s) => {
            params.push(s.clone());
            proof {
                lemma_strs_view_push(base, params@.last());
                assert(strs_view(params@) =~= strs_view(base) + value_params(*v));
            }
        },
        Value::Bool(b) => {
            let r = if *b {
                "1".to_owned()
            } else {
                "0".to_owned()
            };
            params.push(r);
            proof {
                lemma_strs_view_push(base, params@.last());
                assert(params@.last()@ =~= bool_sql(*b));
                assert(strs_view(params@) =~= strs_view(base) + value_params(*v));
            }
        },
        Value::I64s(xs) => {
            push_i64_params(xs, params);
        },
        Value::U64s(xs) => {
            push_u64_params(xs, params);
        },
        Value::Texts(xs) => {
            push_text_params(xs, params);
        },
        Value::Bools(xs) => {
            push_bool_params(xs, params);
        },
        Value::SubQuery(q) => {
            let _discarded = build_query(&**q, params);
        },
    }
}

/// Renders what stands right of a binary comparison and binds its
/// parameters: a parenthesized sub-select, or one placeholder.
fn value_rhs_exec(v: &Value, params: &mut Vec<String>) -> (r: String)
    ensures
        r@ == value_rhs(*v),
        strs_view(final(params)@) == strs_view(old(params)@) + value_params(*v),
    decreases *v, 2int,
{
    match v {
        Value::SubQuery(q) => {
            let mut s = "(".to_owned();
            let sub = build_query(&**q, params);
            s.append(sub.as_str());
            s.append(")");
            proof {
                reveal_strlit("(");
                reveal_strlit(")");
                assert(s@ =~= value_rhs(*v));
            }
            s
        },
        _ => {
            push_value_params(v, params);
            let r = "?".to_owned();
            proof {
                reveal_strlit("?");
                assert(r@ =~= value_rhs(*v));
            }
            r
        },
    }
}

/// Renders one condition's fragment and binds its parameters.
pub fn transform_condition(c: &Condition, params: &mut Vec<String>) -> (r: String)
    ensures
        r@ == cond_sql(*c),
        strs_view(final(params)@) == strs_view(old(params)@) + cond_params(*c),
    decreases *c, 3int,
{
    match &c.operator {
        Operator::Null => {
            let mut s = c.column.clone();
            s.append(" IS NULL");
            proof {
                reveal_strlit(" IS NULL");
                assert(s@ =~= cond_sql(*c));
            }
            s
        },
        Operator::NotNull => {
            let mut s = c.column.clone();
            s.append(" IS NOT NULL");
            proof {
                reveal_strlit(" IS NOT NULL");
                assert(s@ =~= cond_sql(*c));
            }
            s
        },
        Operator::In => {
            push_value_params(&c.value, params);
            let mut s = c.column.clone();
            s.append(" IN (");
            let ph = placeholders_exec(vector_len_exec(&c.value));
            s.append(ph.as_str());
            s.append(")");
            proof {
                reveal_strlit(" IN (");
                reveal_strlit(")");
                assert(s@ =~= cond_sql(*c));
            }
            s
        },
        Operator::NotIn => {
            push_value_params(&c.value, params);
            let mut s = c.column.clone();
            s.append(" NOT IN (");
            let ph = placeholders_exec(vector_len_exec(&c.value));
            s.append(ph.as_str());
            s.append(")");
            proof {
                reveal_strlit(" NOT IN (");
                reveal_strlit(")");
                assert(s@ =~= cond_sql(*c));
            }
            s
        },
        _ => {
            let rhs = value_rhs_exec(&c.value, params);
            let mut s = if negated(&c.operator) {
                let mut t = "NOT ".to_owned();
                t.append(c.column.as_str());
                t
            } else {
                c.column.clone()
            };
            s.append(infix_str(&c.operator));
            s.append(rhs.as_str());
            proof {
                reveal_strlit("NOT ");
                assert(s@ =~= cond_sql(*c));
            }
            s
        },
    }
}

/// Renders the WHERE clause and binds its parameters in the same
/// left-to-right order: empty when the builder holds no conditions.
pub fn build_where_clauses(q: &QueryBuilder, params: &mut Vec<String>) -> (r: String)
    ensures
        r@ == (if q.where_clauses@.len() == 0 {
            Seq::<char>::empty()
        } else {
            where_sql(q.where_clauses@)
        }),
        strs_view(final(params)@) == strs_view(old(params)@) + entries_params(q.where_clauses@),
    decreases *q, 2int,
{
    let ghost base = strs_view(params@);
    let n = q.where_clauses.len();
    if n == 0 {
        proof {
            assert(strs_view(params@) =~= base + entries_params(q.where_clauses@));
        }
        return String::new();
    }
    let mut wheres = String::new();
    let mut i: usize = 0;
    while i < n
        invariant
            base == strs_view(old(params)@),
            n == q.where_clauses@.len(),
            i <= n,
            wheres@ == entries_sql(q.where_clauses@.subrange(0, i as int)),
            strs_view(params@) =~= base + entries_params(q.where_clauses@.subrange(0, i as int)),
        decreases n - i,
    {
        proof {
            assert(decreases_to!(*q => q.where_clauses));
            assert(decreases_to!(q.where_clauses => q.where_clauses@));
            assert(decreases_to!(q.where_clauses@ => q.where_clauses@[i as int]));
        }
        let entry = &q.where_clauses[i];
        match entry {
            WhereJoinOperator::First(c) => {
                let f = transform_condition(c, params);
                wheres.append(f.as_str());
            },
            WhereJoinOperator::And(c) => {
                wheres.append(" AND ");
                let f = transform_condition(c, params);
                wheres.append(f.as_str());
            },
            WhereJoinOperator::Or(c) => {
                wheres.append(" OR ");
                let f = transform_condition(c, params);
                wheres.append(f.as_str());
            },
        }
        i = i + 1;
        proof {
            reveal_strlit(" AND ");
            reveal_strlit(" OR ");
            lemma_entries_snoc(q.where_clauses@, i - 1);
            assert(wheres@ =~= entries_sql(q.where_clauses@.subrange(0, i as int)));
            assert(strs_view(params@) =~= base + entries_params(
                q.where_clauses@.subrange(0, i as int),
            ));
        }
    }
    let mut out = "WHERE ".to_owned();
    out.append(wheres.as_str());
    proof {
        reveal_strlit("WHERE ");
        assert(q.where_clauses@.subrange(0, n as int) =~= q.where_clauses@);
        assert(out@ =~= where_sql(q.where_clauses@));
    }
    out
}

/// Builds the whole parameterized SELECT statement, appending its bound
/// parameters in placeholder order.
pub fn build_query(q: &QueryBuilder, params: &mut Vec<String>) -> (r: String)
    ensures
        r@ == query_sql(*q),
        strs_view(final(params)@) == strs_view(old(params)@) + query_params(*q),
    decreases *q, 3int,
{
    proof {
        reveal_strlit("SELECT");
        reveal_strlit(" ");
        reveal_strlit(", ");
        reveal_strlit(".*");
        reveal_strlit(" FROM ");
        reveal_strlit(" join ");
        reveal_strlit(" on ");
    }
    let mut sql = "SELECT".to_owned();
    match &q.select_columns {
        Some(fields) => {
            sql.append(" ");
            let cs = commas_exec(fields);
            sql.append(cs.as_str());
        },
        None => {
            let ts = tables_star_exec(&q.tables);
            sql.append(ts.as_str());
        },
    }
    proof {
        assert(sql@ =~= seq!['S', 'E', 'L', 'E', 'C', 'T'] + select_fields_sql(*q));
    }
    let ghost with_fields = sql@;
    match &q.joins {
        Some(js) => {
            let m = js.len();
            let mut i: usize = 0;
            while i < m
                invariant
                    m == js@.len(),
                    i <= m,
                    sql@ == with_fields + join_fields_sql(js@.subrange(0, i as int)),
                decreases m - i,
            {
                match &js[i].select_columns {
                    Some(cols) => {
                        sql.append(", ");
                        let cs = commas_exec(cols);
                        sql.append(cs.as_str());
                    },
                    None => {
                        sql.append(", ");
                        sql.append(js[i].table.as_str());
                        sql.append(".*");
                    },
                }
                i = i + 1;
                proof {
                    reveal_strlit(", ");
                    reveal_strlit(".*");
                    lemma_joins_snoc(js@, i - 1);
                    assert(sql@ =~= with_fields + join_fields_sql(js@.subrange(0, i as int)));
                }
            }
            proof {
                assert(js@.subrange(0, m as int) =~= js@);
            }
        },
        None => {},
    }
    proof {
        assert(sql@ =~= with_fields + join_fields_sql(opt_joins(q.joins)));
    }
    sql.append(" FROM ");
    let ts = commas_exec(&q.tables);
    sql.append(ts.as_str());
    let ghost with_from = sql@;
    proof {
        assert(with_from =~= with_fields + join_fields_sql(opt_joins(q.joins)) + seq![
            ' ',
            'F',
            'R',
            'O',
            'M',
            ' ',
        ] + commas(strs_view(q.tables@)));
    }
    match &q.joins {
        Some(js) => {
            let m = js.len();
            let mut i: usize = 0;
            while i < m
                invariant
                    m == js@.len(),
                    i <= m,
                    sql@ == with_from + join_clauses_sql(js@.subrange(0, i as int)),
                decreases m - i,
            {
                sql.append(" ");
                let kw = js[i].join_type.name();
                sql.append(kw);
                sql.append(" join ");
                sql.append(js[i].table.as_str());
                sql.append(" on ");
                sql.append(js[i].join_clause.as_str());
                i = i + 1;
                proof {
                    reveal_strlit(" ");
                    reveal_strlit(" join ");
                    reveal_strlit(" on ");
                    lemma_joins_snoc(js@, i - 1);
                    assert(sql@ =~= with_from + join_clauses_sql(js@.subrange(0, i as int)));
                }
            }
            proof {
                assert(js@.subrange(0, m as int) =~= js@);
            }
        },
        None => {},
    }
    proof {
        assert(sql@ =~= with_from + join_clauses_sql(opt_joins(q.joins)));
    }
    if q.where_clauses.len() > 0 {
        sql.append(" ");
        let w = build_where_clauses(q, params);
        sql.append(w.as_str());
        proof {
            reveal_strlit(" ");
            assert(sql@ =~= query_sql(*q));
        }
    } else {
        proof {
            assert(strs_view(params@) =~= strs_view(old(params)@) + query_params(*q));
            assert(sql@ =~= query_sql(*q));
        }
    }
    sql
}

/// How many elements a vector value holds.
fn vector_len_exec(v: &Value) -> (r: usize)
    ensures
        r as nat == v.vector_len(),
{
    match v {
        Value::I64s(xs) => xs.len(),
        Value::U64s(xs) => xs.len(),
        Value::Texts(xs) => xs.len(),
        Value::Bools(xs) => xs.len(),
        _ => 0,
    }
}

/// Holds no placeholder character.
pub open spec fn qmark_free(s: Seq<char>) -> bool {
    count_char(s, '?') == 0
}

/// Every name in a string list is placeholder-free.
pub open spec fn qmark_free_all(items: Seq<Seq<char>>) -> bool {
    forall|i: int| 0 <= i < items.len() ==> qmark_free(#[trigger] items[i])
}

/// A value whose nested sub-queries are renderable too.
pub open spec fn value_renderable(v: Value) -> bool
    decreases v, 6int,
{
    match v {
        Value::SubQuery(q) => query_renderable(*q),
        _ => true,
    }
}

/// A condition whose operator and value fit together, whose column name is
/// placeholder-free, and whose nested sub-queries are renderable.
pub open spec fn cond_renderable(c: Condition) -> bool
    decreases c, 7int,
{
    &&& c.wf()
    &&& qmark_free(c.column@)
    &&& value_renderable(c.value)
}

/// Every condition of the list is renderable.
pub open spec fn entries_renderable(s: Seq<WhereJoinOperator>) -> bool
    decreases s, 9int,
{
    forall|i: int| 0 <= i < s.len() ==> cond_renderable(entry_condition(#[trigger] s[i]))
}

/// A builder whose names are placeholder-free and whose conditions fit
/// their operators, recursively through sub-queries.
pub open spec fn query_renderable(q: QueryBuilder) -> bool
    decreases q, 10int,
{
    &&& entries_renderable(q.where_clauses@)
    &&& qmark_free_all(strs_view(q.tables@))
    &&& (q.select_columns matches Option::Some(cols) ==> qmark_free_all(strs_view(cols@)))
    &&& (forall|i: int|
        0 <= i < opt_joins(q.joins).len() ==> join_renderable(#[trigger] opt_joins(q.joins)[i]))
}

/// A join specification whose names are placeholder-free.
pub open spec fn join_renderable(j: JoinQueryBuilder) -> bool {
    &&& qmark_free(j.table@)
    &&& qmark_free(j.join_clause@)
    &&& (j.select_columns matches Option::Some(cols) ==> qmark_free_all(strs_view(cols@)))
}

/// A sequence without the character counts zero of it.
proof fn lemma_count_char_absent(s: Seq<char>, c: char)
    requires
        forall|i: int| 0 <= i < s.len() ==> s[i] != c,
    ensures
        count_char(s, c) == 0,
    decreases s.len(),
{
    if s.len() > 0 {
        lemma_count_char_absent(s.drop_last(), c);
    }
}

/// `n` comma-separated placeholders hold exactly `n` placeholder marks.
proof fn lemma_placeholders_count(n: nat)
    ensures
        count_char(placeholders(n), '?') == n,
    decreases n,
{
    if n == 0 {
    } else if n == 1 {
        assert(count_char(seq!['?'], '?') == 1) by {
            reveal_with_fuel(count_char, 2);
            assert(seq!['?'].drop_last() =~= Seq::<char>::empty());
        }
    } else {
        lemma_placeholders_count((n - 1) as nat);
        lemma_count_char_concat(placeholders((n - 1) as nat), seq![',', '?'], '?');
        assert(count_char(seq![',', '?'], '?') == 1) by {
            reveal_with_fuel(count_char, 3);
            assert(seq![',', '?'].drop_last() =~= seq![',']);
            assert(seq![','].drop_last() =~= Seq::<char>::empty());
        }
    }
}

/// A comma join of placeholder-free items is placeholder-free.
proof fn lemma_commas_qmark_free(items: Seq<Seq<char>>)
    requires
        qmark_free_all(items),
    ensures
        count_char(commas(items), '?') == 0,
    decreases items.len(),
{
    if items.len() == 0 {
    } else if items.len() == 1 {
    } else {
        lemma_commas_qmark_free(items.drop_last());
        assert(qmark_free_all(items.drop_last()));
        lemma_count_char_concat(commas(items.drop_last()), seq![','], '?');
        lemma_count_char_concat(commas(items.drop_last()) + seq![','], items.last(), '?');
        lemma_count_char_absent(seq![','], '?');
    }
}

/// The all-columns selection of placeholder-free table names is
/// placeholder-free.
proof fn lemma_tables_star_qmark_free(tables: Seq<Seq<char>>)
    requires
        qmark_free_all(tables),
    ensures
        count_char(tables_star(tables), '?') == 0,
    decreases tables.len(),
{
    if tables.len() == 0 {
    } else if tables.len() == 1 {
        lemma_count_char_concat(seq![' '], tables[0], '?');
        lemma_count_char_concat(seq![' '] + tables[0], seq!['.', '*'], '?');
        lemma_count_char_absent(seq![' '], '?');
        lemma_count_char_absent(seq!['.', '*'], '?');
    } else {
        lemma_tables_star_qmark_free(tables.drop_last());
        assert(qmark_free_all(tables.drop_last()));
        lemma_count_char_concat(tables_star(tables.drop_last()), seq![',', ' '], '?');
        lemma_count_char_concat(
            tables_star(tables.drop_last()) + seq![',', ' '],
            tables.last(),
            '?',
        );
        lemma_count_char_concat(
            tables_star(tables.drop_last()) + seq![',', ' '] + tables.last(),
            seq!['.', '*'],
            '?',
        );
        lemma_count_char_absent(seq![',', ' '], '?');
        lemma_count_char_absent(seq!['.', '*'], '?');
    }
}

/// The join field parts of renderable joins are placeholder-free.
proof fn lemma_join_fields_qmark_free(js: Seq<JoinQueryBuilder>)
    requires
        forall|i: int| 0 <= i < js.len() ==> join_renderable(#[trigger] js[i]),
    ensures
        count_char(join_fields_sql(js), '?') == 0,
    decreases js.len(),
{
    if js.len() > 0 {
        lemma_join_fields_qmark_free(js.drop_last());
        let j = js.last();
        assert(join_renderable(j));
        assert(count_char(join_field_sql(j), '?') == 0) by {
            lemma_count_char_absent(seq![',', ' '], '?');
            lemma_count_char_absent(seq!['.', '*'], '?');
            match j.select_columns {
                Option::Some(cols) => {
                    lemma_commas_qmark_free(strs_view(cols@));
                    lemma_count_char_concat(seq![',', ' '], commas(strs_view(cols@)), '?');
                },
                Option::None => {
                    lemma_count_char_concat(seq![',', ' '], j.table@, '?');
                    lemma_count_char_concat(seq![',', ' '] + j.table@, seq!['.', '*'], '?');
                },
            }
        }
        lemma_count_char_concat(join_fields_sql(js.drop_last()), join_field_sql(j), '?');
    }
}

/// The join clauses of renderable joins are placeholder-free.
proof fn lemma_join_clauses_qmark_free(js: Seq<JoinQueryBuilder>)
    requires
        forall|i: int| 0 <= i < js.len() ==> join_renderable(#[trigger] js[i]),
    ensures
        count_char(join_clauses_sql(js), '?') == 0,
    decreases js.len(),
{
    if js.len() > 0 {
        lemma_join_clauses_qmark_free(js.drop_last());
        let j = js.last();
        assert(join_renderable(j));
        assert(count_char(join_clause_sql(j), '?') == 0) by {
            lemma_count_char_absent(seq![' '], '?');
            lemma_count_char_absent(j.join_type.keyword(), '?');
            lemma_count_char_absent(seq![' ', 'j', 'o', 'i', 'n', ' '], '?');
            lemma_count_char_absent(seq![' ', 'o', 'n', ' '], '?');
            lemma_count_char_concat(seq![' '], j.join_type.keyword(), '?');
            lemma_count_char_concat(
                seq![' '] + j.join_type.keyword(),
                seq![' ', 'j', 'o', 'i', 'n', ' '],
                '?',
            );
            lemma_count_char_concat(
                seq![' '] + j.join_type.keyword() + seq![' ', 'j', 'o', 'i', 'n', ' '],
                j.table@,
                '?',
            );
            lemma_count_char_concat(
                seq![' '] + j.join_type.keyword() + seq![' ', 'j', 'o', 'i', 'n', ' '] + j.table@,
                seq![' ', 'o', 'n', ' '],
                '?',
            );
            lemma_count_char_concat(
                seq![' '] + j.join_type.keyword() + seq![' ', 'j', 'o', 'i', 'n', ' '] + j.table@
                    + seq![' ', 'o', 'n', ' '],
                j.join_clause@,
                '?',
            );
        }
        lemma_count_char_concat(join_clauses_sql(js.drop_last()), join_clause_sql(j), '?');
    }
}

/// What stands right of a renderable scalar comparison holds exactly as
/// many placeholders as the value binds parameters.
proof fn lemma_value_rhs_count(v: Value)
    requires
        value_renderable(v),
        v.is_scalar(),
    ensures
        count_char(value_rhs(v), '?') == value_params(v).len(),
    decreases v, 5int,
{
    match v {
        Value::SubQuery(q) => {
            lemma_query_placeholder_count(*q);
            lemma_count_char_concat(seq!['('], query_sql(*q), '?');
            lemma_count_char_concat(seq!['('] + query_sql(*q), seq![')'], '?');
            lemma_count_char_absent(seq!['('], '?');
            lemma_count_char_absent(seq![')'], '?');
        },
        _ => {
            assert(count_char(seq!['?'], '?') == 1) by {
                reveal_with_fuel(count_char, 2);
                assert(seq!['?'].drop_last() =~= Seq::<char>::empty());
            }
        },
    }
}

/// A renderable condition's fragment holds exactly as many placeholders as
/// the condition binds parameters.
proof fn lemma_cond_placeholder_count(c: Condition)
    requires
        cond_renderable(c),
    ensures
        count_char(cond_sql(c), '?') == cond_params(c).len(),
    decreases c, 7int,
{
    match c.operator {
        Operator::Null => {
            lemma_count_char_concat(c.column@, seq![' ', 'I', 'S', ' ', 'N', 'U', 'L', 'L'], '?');
            lemma_count_char_absent(seq![' ', 'I', 'S', ' ', 'N', 'U', 'L', 'L'], '?');
        },
        Operator::NotNull => {
            lemma_count_char_concat(
                c.column@,
                seq![' ', 'I', 'S', ' ', 'N', 'O', 'T', ' ', 'N', 'U', 'L', 'L'],
                '?',
            );
            lemma_count_char_absent(
                seq![' ', 'I', 'S', ' ', 'N', 'O', 'T', ' ', 'N', 'U', 'L', 'L'],
                '?',
            );
        },
        Operator::In => {
            let n = c.value.vector_len();
            lemma_placeholders_count(n);
            lemma_count_char_absent(seq![' ', 'I', 'N', ' ', '('], '?');
            lemma_count_char_absent(seq![')'], '?');
            lemma_count_char_concat(c.column@, seq![' ', 'I', 'N', ' ', '('], '?');
            lemma_count_char_concat(
                c.column@ + seq![' ', 'I', 'N', ' ', '('],
                placeholders(n),
                '?',
            );
            lemma_count_char_concat(
                c.column@ + seq![' ', 'I', 'N', ' ', '('] + placeholders(n),
                seq![')'],
                '?',
            );
            lemma_vector_params_len(c.value);
        },
        Operator::NotIn => {
            let n = c.value.vector_len();
            lemma_placeholders_count(n);
            lemma_count_char_absent(seq![' ', 'N', 'O', 'T', ' ', 'I', 'N', ' ', '('], '?');
            lemma_count_char_absent(seq![')'], '?');
            lemma_count_char_concat(
                c.column@,
                seq![' ', 'N', 'O', 'T', ' ', 'I', 'N', ' ', '('],
                '?',
            );
            lemma_count_char_concat(
                c.column@ + seq![' ', 'N', 'O', 'T', ' ', 'I', 'N', ' ', '('],
                placeholders(n),
                '?',
            );
            lemma_count_char_concat(
                c.column@ + seq![' ', 'N', 'O', 'T', ' ', 'I', 'N', ' ', '('] + placeholders(n),
                seq![')'],
                '?',
            );
            lemma_vector_params_len(c.value);
        },
        _ => {
            let prefix = if op_negated(c.operator) {
                seq!['N', 'O', 'T', ' ']
            } else {
                Seq::<char>::empty()
            };
            lemma_value_rhs_count(c.value);
            lemma_count_char_absent(prefix, '?');
            lemma_count_char_absent(op_infix(c.operator), '?');
            lemma_count_char_concat(prefix, c.column@, '?');
            lemma_count_char_concat(prefix + c.column@, op_infix(c.operator), '?');
            lemma_count_char_concat(
                prefix + c.column@ + op_infix(c.operator),
                value_rhs(c.value),
                '?',
            );
        },
    }
}

/// A vector value binds one parameter per element.
proof fn lemma_vector_params_len(v: Value)
    requires
        v.is_vector(),
    ensures
        value_params(v).len() == v.vector_len(),
{
}

/// LAW: every value binds exactly zero parameters (null), one per element
/// (vector), its sub-select's own parameters (sub-query), or one (any
/// other scalar).
pub proof fn lemma_value_binding_shape(v: Value)
    ensures
        v is Null ==> value_params(v).len() == 0,
        v.is_vector() ==> value_params(v).len() == v.vector_len(),
        v.is_scalar() && !(v is SubQuery) ==> value_params(v).len() == 1,
        v matches Value::SubQuery(q) ==> value_params(v) == query_params(*q),
{
}

/// A renderable condition list renders exactly as many placeholders as it
/// binds parameters.
proof fn lemma_entries_placeholder_count(s: Seq<WhereJoinOperator>)
    requires
        entries_renderable(s),
    ensures
        count_char(entries_sql(s), '?') == entries_params(s).len(),
    decreases s, 9int,
{
    if s.len() > 0 {
        assert(entries_renderable(s.drop_last())) by {
            assert(forall|i: int|
                0 <= i < s.drop_last().len() ==> s.drop_last()[i] == #[trigger] s[i]);
        }
        lemma_entries_placeholder_count(s.drop_last());
        let e = s.last();
        assert(cond_renderable(entry_condition(e)));
        lemma_cond_placeholder_count(entry_condition(e));
        assert(count_char(entry_sql(e), '?') == cond_params(entry_condition(e)).len()) by {
            lemma_count_char_absent(seq![' ', 'A', 'N', 'D', ' '], '?');
            lemma_count_char_absent(seq![' ', 'O', 'R', ' '], '?');
            match e {
                WhereJoinOperator::First(c) => {},
                WhereJoinOperator::And(c) => {
                    lemma_count_char_concat(seq![' ', 'A', 'N', 'D', ' '], cond_sql(c), '?');
                },
                WhereJoinOperator::Or(c) => {
                    lemma_count_char_concat(seq![' ', 'O', 'R', ' '], cond_sql(c), '?');
                },
            }
        }
        lemma_count_char_concat(entries_sql(s.drop_last()), entry_sql(e), '?');
    }
}

/// LAW: for any sequence of condition calls, the rendered WHERE clause
/// holds exactly one placeholder per bound parameter; the fold that renders
/// the fragments is the same left-to-right fold that collects the
/// parameters, so the orders match position by position.
pub proof fn lemma_where_placeholders_match_params(s: Seq<WhereJoinOperator>)
    requires
        entries_renderable(s),
    ensures
        count_char(where_sql(s), '?') == entries_params(s).len(),
{
    lemma_entries_placeholder_count(s);
    lemma_count_char_concat(seq!['W', 'H', 'E', 'R', 'E', ' '], entries_sql(s), '?');
    lemma_count_char_absent(seq!['W', 'H', 'E', 'R', 'E', ' '], '?');
}

/// LAW: the orders match position by position — after any prefix of the
/// condition list, the placeholders rendered so far equal the parameters
/// bound so far, so the k-th placeholder is always filled by the k-th
/// parameter.
pub proof fn lemma_prefix_placeholders_match_params(s: Seq<WhereJoinOperator>, i: int)
    requires
        entries_renderable(s),
        0 <= i <= s.len(),
    ensures
        count_char(entries_sql(s.subrange(0, i)), '?') == entries_params(
            s.subrange(0, i),
        ).len(),
{
    assert(entries_renderable(s.subrange(0, i))) by {
        assert(forall|j: int| 0 <= j < i ==> s.subrange(0, i)[j] == #[trigger] s[j]);
    }
    lemma_entries_placeholder_count(s.subrange(0, i));
}

/// LAW: a whole renderable SELECT statement holds exactly one placeholder
/// per bound parameter, sub-queries included.
pub proof fn lemma_query_placeholder_count(q: QueryBuilder)
    requires
        query_renderable(q),
    ensures
        count_char(query_sql(q), '?') == query_params(q).len(),
    decreases q, 10int,
{
    let head = seq!['S', 'E', 'L', 'E', 'C', 'T'];
    let fields = select_fields_sql(q);
    let jf = join_fields_sql(opt_joins(q.joins));
    let from = seq![' ', 'F', 'R', 'O', 'M', ' '];
    let tbls = commas(strs_view(q.tables@));
    let jc = join_clauses_sql(opt_joins(q.joins));
    let tail = if q.where_clauses@.len() == 0 {
        Seq::<char>::empty()
    } else {
        seq![' '] + where_sql(q.where_clauses@)
    };
    lemma_count_char_absent(head, '?');
    assert(count_char(fields, '?') == 0) by {
        match q.select_columns {
            Option::Some(cols) => {
                lemma_commas_qmark_free(strs_view(cols@));
                lemma_count_char_absent(seq![' '], '?');
                lemma_count_char_concat(seq![' '], commas(strs_view(cols@)), '?');
            },
            Option::None => {
                lemma_tables_star_qmark_free(strs_view(q.tables@));
            },
        }
    }
    lemma_join_fields_qmark_free(opt_joins(q.joins));
    lemma_count_char_absent(from, '?');
    lemma_commas_qmark_free(strs_view(q.tables@));
    lemma_join_clauses_qmark_free(opt_joins(q.joins));
    assert(count_char(tail, '?') == entries_params(q.where_clauses@).len()) by {
        if q.where_clauses@.len() == 0 {
        } else {
            lemma_entries_placeholder_count(q.where_clauses@);
            lemma_count_char_concat(seq!['W', 'H', 'E', 'R', 'E', ' '], entries_sql(
                q.where_clauses@,
            ), '?');
            lemma_count_char_absent(seq!['W', 'H', 'E', 'R', 'E', ' '], '?');
            lemma_count_char_absent(seq![' '], '?');
            lemma_count_char_concat(seq![' '], where_sql(q.where_clauses@), '?');
        }
    }
    lemma_count_char_concat(head, fields, '?');
    lemma_count_char_concat(head + fields, jf, '?');
    lemma_count_char_concat(head + fields + jf, from, '?');
    lemma_count_char_concat(head + fields + jf + from, tbls, '?');
    lemma_count_char_concat(head + fields + jf + from + tbls, jc, '?');
    lemma_count_char_concat(head + fields + jf + from + tbls + jc, tail, '?');
}

/// LAW: each condition call appends its fragment and its parameters
/// together, in lockstep: a prefix of the condition list renders a prefix
/// of the WHERE text and binds a prefix of the parameter list.
pub proof fn lemma_where_appends_in_lockstep(s: Seq<WhereJoinOperator>, i: int)
    requires
        0 <= i < s.len(),
    ensures
        entries_sql(s.subrange(0, i + 1)) == entries_sql(s.subrange(0, i)) + entry_sql(s[i]),
        entries_params(s.subrange(0, i + 1)) == entries_params(s.subrange(0, i)) + cond_params(
            entry_condition(s[i]),
        ),
{
    lemma_entries_snoc(s, i);
}

/// LAW: the first condition of a builder renders with no leading boolean
/// connective; every later condition is preceded by exactly the connective
/// of its call, a bare call joining with AND.
pub proof fn lemma_connective_rendering(
    pre: QueryBuilder,
    post: QueryBuilder,
    column: Seq<char>,
    op: Operator,
    value: Value,
    and_or: Option<WhereJoin>,
)
    requires
        crate::query::appends_condition(pre, post, column, op, value, and_or),
    ensures
        ({
            let c = entry_condition(post.where_clauses@.last());
            entries_sql(post.where_clauses@) == entries_sql(pre.where_clauses@) + (if pre
                .where_clauses@.len() == 0 {
                cond_sql(c)
            } else if and_or == Some(WhereJoin::Or) {
                seq![' ', 'O', 'R', ' '] + cond_sql(c)
            } else {
                seq![' ', 'A', 'N', 'D', ' '] + cond_sql(c)
            })
        }),
{
    let e = post.where_clauses@.last();
    let c = entry_condition(e);
    assert(post.where_clauses@.drop_last() == pre.where_clauses@);
    assert(entries_sql(post.where_clauses@) == entries_sql(pre.where_clauses@) + entry_sql(e));
    if pre.where_clauses@.len() == 0 {
        assert(e is First);
        assert(entry_sql(e) == cond_sql(c));
    } else if and_or == Some(WhereJoin::Or) {
        assert(e is Or);
        assert(entry_sql(e) == seq![' ', 'O', 'R', ' '] + cond_sql(c));
    } else {
        assert(e is And);
        assert(entry_sql(e) == seq![' ', 'A', 'N', 'D', ' '] + cond_sql(c));
    }
}

} // verus!
