use dirtybase::mysql::build_query;
use dirtybase::mysql::build_where_clauses;
use dirtybase::query::QueryBuilder;
use dirtybase::query_values::Value;

fn builder_on(table: &str) -> QueryBuilder {
    QueryBuilder::new(vec![table.to_string()])
}

fn qmarks(s: &str) -> usize {
    s.chars().filter(|c| *c == '?').count()
}

#[test]
fn placeholders_match_params_for_mixed_conditions() {
    let mut b = builder_on("t");
    b.eq("a", Value::I64(1));
    b.and_gt("b", Value::U64(7));
    b.or_like("c", Value::Text("x%".to_string()));
    b.and_is_null("d");
    b.and_is_in("e", Value::I64s(vec![4, 5, 6]));
    b.and_is_not_in("f", Value::Texts(vec!["p".to_string(), "q".to_string()]));
    let mut params: Vec<String> = Vec::new();
    let w = build_where_clauses(&b, &mut params);
    assert_eq!(qmarks(&w), params.len());
    assert_eq!(params, vec!["1", "7", "x%", "4", "5", "6", "p", "q"]);
}

#[test]
fn where_clause_orders_params_left_to_right() {
    let mut b = builder_on("t");
    b.eq("a", Value::I64(10));
    b.and_eq("b", Value::I64(20));
    b.or_eq("c", Value::I64(30));
    let mut params: Vec<String> = Vec::new();
    let w = build_where_clauses(&b, &mut params);
    assert_eq!(w, "WHERE a = ? AND b = ? OR c = ?");
    assert_eq!(params, vec!["10", "20", "30"]);
}

#[test]
fn between_renders_inclusive_bounds() {
    let mut b = builder_on("t");
    b.between("col", Value::I64(2), Value::I64(5));
    let mut params: Vec<String> = Vec::new();
    let w = build_where_clauses(&b, &mut params);
    assert_eq!(w, "WHERE col >= ? AND col <= ?");
    assert_eq!(params, vec!["2", "5"]);
}

#[test]
fn not_between_negates_both_bounds() {
    let mut b = builder_on("t");
    b.not_between("col", Value::I64(2), Value::I64(5));
    let mut params: Vec<String> = Vec::new();
    let w = build_where_clauses(&b, &mut params);
    assert_eq!(w, "WHERE NOT col >= ? AND NOT col <= ?");
    assert_eq!(params, vec!["2", "5"]);
}

#[test]
fn is_in_preserves_order_and_duplicates() {
    let mut b = builder_on("t");
    b.is_in("x", Value::I64s(vec![2, 1, 40]));
    let mut params: Vec<String> = Vec::new();
    let w = build_where_clauses(&b, &mut params);
    assert_eq!(w, "WHERE x IN (?,?,?)");
    assert_eq!(params, vec!["2", "1", "40"]);

    let mut d = builder_on("t");
    d.is_in("x", Value::I64s(vec![3, 3, 3]));
    let mut dup_params: Vec<String> = Vec::new();
    let dw = build_where_clauses(&d, &mut dup_params);
    assert_eq!(dw, "WHERE x IN (?,?,?)");
    assert_eq!(dup_params, vec!["3", "3", "3"]);
}

#[test]
fn null_tests_render_without_placeholder() {
    let mut b = builder_on("t");
    b.is_null("a");
    b.and_is_not_null("b");
    let mut params: Vec<String> = Vec::new();
    let w = build_where_clauses(&b, &mut params);
    assert_eq!(w, "WHERE a IS NULL AND b IS NOT NULL");
    assert!(params.is_empty());
}

#[test]
fn empty_builder_renders_no_where_clause() {
    let b = builder_on("t");
    let mut params: Vec<String> = Vec::new();
    let w = build_where_clauses(&b, &mut params);
    assert_eq!(w, "");
    assert!(params.is_empty());
    let mut all_params: Vec<String> = Vec::new();
    let sql = build_query(&b, &mut all_params);
    assert_eq!(sql, "SELECT t.* FROM t");
    assert!(all_params.is_empty());
}

#[test]
fn select_all_lists_every_target_table() {
    let b = QueryBuilder::new(vec!["t".to_string(), "u".to_string()]);
    let mut params: Vec<String> = Vec::new();
    let sql = build_query(&b, &mut params);
    assert_eq!(sql, "SELECT t.*, u.* FROM t,u");
}

#[test]
fn explicit_selection_replaces_table_stars() {
    let mut b = builder_on("t");
    b.select("a");
    b.select_multiple(vec!["b".to_string(), "c".to_string()]);
    b.eq("a", Value::I64(1));
    let mut params: Vec<String> = Vec::new();
    let sql = build_query(&b, &mut params);
    assert_eq!(sql, "SELECT a,b,c FROM t WHERE a = ?");
    assert_eq!(params, vec!["1"]);
}

#[test]
fn joins_render_fields_and_clauses() {
    let mut b = builder_on("t");
    b.left_join("u", "t.id", "=", "u.t_id");
    b.join(
        "v",
        "t.id",
        "=",
        "v.t_id",
        dirtybase::query::JoinType::Inner,
        Some(vec!["v.name".to_string()]),
    );
    let mut params: Vec<String> = Vec::new();
    let sql = build_query(&b, &mut params);
    assert_eq!(
        sql,
        "SELECT t.*, u.*, v.name FROM t left join u on t.id = u.t_id inner join v on t.id = v.t_id"
    );
}

#[test]
fn subquery_value_inlines_its_select_and_appends_its_params() {
    let mut inner = builder_on("u");
    inner.eq("kind", Value::Text("active".to_string()));
    let mut b = builder_on("t");
    b.eq("owner", Value::SubQuery(Box::new(inner)));
    b.and_gt("age", Value::I64(30));
    let mut params: Vec<String> = Vec::new();
    let sql = build_query(&b, &mut params);
    assert_eq!(
        sql,
        "SELECT t.* FROM t WHERE owner = (SELECT u.* FROM u WHERE kind = ?) AND age > ?"
    );
    assert_eq!(params, vec!["active", "30"]);
    assert_eq!(qmarks(&sql), params.len());
}

#[test]
fn boolean_values_bind_as_zero_or_one() {
    let mut b = builder_on("t");
    b.eq("active", Value::Bool(true));
    b.and_eq("hidden", Value::Bool(false));
    b.and_is_in("flags", Value::Bools(vec![true, false]));
    let mut params: Vec<String> = Vec::new();
    let w = build_where_clauses(&b, &mut params);
    assert_eq!(w, "WHERE active = ? AND hidden = ? AND flags IN (?,?)");
    assert_eq!(params, vec!["1", "0", "1", "0"]);
}

#[test]
fn unsigned_values_bind_across_the_whole_range() {
    let mut b = builder_on("t");
    b.eq("zero", Value::U64(0));
    b.and_eq("top", Value::U64(u64::MAX));
    b.and_is_in("mids", Value::U64s(vec![10, 0, 7]));
    let mut params: Vec<String> = Vec::new();
    build_where_clauses(&b, &mut params);
    assert_eq!(params, vec!["0", "18446744073709551615", "10", "0", "7"]);
}

#[test]
fn text_vector_binds_each_element_raw() {
    let mut b = builder_on("t");
    b.is_not_in("name", Value::Texts(vec!["a'b".to_string(), "".to_string()]));
    let mut params: Vec<String> = Vec::new();
    let w = build_where_clauses(&b, &mut params);
    assert_eq!(w, "WHERE name NOT IN (?,?)");
    assert_eq!(params, vec!["a'b", ""]);
}

#[test]
fn empty_vector_renders_an_empty_placeholder_list() {
    let mut b = builder_on("t");
    b.is_in("x", Value::I64s(vec![]));
    let mut params: Vec<String> = Vec::new();
    let w = build_where_clauses(&b, &mut params);
    assert_eq!(w, "WHERE x IN ()");
    assert!(params.is_empty());
}

#[test]
fn negative_numbers_bind_with_sign() {
    let mut b = builder_on("t");
    b.le("balance", Value::I64(-42));
    b.and_eq("floor", Value::I64(i64::MIN));
    let mut params: Vec<String> = Vec::new();
    build_where_clauses(&b, &mut params);
    assert_eq!(params, vec!["-42", "-9223372036854775808"]);
}
