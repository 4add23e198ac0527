use dirtybase::mysql::build_where_clauses;
use dirtybase::query::Condition;
use dirtybase::query::JoinQueryBuilder;
use dirtybase::query::JoinType;
use dirtybase::query::Operator;
use dirtybase::query::QueryBuilder;
use dirtybase::query::WhereJoin;
use dirtybase::query::WhereJoinOperator;
use dirtybase::query_values::Value;

fn rendered(b: &QueryBuilder) -> String {
    let mut params: Vec<String> = Vec::new();
    build_where_clauses(b, &mut params)
}

#[test]
fn first_condition_carries_no_connective() {
    let mut b = QueryBuilder::new(vec!["t".to_string()]);
    b.eq("a", Value::I64(1));
    assert_eq!(rendered(&b), "WHERE a = ?");
}

#[test]
fn bare_call_after_existing_condition_joins_with_and() {
    let mut b = QueryBuilder::new(vec!["t".to_string()]);
    b.eq("a", Value::I64(1));
    b.eq("b", Value::I64(2));
    assert_eq!(rendered(&b), "WHERE a = ? AND b = ?");
}

#[test]
fn explicit_or_before_any_condition_degrades_to_first() {
    let mut b = QueryBuilder::new(vec!["t".to_string()]);
    b.or_eq("a", Value::I64(1));
    assert_eq!(rendered(&b), "WHERE a = ?");
}

#[test]
fn explicit_connectives_match_their_calls() {
    let mut b = QueryBuilder::new(vec!["t".to_string()]);
    b.gt("a", Value::I64(1));
    b.and_le("b", Value::I64(2));
    b.or_not_eq("c", Value::I64(3));
    assert_eq!(rendered(&b), "WHERE a > ? AND b < ? OR c <> ?");
}

#[test]
fn negated_operators_render_with_not_prefix() {
    let mut b = QueryBuilder::new(vec!["t".to_string()]);
    b.ngt("a", Value::I64(1));
    b.and_nle("b", Value::I64(2));
    b.and_nlike("c", Value::Text("x%".to_string()));
    b.and_not_gt_or_eq("d", Value::I64(3));
    b.and_nle_or_eq("e", Value::I64(4));
    assert_eq!(
        rendered(&b),
        "WHERE NOT a > ? AND NOT b < ? AND NOT c like ? AND NOT d >= ? AND NOT e <= ?"
    );
}

#[test]
fn where_takes_a_prebuilt_condition() {
    let mut b = QueryBuilder::new(vec!["t".to_string()]);
    let c = Condition::new("a", Operator::Equal, Value::I64(5));
    b.where_(WhereJoinOperator::First(c));
    assert_eq!(rendered(&b), "WHERE a = ?");
}

#[test]
fn where_operator_routes_by_tag() {
    let mut b = QueryBuilder::new(vec!["t".to_string()]);
    b.where_operator("a", Operator::Equal, Value::I64(1), None);
    b.where_operator("b", Operator::Greater, Value::I64(2), Some(WhereJoin::Or));
    b.where_operator("c", Operator::Less, Value::I64(3), Some(WhereJoin::And));
    assert_eq!(rendered(&b), "WHERE a = ? OR b > ? AND c < ?");
}

#[test]
fn condition_accessors_return_the_parts() {
    let c = Condition::new("col", Operator::Like, Value::Text("x%".to_string()));
    assert_eq!(c.column().as_str(), "col");
    assert!(matches!(c.operator(), Operator::Like));
    assert!(matches!(c.value(), Value::Text(s) if s == "x%"));
}

#[test]
fn join_builder_composes_its_clause() {
    let j = JoinQueryBuilder::new("u", "t.id", "=", "u.t_id", JoinType::Left, None);
    assert_eq!(j.table(), "u");
    assert_eq!(j.join_clause(), "t.id = u.t_id");
    assert!(matches!(j.join_type(), JoinType::Left));
    assert!(j.select_columns().is_none());
}

#[test]
fn join_builder_accumulates_selected_columns() {
    let mut j = JoinQueryBuilder::new("u", "t.id", "=", "u.t_id", JoinType::Inner, None);
    j.select("u.name");
    j.select_multiple(vec!["u.age".to_string(), "u.city".to_string()]);
    let cols = j.select_columns().clone().unwrap();
    assert_eq!(cols, vec!["u.name", "u.age", "u.city"]);
}

#[test]
fn join_type_names_match_their_keywords() {
    assert_eq!(JoinType::Inner.name(), "inner");
    assert_eq!(JoinType::Left.name(), "left");
    assert_eq!(JoinType::Right.name(), "right");
}

#[test]
fn set_keeps_the_last_write_per_column() {
    let mut b = QueryBuilder::new(vec!["t".to_string()]);
    b.set("a", "1");
    b.set("b", "2");
    b.set("a", "3");
    let cols = b.set_columns().clone().unwrap();
    assert_eq!(cols.len(), 2);
    assert!(cols.contains(&("a".to_string(), "3".to_string())));
    assert!(cols.contains(&("b".to_string(), "2".to_string())));
}

#[test]
fn set_multiple_applies_in_order() {
    let mut b = QueryBuilder::new(vec!["t".to_string()]);
    b.set("a", "old");
    b.set_multiple(vec![
        ("a".to_string(), "mid".to_string()),
        ("b".to_string(), "2".to_string()),
        ("a".to_string(), "new".to_string()),
    ]);
    let cols = b.set_columns().clone().unwrap();
    assert_eq!(cols.len(), 2);
    assert!(cols.contains(&("a".to_string(), "new".to_string())));
    assert!(cols.contains(&("b".to_string(), "2".to_string())));
}

#[test]
fn getters_expose_the_builder_parts() {
    let mut b = QueryBuilder::new(vec!["t".to_string(), "u".to_string()]);
    assert_eq!(b.tables(), &vec!["t".to_string(), "u".to_string()]);
    assert!(b.select_columns().is_none());
    assert!(b.set_columns().is_none());
    assert!(b.joins().is_none());
    assert!(b.where_clauses().is_empty());
    b.left_join_and_select("v", "t.id", "=", "v.t_id", vec!["v.x".to_string()]);
    assert_eq!(b.joins().as_ref().unwrap().len(), 1);
}
