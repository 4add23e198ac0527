use dirtybase::ddl::create_table_sql;
use dirtybase::manager::DbKind;
use dirtybase::manager::Manager;
use dirtybase::manager::has_table_query;
use dirtybase::manager::interpret_has_table;
use dirtybase::manager::table_columns_query;
use dirtybase::mysql::build_query;
use dirtybase::query_values::Value;
use dirtybase::save::SaveAction;

#[test]
fn has_table_reports_false_when_the_lookup_fails() {
    assert!(!interpret_has_table(Err("connection refused".to_string())));
}

#[test]
fn has_table_reports_what_the_lookup_found() {
    assert!(interpret_has_table(Ok(true)));
    assert!(!interpret_has_table(Ok(false)));
}

#[test]
fn has_table_query_binds_the_name_out_of_band() {
    let (statement, params) = has_table_query("_core_users");
    assert_eq!(
        statement,
        "SELECT table_name FROM INFORMATION_SCHEMA.TABLES WHERE table_name = ?"
    );
    assert_eq!(params, vec!["_core_users"]);
}

#[test]
fn table_columns_query_binds_the_name_out_of_band() {
    let (statement, params) = table_columns_query("_core_users");
    assert_eq!(
        statement,
        "SELECT * FROM INFORMATION_SCHEMA.COLUMNS WHERE table_name = ?"
    );
    assert_eq!(params, vec!["_core_users"]);
}

// A round trip against an in-memory catalog standing in for the database:
// creating a table that does not exist commits its DDL, and the existence
// check that follows reports true.
#[test]
fn create_then_has_table_round_trip() {
    let manager = Manager::new(DbKind::MySql);
    let mut catalog: Vec<String> = Vec::new();

    let name = "_core_company";
    let exists_before = interpret_has_table(Ok(catalog.iter().any(|t| t == name)));
    assert!(!exists_before);

    let planned = manager.create_plan(name, exists_before);
    let mut table = planned.expect("a missing table must be planned for creation");
    assert!(table.is_new());
    table.id_set();
    table.string("name");
    let ddl = create_table_sql(&table);
    assert!(ddl.starts_with("CREATE TABLE `_core_company` (\n"));
    // Executing the CREATE TABLE adds the table to the catalog.
    catalog.push(name.to_string());

    let exists_after = interpret_has_table(Ok(catalog.iter().any(|t| t == name)));
    assert!(exists_after);
    // A second create is a no-op.
    assert!(manager.create_plan(name, exists_after).is_none());
}

#[test]
fn update_plan_only_proceeds_on_an_existing_table() {
    let manager = Manager::new(DbKind::MySql);
    assert!(manager.update_plan("missing", false).is_none());
    let t = manager.update_plan("present", true).unwrap();
    assert!(!t.is_new());
    assert_eq!(t.name(), "present");
}

#[test]
fn manager_reports_its_backend_kind() {
    let manager = Manager::new(DbKind::MySql);
    assert!(matches!(manager.db_kind(), DbKind::MySql));
    assert!(manager.is_mysql());
}

#[test]
fn manager_builds_queries_over_tables() {
    let manager = Manager::new(DbKind::MySql);
    let mut q = manager.table("_core_users".to_string());
    q.is_in("internal_id", Value::I64s(vec![2, 1, 40]));
    let mut params: Vec<String> = Vec::new();
    let sql = build_query(&q, &mut params);
    assert_eq!(
        sql,
        "SELECT _core_users.* FROM _core_users WHERE internal_id IN (?,?,?)"
    );
    assert_eq!(params, vec!["2", "1", "40"]);

    let q2 = manager.tables(vec!["a".to_string(), "b".to_string()]);
    let mut params2: Vec<String> = Vec::new();
    assert_eq!(build_query(&q2, &mut params2), "SELECT a.*, b.* FROM a,b");
}

#[test]
fn save_record_updates_when_an_identity_value_is_present() {
    let manager = Manager::new(DbKind::MySql);
    let mut record = manager.insert("_core_users");
    record.set("email", "a@b.c".to_string());
    assert!(matches!(record.save_action(), SaveAction::Insert));
    record.set("internal_id", "42".to_string());
    match record.save_action() {
        SaveAction::Update(id) => assert_eq!(id, "42"),
        SaveAction::Insert => panic!("an identity value must force an update"),
    }
}

#[test]
fn save_record_set_keeps_the_last_write() {
    let manager = Manager::new(DbKind::MySql);
    let mut record = manager.insert("_core_users");
    record.set("email", "first".to_string());
    record.set("email", "second".to_string());
    record.set_many(vec![
        ("username".to_string(), "u1".to_string()),
        ("email".to_string(), "third".to_string()),
    ]);
    let cols = record.columns();
    assert_eq!(cols.len(), 2);
    assert!(cols.contains(&("email".to_string(), "third".to_string())));
    assert!(cols.contains(&("username".to_string(), "u1".to_string())));
    assert_eq!(record.table(), "_core_users");
}

#[test]
fn fetch_table_for_update_starts_empty_and_existing() {
    let manager = Manager::new(DbKind::MySql);
    let t = manager.fetch_table_for_update("_core_file_meta");
    assert_eq!(t.name(), "_core_file_meta");
    assert!(t.columns().is_empty());
    assert!(!t.is_new());
}
