use dirtybase::ddl::create_column;
use dirtybase::ddl::create_table_sql;
use dirtybase::schema::BaseColumn;
use dirtybase::schema::BaseTable;
use dirtybase::schema::ColumnDefault;
use dirtybase::schema::ColumnType;

#[test]
fn varchar_not_null_renders_exactly_and_deterministically() {
    let email = BaseColumn::new("email", ColumnType::String(255)).set_is_nullable(false);
    let first = create_column(&email);
    assert_eq!(
        first,
        "`email` varchar(255) COLLATE 'utf8mb4_unicode_ci' NOT NULL"
    );
    let again = create_column(&email);
    assert_eq!(first, again);
}

#[test]
fn every_column_type_maps_to_one_fragment() {
    let cases: Vec<(ColumnType, &str)> = vec![
        (
            ColumnType::AutoIncrementId,
            "bigint(20) unsigned AUTO_INCREMENT PRIMARY KEY",
        ),
        (ColumnType::Boolean, "tinyint(1)"),
        (ColumnType::Char(26), "char(26) COLLATE 'utf8mb4_unicode_ci'"),
        (ColumnType::Date, "datetime"),
        (ColumnType::Integer, "bigint(20)"),
        (ColumnType::Json, "json"),
        (ColumnType::Number, "double"),
        (
            ColumnType::String(512),
            "varchar(512) COLLATE 'utf8mb4_unicode_ci'",
        ),
        (ColumnType::Text, "longtext"),
        (ColumnType::Uuid, "uuid"),
    ];
    for (t, fragment) in cases {
        let c = BaseColumn::new("c", t);
        assert_eq!(create_column(&c), format!("`c` {}", fragment));
    }
}

#[test]
fn nullability_unique_and_defaults_render_in_order() {
    let c = BaseColumn::new("flag", ColumnType::Boolean)
        .set_is_nullable(true)
        .set_is_unique()
        .set_default(ColumnDefault::Zero);
    assert_eq!(create_column(&c), "`flag` tinyint(1) NULL UNIQUE DEFAULT 0");
}

#[test]
fn timestamp_defaults_render_their_functions() {
    let created = BaseColumn::new("created_at", ColumnType::Date)
        .set_default(ColumnDefault::CreatedAt);
    assert_eq!(create_column(&created), "`created_at` datetime DEFAULT now()");
    let updated = BaseColumn::new("updated_at", ColumnType::Date)
        .set_default(ColumnDefault::UpdatedAt);
    assert_eq!(
        create_column(&updated),
        "`updated_at` datetime DEFAULT current_timestamp() ON UPDATE CURRENT_TIMESTAMP"
    );
}

#[test]
fn custom_default_is_quoted() {
    let c = BaseColumn::new("status", ColumnType::String(255))
        .set_default(ColumnDefault::Custom("new".to_string()));
    assert_eq!(
        create_column(&c),
        "`status` varchar(255) COLLATE 'utf8mb4_unicode_ci' DEFAULT 'new'"
    );
}

#[test]
fn sortable_identifier_default_has_no_ddl_representation() {
    let c = BaseColumn::ulid("external_id");
    assert_eq!(create_column(&c), "`external_id` char(26) COLLATE 'utf8mb4_unicode_ci'");
}

#[test]
fn foreign_key_renders_with_and_without_cascade() {
    let plain = BaseColumn::new("company_id", ColumnType::Char(26))
        .references_without_cascade_delete("_core_company", "id");
    assert_eq!(
        create_column(&plain),
        "`company_id` char(26) COLLATE 'utf8mb4_unicode_ci', FOREIGN KEY (`company_id`) REFERENCES `_core_company` (`id`)"
    );
    let cascading = BaseColumn::new("company_id", ColumnType::Char(26))
        .references("_core_company", "id");
    assert_eq!(
        create_column(&cascading),
        "`company_id` char(26) COLLATE 'utf8mb4_unicode_ci', FOREIGN KEY (`company_id`) REFERENCES `_core_company` (`id`) ON DELETE CASCADE"
    );
}

#[test]
fn create_table_wraps_columns_with_engine_suffix() {
    let mut t = BaseTable::new("_core_migration");
    t.set_is_new(true);
    t.id(None);
    t.string("name");
    let sql = create_table_sql(&t);
    assert_eq!(
        sql,
        "CREATE TABLE `_core_migration` (\n`id` bigint(20) unsigned AUTO_INCREMENT PRIMARY KEY,\n`name` varchar(255) COLLATE 'utf8mb4_unicode_ci'\n) ENGINE='InnoDB';"
    );
    assert!(t.is_new());
}

#[test]
fn table_helpers_add_their_columns_in_order() {
    let mut t = BaseTable::new("_core_users");
    t.id_set();
    t.string("email");
    t.timestamps();
    t.soft_deletable();
    t.blame();
    let names: Vec<&str> = t.columns().iter().map(|c| c.name.as_str()).collect();
    assert_eq!(
        names,
        vec![
            "internal_id",
            "id",
            "email",
            "created_at",
            "updated_at",
            "deleted_at",
            "created_by",
            "updated_by"
        ]
    );
    let id = &t.columns()[1];
    assert!(matches!(id.column_type, ColumnType::Char(26)));
    assert!(id.is_unique);
    assert_eq!(id.is_nullable, Some(false));
}

#[test]
fn sized_string_and_json_helpers_set_their_types() {
    let mut t = BaseTable::new("_core_company");
    t.sized_string("description", 512);
    t.json("meta");
    t.ulid("external_id");
    assert!(matches!(t.columns()[0].column_type, ColumnType::String(512)));
    assert!(matches!(t.columns()[1].column_type, ColumnType::Json));
    assert!(matches!(t.columns()[2].column_type, ColumnType::Char(26)));
    assert!(matches!(
        t.columns()[2].default,
        Some(ColumnDefault::Ulid)
    ));
}
