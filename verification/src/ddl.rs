//! DDL generation for the MySQL dialect: one lookup table from the
//! abstract column-type vocabulary to concrete fragments, and the CREATE
//! TABLE statement built from a table definition.

use vstd::prelude::*;
use vstd::string::StringExecFns;

use crate::schema::BaseColumn;
use crate::schema::BaseTable;
use crate::schema::ColumnDefault;
use crate::schema::ColumnType;
use crate::schema::ForeignKey;
use crate::text::dec_str_nat;
use crate::text::u64_to_dec;

verus! {

/// The type fragment of one column type.
pub open spec fn type_sql(t: ColumnType) -> Seq<char> {
    match t {
        ColumnType::AutoIncrementId => "bigint(20) unsigned AUTO_INCREMENT PRIMARY KEY"@,
        ColumnType::Boolean => "tinyint(1)"@,
        ColumnType::Char(n) => "char("@ + dec_str_nat(n as nat)
            + ") COLLATE 'utf8mb4_unicode_ci'"@,
        ColumnType::Date => "datetime"@,
        ColumnType::Integer => "bigint(20)"@,
        ColumnType::Json => "json"@,
        ColumnType::Number => "double"@,
        ColumnType::String(n) => "varchar("@ + dec_str_nat(n as nat)
            + ") COLLATE 'utf8mb4_unicode_ci'"@,
        ColumnType::Text => "longtext"@,
        ColumnType::Uuid => "uuid"@,
    }
}

/// The nullability fragment: absence lets the database decide.
pub open spec fn null_sql(o: Option<bool>) -> Seq<char> {
    match o {
        Option::Some(true) => " NULL"@,
        Option::Some(false) => " NOT NULL"@,
        Option::None => Seq::empty(),
    }
}

/// The uniqueness fragment.
pub open spec fn unique_sql(u: bool) -> Seq<char> {
    if u {
        " UNIQUE"@
    } else {
        Seq::empty()
    }
}

/// The default fragment. A sortable unique identifier has no DDL
/// representation and contributes nothing.
pub open spec fn default_sql(o: Option<ColumnDefault>) -> Seq<char> {
    match o {
        Option::None => Seq::empty(),
        Option::Some(d) => match d {
            ColumnDefault::CreatedAt => " DEFAULT now()"@,
            ColumnDefault::UpdatedAt => " DEFAULT current_timestamp() ON UPDATE CURRENT_TIMESTAMP"@,
            ColumnDefault::Custom(s) => " DEFAULT '"@ + s@ + "'"@,
            ColumnDefault::EmptyArray => " DEFAULT []"@,
            ColumnDefault::EmptyObject => " DEFAULT {}"@,
            ColumnDefault::EmptyString => " DEFAULT "@,
            ColumnDefault::Uuid => " DEFAULT SYS_GUID()"@,
            ColumnDefault::Ulid => Seq::empty(),
            ColumnDefault::Zero => " DEFAULT 0"@,
        },
    }
}

/// The foreign-key fragment of one column.
pub open spec fn relationship_sql(o: Option<ForeignKey>, name: Seq<char>) -> Seq<char> {
    match o {
        Option::None => Seq::empty(),
        Option::Some(fk) => ", FOREIGN KEY (`"@ + name + "`) REFERENCES `"@ + fk.table@ + "` (`"@
            + fk.column@ + "`)"@ + (if fk.cascade_delete {
            " ON DELETE CASCADE"@
        } else {
            Seq::empty()
        }),
    }
}

/// The whole fragment one column definition renders as.
pub open spec fn column_sql(c: BaseColumn) -> Seq<char> {
    "`"@ + c.name@ + "` "@ + type_sql(c.column_type) + null_sql(c.is_nullable) + unique_sql(
        c.is_unique,
    ) + default_sql(c.default) + relationship_sql(c.relationship, c.name@)
}

/// All column fragments, comma-and-newline separated.
pub open spec fn columns_sql(cols: Seq<BaseColumn>) -> Seq<char>
    decreases cols.len(),
{
    if cols.len() == 0 {
        Seq::empty()
    } else if cols.len() == 1 {
        column_sql(cols[0])
    } else {
        columns_sql(cols.drop_last()) + ",\n"@ + column_sql(cols.last())
    }
}

/// The CREATE TABLE statement a table definition renders as.
pub open spec fn table_sql(t: BaseTable) -> Seq<char> {
    "CREATE TABLE `"@ + t.name@ + "` (\n"@ + columns_sql(t.columns@) + "\n) ENGINE='InnoDB';"@
}

/// A one-longer prefix of the column list adds a separator and the new
/// column's fragment.
proof fn lemma_columns_snoc(cols: Seq<BaseColumn>, i: int)
    requires
        0 < i < cols.len(),
    ensures
        columns_sql(cols.subrange(0, i + 1)) == columns_sql(cols.subrange(0, i)) + ",\n"@
            + column_sql(cols[i]),
{
    assert(cols.subrange(0, i + 1).drop_last() =~= cols.subrange(0, i));
    assert(cols.subrange(0, i + 1).last() == cols[i]);
}

/// Renders the type fragment of one column type.
fn type_fragment(t: &ColumnType) -> (r: String)
    ensures
        r@ == type_sql(*t),
{
    match t {
        ColumnType::AutoIncrementId => "bigint(20) unsigned AUTO_INCREMENT PRIMARY KEY".to_owned(),
        ColumnType::Boolean => "tinyint(1)".to_owned(),
        ColumnType::Char(n) => {
            let mut s = "char(".to_owned();
            let d = u64_to_dec(*n as u64);
            s.append(d.as_str());
            s.append(") COLLATE 'utf8mb4_unicode_ci'");
            proof {
                assert(s@ =~= type_sql(*t));
            }
            s
        },
        ColumnType::Date => "datetime".to_owned(),
        ColumnType::Integer => "bigint(20)".to_owned(),
        ColumnType::Json => "json".to_owned(),
        ColumnType::Number => "double".to_owned(),
        ColumnType::String(n) => {
            let mut s = "varchar(".to_owned();
            let d = u64_to_dec(*n as u64);
            s.append(d.as_str());
            s.append(") COLLATE 'utf8mb4_unicode_ci'");
            proof {
                assert(s@ =~= type_sql(*t));
            }
            s
        },
        ColumnType::Text => "longtext".to_owned(),
        ColumnType::Uuid => "uuid".to_owned(),
    }
}

/// Renders the nullability fragment.
fn null_fragment(o: &Option<bool>) -> (r: String)
    ensures
        r@ == null_sql(*o),
{
    match o {
        Some(true) => " NULL".to_owned(),
        Some(false) => " NOT NULL".to_owned(),
        None => {
            let s = String::new();
            proof {
                assert(s@ =~= null_sql(*o));
            }
            s
        },
    }
}

/// Renders the default fragment.
fn default_fragment(o: &Option<ColumnDefault>) -> (r: String)
    ensures
        r@ == default_sql(*o),
{
    match o {
        None => {
            let s = String::new();
            proof {
                assert(s@ =~= default_sql(*o));
            }
            s
        },
        Some(d) => match d {
            ColumnDefault::CreatedAt => " DEFAULT now()".to_owned(),
            ColumnDefault::UpdatedAt => " DEFAULT current_timestamp() ON UPDATE CURRENT_TIMESTAMP".to_owned(),
            ColumnDefault::Custom(text) => {
                let mut s = " DEFAULT '".to_owned();
                s.append(text.as_str());
                s.append("'");
                proof {
                    assert(s@ =~= default_sql(*o));
                }
                s
            },
            ColumnDefault::EmptyArray => " DEFAULT []".to_owned(),
            ColumnDefault::EmptyObject => " DEFAULT {}".to_owned(),
            ColumnDefault::EmptyString => " DEFAULT ".to_owned(),
            ColumnDefault::Uuid => " DEFAULT SYS_GUID()".to_owned(),
            ColumnDefault::Ulid => {
                let s = String::new();
                proof {
                    assert(s@ =~= default_sql(*o));
                }
                s
            },
            ColumnDefault::Zero => " DEFAULT 0".to_owned(),
        },
    }
}

/// Renders the foreign-key fragment.
fn relationship_fragment(o: &Option<ForeignKey>, name: &str) -> (r: String)
    ensures
        r@ == relationship_sql(*o, name@),
{
    match o {
        None => {
            let s = String::new();
            proof {
                assert(s@ =~= relationship_sql(*o, name@));
            }
            s
        },
        Some(fk) => {
            let mut s = ", FOREIGN KEY (`".to_owned();
            s.append(name);
            s.append("`) REFERENCES `");
            s.append(fk.table.as_str());
            s.append("` (`");
            s.append(fk.column.as_str());
            s.append("`)");
            if fk.cascade_delete {
                s.append(" ON DELETE CASCADE");
            }
            proof {
                assert(s@ =~= relationship_sql(*o, name@));
            }
            s
        },
    }
}

/// Renders one column definition. Deterministic: the fragment is a pure
/// function of the column.
pub fn create_column(column: &BaseColumn) -> (r: String)
    ensures
        r@ == column_sql(*column),
{
    let mut s = "`".to_owned();
    s.append(column.name.as_str());
    s.append("` ");
    let tf = type_fragment(&column.column_type);
    s.append(tf.as_str());
    let nf = null_fragment(&column.is_nullable);
    s.append(nf.as_str());
    if column.is_unique {
        s.append(" UNIQUE");
    }
    proof {
        assert(s@ =~= "`"@ + column.name@ + "` "@ + type_sql(column.column_type) + null_sql(
            column.is_nullable,
        ) + unique_sql(column.is_unique));
    }
    let df = default_fragment(&column.default);
    s.append(df.as_str());
    let rf = relationship_fragment(&column.relationship, column.name.as_str());
    s.append(rf.as_str());
    proof {
        assert(s@ =~= column_sql(*column));
    }
    s
}

/// Renders the CREATE TABLE statement for a table definition.
/// Deterministic: the statement is a pure function of the definition.
pub fn create_table_sql(table: &BaseTable) -> (r: String)
    ensures
        r@ == table_sql(*table),
{
    let mut s = "CREATE TABLE `".to_owned();
    s.append(table.name.as_str());
    s.append("` (\n");
    let ghost head = s@;
    let n = table.columns.len();
    if n > 0 {
        let first = create_column(&table.columns[0]);
        s.append(first.as_str());
        proof {
            assert(table.columns@.subrange(0, 1) =~= seq![table.columns@[0]]);
            assert(s@ =~= head + columns_sql(table.columns@.subrange(0, 1)));
        }
        let mut i: usize = 1;
        while i < n
            invariant
                1 <= i <= n,
                n == table.columns@.len(),
                head == "CREATE TABLE `"@ + table.name@ + "` (\n"@,
                s@ == head + columns_sql(table.columns@.subrange(0, i as int)),
            decreases n - i,
        {
            s.append(",\n");
            let frag = create_column(&table.columns[i]);
            s.append(frag.as_str());
            i = i + 1;
            proof {
                lemma_columns_snoc(table.columns@, i - 1);
                assert(s@ =~= head + columns_sql(table.columns@.subrange(0, i as int)));
            }
        }
        proof {
            assert(table.columns@.subrange(0, n as int) =~= table.columns@);
        }
    }
    s.append("\n) ENGINE='InnoDB';");
    proof {
        assert(s@ =~= table_sql(*table));
    }
    s
}

} // verus!
