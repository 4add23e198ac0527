//! The schema manager's decision core. Execution against a live connection
//! is the caller's concern: this layer builds the statements to run,
//! decides whether a create or update proceeds, and interprets the
//! outcomes handed back as plain values, so every decision is checked for
//! every possible outcome.

use vstd::prelude::*;

use crate::query::QueryBuilder;
use crate::query::strs_view;
use crate::save::SaveRecord;
use crate::schema::BaseTable;

verus! {

/// The closed set of supported backends; a new dialect adds a variant, not
/// an ad-hoc branch.
#[derive(Debug, PartialEq, Eq, Structural, Clone, Copy)]
pub enum DbKind {
    MySql,
}

/// The orchestration seam: stateless with respect to in-flight queries, so
/// concurrent callers each build their own statements and nothing is
/// staged on the manager.
#[derive(Debug)]
pub struct Manager {
    pub kind: DbKind,
}

impl Manager {
    pub fn new(kind: DbKind) -> (r: Self)
        ensures
            r.kind == kind,
    {
        Self { kind }
    }

    pub fn db_kind(&self) -> (r: DbKind)
        ensures
            r == self.kind,
    {
        self.kind
    }

    pub fn is_mysql(&self) -> (r: bool)
        ensures
            r == (self.kind is MySql),
    {
        match self.kind {
            DbKind::MySql => true,
        }
    }

    /// A fresh save-record builder for one table.
    pub fn insert(&self, name: &str) -> (r: SaveRecord)
        ensures
            r.table@ == name@,
            r.columns@ =~= Seq::<(String, String)>::empty(),
            r.wf(),
    {
        SaveRecord::new(name)
    }

    /// An empty table definition fetched for update.
    pub fn fetch_table_for_update(&self, name: &str) -> (r: BaseTable)
        ensures
            r.name@ == name@,
            r.columns@ =~= Seq::<crate::schema::BaseColumn>::empty(),
            !r.is_new,
    {
        BaseTable::new(name)
    }

    /// Whether a create proceeds, and with what: a table marked new when
    /// none exists yet, nothing when one already does.
    pub fn create_plan(&self, name: &str, exists: bool) -> (r: Option<BaseTable>)
        ensures
            exists ==> r is None,
            !exists ==> (r matches Some(t) && t.name@ == name@ && t.is_new && t.columns@.len()
                == 0),
    {
        if exists {
            None
        } else {
            let mut table = BaseTable::new(name);
            table.set_is_new(true);
            Some(table)
        }
    }

    /// Whether an update proceeds, and with what: a table marked existing
    /// when one exists, nothing otherwise.
    pub fn update_plan(&self, name: &str, exists: bool) -> (r: Option<BaseTable>)
        ensures
            !exists ==> r is None,
            exists ==> (r matches Some(t) && t.name@ == name@ && !t.is_new && t.columns@.len()
                == 0),
    {
        if exists {
            let mut table = BaseTable::new(name);
            table.set_is_new(false);
            Some(table)
        } else {
            None
        }
    }

    /// An empty builder over one target table.
    pub fn table(&self, table: String) -> (r: QueryBuilder)
        ensures
            r.where_clauses@ =~= Seq::<crate::query::WhereJoinOperator>::empty(),
            r.tables@ =~= seq![table],
            r.select_columns is None,
            r.set_columns is None,
            r.joins is None,
    {
        let mut tables: Vec<String> = Vec::new();
        tables.push(table);
        QueryBuilder::new(tables)
    }

    /// An empty builder over several target tables.
    pub fn tables(&self, tables: Vec<String>) -> (r: QueryBuilder)
        ensures
            r.where_clauses@ =~= Seq::<crate::query::WhereJoinOperator>::empty(),
            r.tables == tables,
            r.select_columns is None,
            r.set_columns is None,
            r.joins is None,
    {
        QueryBuilder::new(tables)
    }
}

/// The catalog lookup behind an existence check: one parameterized
/// statement and its single bound parameter.
pub fn has_table_query(name: &str) -> (r: (String, Vec<String>))
    ensures
        r.0@ == "SELECT table_name FROM INFORMATION_SCHEMA.TABLES WHERE table_name = ?"@,
        strs_view(r.1@) =~= seq![name@],
{
    let statement = "SELECT table_name FROM INFORMATION_SCHEMA.TABLES WHERE table_name = ?"
        .to_owned();
    let mut params: Vec<String> = Vec::new();
    params.push(name.to_owned());
    (statement, params)
}

/// The catalog lookup for a table's columns: one parameterized statement
/// and its single bound parameter.
pub fn table_columns_query(name: &str) -> (r: (String, Vec<String>))
    ensures
        r.0@ == "SELECT * FROM INFORMATION_SCHEMA.COLUMNS WHERE table_name = ?"@,
        strs_view(r.1@) =~= seq![name@],
{
    let statement = "SELECT * FROM INFORMATION_SCHEMA.COLUMNS WHERE table_name = ?".to_owned();
    let mut params: Vec<String> = Vec::new();
    params.push(name.to_owned());
    (statement, params)
}

/// Reads the outcome of the catalog lookup fail-open: a table exists only
/// when a row came back; a failed lookup reports false and never an error.
pub fn interpret_has_table(lookup: Result<bool, String>) -> (r: bool)
    ensures
        r == (lookup matches Ok(true)),
{
    match lookup {
        Ok(found) => found,
        Err(_) => false,
    }
}

/// The catalog model an execution environment maintains: the set of table
/// names that exist. Executing a CREATE TABLE statement adds the
/// statement's table name.
pub open spec fn catalog_after_commit(catalog: Set<Seq<char>>, t: BaseTable) -> Set<Seq<char>> {
    catalog.insert(t.name@)
}

/// What the existence check reports against a catalog.
pub open spec fn catalog_has_table(catalog: Set<Seq<char>>, name: Seq<char>) -> bool {
    catalog.contains(name)
}

/// LAW: the round trip — a table built as new and committed is reported
/// present by the existence check that follows, whatever the catalog held
/// before.
pub proof fn lemma_commit_then_has_table(catalog: Set<Seq<char>>, t: BaseTable)
    ensures
        catalog_has_table(catalog_after_commit(catalog, t), t.name@),
{
}

} // verus!
