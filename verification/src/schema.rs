//! The schema definition layer: columns, their types, defaults and
//! relationships, and the table definition a DDL commit consumes.

use vstd::prelude::*;

verus! {

/// The abstract column-type vocabulary; each maps to exactly one DDL
/// fragment in a given dialect.
#[derive(Debug, PartialEq, Eq, Structural, Clone, Copy)]
pub enum ColumnType {
    AutoIncrementId,
    Boolean,
    Char(u32),
    Date,
    Integer,
    Json,
    Number,
    String(u32),
    Text,
    Uuid,
}

/// The closed set of column defaults. A sortable unique identifier has no
/// DDL representation: it is supplied at insert time, never as a DB-level
/// default.
#[derive(Debug)]
pub enum ColumnDefault {
    CreatedAt,
    UpdatedAt,
    Custom(String),
    EmptyArray,
    EmptyObject,
    EmptyString,
    Uuid,
    Ulid,
    Zero,
}

/// A foreign-key relationship to one column of another table.
#[derive(Debug)]
pub struct ForeignKey {
    pub table: String,
    pub column: String,
    pub cascade_delete: bool,
}

impl ForeignKey {
    pub fn table(&self) -> (r: &str)
        ensures
            r@ == self.table@,
    {
        self.table.as_str()
    }

    pub fn column(&self) -> (r: &str)
        ensures
            r@ == self.column@,
    {
        self.column.as_str()
    }

    pub fn cascade_delete(&self) -> (r: bool)
        ensures
            r == self.cascade_delete,
    {
        self.cascade_delete
    }
}

/// One column of a table definition: a type, nullability (absence lets the
/// database decide), uniqueness, an optional default, and an optional
/// foreign-key relationship.
#[derive(Debug)]
pub struct BaseColumn {
    pub name: String,
    pub column_type: ColumnType,
    pub is_nullable: Option<bool>,
    pub is_unique: bool,
    pub default: Option<ColumnDefault>,
    pub relationship: Option<ForeignKey>,
}

impl BaseColumn {
    /// A fresh column: no nullability choice, not unique, no default, no
    /// relationship.
    pub open spec fn fresh(self, name: Seq<char>, t: ColumnType) -> bool {
        &&& self.name@ == name
        &&& self.column_type == t
        &&& self.is_nullable is None
        &&& !self.is_unique
        &&& self.default is None
        &&& self.relationship is None
    }

    pub fn new(name: &str, column_type: ColumnType) -> (r: Self)
        ensures
            r.fresh(name@, column_type),
    {
        Self {
            name: name.to_owned(),
            column_type,
            is_nullable: None,
            is_unique: false,
            default: None,
            relationship: None,
        }
    }

    /// A sortable-unique-identifier column: fixed 26 characters, no
    /// DB-level default, filled at insert time.
    pub fn ulid(name: &str) -> (r: Self)
        ensures
            r.name@ == name@,
            r.column_type == ColumnType::Char(26),
            r.is_nullable is None,
            !r.is_unique,
            r.default matches Some(d) && d is Ulid,
            r.relationship is None,
    {
        Self::new(name, ColumnType::Char(26)).set_default(ColumnDefault::Ulid)
    }

    /// Chooses nullability explicitly.
    pub fn set_is_nullable(self, nullable: bool) -> (r: Self)
        ensures
            r == (Self { is_nullable: Some(nullable), ..self }),
    {
        Self { is_nullable: Some(nullable), ..self }
    }

    /// Marks the column unique.
    pub fn set_is_unique(self) -> (r: Self)
        ensures
            r == (Self { is_unique: true, ..self }),
    {
        Self { is_unique: true, ..self }
    }

    /// Sets the column default.
    pub fn set_default(self, default: ColumnDefault) -> (r: Self)
        ensures
            r == (Self { default: Some(default), ..self }),
    {
        Self { default: Some(default), ..self }
    }

    /// Adds a foreign key that cascades on delete.
    pub fn references(self, table: &str, column: &str) -> (r: Self)
        ensures
            r.relationship matches Some(fk) && fk.table@ == table@ && fk.column@ == column@
                && fk.cascade_delete,
            r.name == self.name,
            r.column_type == self.column_type,
            r.is_nullable == self.is_nullable,
            r.is_unique == self.is_unique,
            r.default == self.default,
    {
        Self {
            relationship: Some(
                ForeignKey { table: table.to_owned(), column: column.to_owned(), cascade_delete: true },
            ),
            ..self
        }
    }

    /// Adds a foreign key that does not cascade on delete.
    pub fn references_without_cascade_delete(self, table: &str, column: &str) -> (r: Self)
        ensures
            r.relationship matches Some(fk) && fk.table@ == table@ && fk.column@ == column@
                && !fk.cascade_delete,
            r.name == self.name,
            r.column_type == self.column_type,
            r.is_nullable == self.is_nullable,
            r.is_unique == self.is_unique,
            r.default == self.default,
    {
        Self {
            relationship: Some(
                ForeignKey {
                    table: table.to_owned(),
                    column: column.to_owned(),
                    cascade_delete: false,
                },
            ),
            ..self
        }
    }
}

/// A table definition: a name, its ordered columns, and whether it is
/// defined from scratch or fetched for update.
#[derive(Debug)]
pub struct BaseTable {
    pub name: String,
    pub columns: Vec<BaseColumn>,
    pub is_new: bool,
}

/// One column was appended; name and newness stand.
pub open spec fn adds_column(pre: BaseTable, post: BaseTable) -> bool {
    &&& post.columns@.len() == pre.columns@.len() + 1
    &&& post.columns@.drop_last() == pre.columns@
    &&& post.name == pre.name
    &&& post.is_new == pre.is_new
}

impl BaseTable {
    pub fn new(name: &str) -> (r: Self)
        ensures
            r.name@ == name@,
            r.columns@ =~= Seq::<BaseColumn>::empty(),
            !r.is_new,
    {
        Self { name: name.to_owned(), columns: Vec::new(), is_new: false }
    }

    pub fn name(&self) -> (r: &str)
        ensures
            r@ == self.name@,
    {
        self.name.as_str()
    }

    pub fn columns(&self) -> (r: &Vec<BaseColumn>)
        ensures
            r == &self.columns,
    {
        &self.columns
    }

    pub fn is_new(&self) -> (r: bool)
        ensures
            r == self.is_new,
    {
        self.is_new
    }

    pub fn set_is_new(&mut self, is_new: bool)
        ensures
            final(self).is_new == is_new,
            final(self).name == old(self).name,
            final(self).columns == old(self).columns,
    {
        self.is_new = is_new;
    }

    /// Appends one fully built column.
    pub fn add(&mut self, column: BaseColumn)
        ensures
            final(self).columns@ == old(self).columns@.push(column),
            final(self).name == old(self).name,
            final(self).is_new == old(self).is_new,
    {
        self.columns.push(column);
    }

    /// An auto-increment identity column, named `id` unless a name is
    /// given.
    pub fn id(&mut self, name: Option<&str>)
        ensures
            adds_column(*old(self), *final(self)),
            ({
                let c = final(self).columns@.last();
                match name {
                    Some(n) => c.fresh(n@, ColumnType::AutoIncrementId),
                    None => c.fresh("id"@, ColumnType::AutoIncrementId),
                }
            }),
    {
        let n = match name {
            Some(n) => n,
            None => "id",
        };
        let column = BaseColumn::new(n, ColumnType::AutoIncrementId);
        self.add(column);
        proof {
            assert(self.columns@.drop_last() =~= old(self).columns@);
        }
    }

    /// The identity pair: an internal auto-increment key plus a unique,
    /// non-null, sortable external identifier.
    pub fn id_set(&mut self)
        ensures
            final(self).columns@.len() == old(self).columns@.len() + 2,
            final(self).columns@.subrange(0, old(self).columns@.len() as int) == old(
                self,
            ).columns@,
            ({
                let c = final(self).columns@[old(self).columns@.len() as int];
                c.fresh("internal_id"@, ColumnType::AutoIncrementId)
            }),
            ({
                let c = final(self).columns@.last();
                &&& c.name@ == "id"@
                &&& c.column_type == ColumnType::Char(26)
                &&& c.is_nullable == Some(false)
                &&& c.is_unique
                &&& c.default matches Some(d) && d is Ulid
                &&& c.relationship is None
            }),
            final(self).name == old(self).name,
            final(self).is_new == old(self).is_new,
    {
        self.add(BaseColumn::new("internal_id", ColumnType::AutoIncrementId));
        let id = BaseColumn::new("id", ColumnType::Char(26)).set_is_nullable(
            false,
        ).set_is_unique().set_default(ColumnDefault::Ulid);
        self.add(id);
        proof {
            assert(self.columns@.subrange(0, old(self).columns@.len() as int) =~= old(
                self,
            ).columns@);
        }
    }

    /// A variable-length string column capped at 255 characters.
    pub fn string(&mut self, name: &str)
        ensures
            adds_column(*old(self), *final(self)),
            final(self).columns@.last().fresh(name@, ColumnType::String(255)),
    {
        self.add(BaseColumn::new(name, ColumnType::String(255)));
        proof {
            assert(self.columns@.drop_last() =~= old(self).columns@);
        }
    }

    /// A variable-length string column with an explicit cap.
    pub fn sized_string(&mut self, name: &str, size: u32)
        ensures
            adds_column(*old(self), *final(self)),
            final(self).columns@.last().fresh(name@, ColumnType::String(size)),
    {
        self.add(BaseColumn::new(name, ColumnType::String(size)));
        proof {
            assert(self.columns@.drop_last() =~= old(self).columns@);
        }
    }

    /// A sortable-unique-identifier column: fixed 26 characters, filled at
    /// insert time. For an adjusted one, build with `BaseColumn::ulid` and
    /// `add`.
    pub fn ulid(&mut self, name: &str)
        ensures
            adds_column(*old(self), *final(self)),
            ({
                let c = final(self).columns@.last();
                &&& c.name@ == name@
                &&& c.column_type == ColumnType::Char(26)
                &&& c.is_nullable is None
                &&& !c.is_unique
                &&& c.default matches Some(d) && d is Ulid
                &&& c.relationship is None
            }),
    {
        self.add(BaseColumn::ulid(name));
        proof {
            assert(self.columns@.drop_last() =~= old(self).columns@);
        }
    }

    /// A JSON document column.
    pub fn json(&mut self, name: &str)
        ensures
            adds_column(*old(self), *final(self)),
            final(self).columns@.last().fresh(name@, ColumnType::Json),
    {
        self.add(BaseColumn::new(name, ColumnType::Json));
        proof {
            assert(self.columns@.drop_last() =~= old(self).columns@);
        }
    }

    /// A creation timestamp, defaulted by the database.
    pub fn created_at(&mut self)
        ensures
            adds_column(*old(self), *final(self)),
            ({
                let c = final(self).columns@.last();
                &&& c.name@ == "created_at"@
                &&& c.column_type == ColumnType::Date
                &&& c.default matches Some(d) && d is CreatedAt
            }),
    {
        self.add(BaseColumn::new("created_at", ColumnType::Date).set_default(
            ColumnDefault::CreatedAt,
        ));
        proof {
            assert(self.columns@.drop_last() =~= old(self).columns@);
        }
    }

    /// A modification timestamp, updated by the database on every write.
    pub fn updated_at(&mut self)
        ensures
            adds_column(*old(self), *final(self)),
            ({
                let c = final(self).columns@.last();
                &&& c.name@ == "updated_at"@
                &&& c.column_type == ColumnType::Date
                &&& c.default matches Some(d) && d is UpdatedAt
            }),
    {
        self.add(BaseColumn::new("updated_at", ColumnType::Date).set_default(
            ColumnDefault::UpdatedAt,
        ));
        proof {
            assert(self.columns@.drop_last() =~= old(self).columns@);
        }
    }

    /// The usual timestamp pair.
    pub fn timestamps(&mut self)
        ensures
            final(self).columns@.len() == old(self).columns@.len() + 2,
            final(self).columns@.subrange(0, old(self).columns@.len() as int) == old(
                self,
            ).columns@,
            ({
                let c = final(self).columns@[old(self).columns@.len() as int];
                c.name@ == "created_at"@ && c.column_type == ColumnType::Date
            }),
            ({
                let c = final(self).columns@.last();
                c.name@ == "updated_at"@ && c.column_type == ColumnType::Date
            }),
            final(self).name == old(self).name,
            final(self).is_new == old(self).is_new,
    {
        self.created_at();
        self.updated_at();
        proof {
            assert(self.columns@.subrange(0, old(self).columns@.len() as int) =~= old(
                self,
            ).columns@);
        }
    }

    /// A nullable deletion timestamp for soft deletes.
    pub fn soft_deletable(&mut self)
        ensures
            adds_column(*old(self), *final(self)),
            ({
                let c = final(self).columns@.last();
                &&& c.name@ == "deleted_at"@
                &&& c.column_type == ColumnType::Date
                &&& c.is_nullable == Some(true)
            }),
    {
        self.add(BaseColumn::new("deleted_at", ColumnType::Date).set_is_nullable(true));
        proof {
            assert(self.columns@.drop_last() =~= old(self).columns@);
        }
    }

    /// The audit pair: who created and who last changed a row.
    pub fn blame(&mut self)
        ensures
            final(self).columns@.len() == old(self).columns@.len() + 2,
            final(self).columns@.subrange(0, old(self).columns@.len() as int) == old(
                self,
            ).columns@,
            ({
                let c = final(self).columns@[old(self).columns@.len() as int];
                c.name@ == "created_by"@ && c.column_type == ColumnType::Char(26)
                    && c.is_nullable == Some(true)
            }),
            ({
                let c = final(self).columns@.last();
                c.name@ == "updated_by"@ && c.column_type == ColumnType::Char(26)
                    && c.is_nullable == Some(true)
            }),
            final(self).name == old(self).name,
            final(self).is_new == old(self).is_new,
    {
        self.add(BaseColumn::new("created_by", ColumnType::Char(26)).set_is_nullable(true));
        self.add(BaseColumn::new("updated_by", ColumnType::Char(26)).set_is_nullable(true));
        proof {
            assert(self.columns@.subrange(0, old(self).columns@.len() as int) =~= old(
                self,
            ).columns@);
        }
    }
}

} // verus!
