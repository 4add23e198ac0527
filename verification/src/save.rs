//! The save-record builder: accumulates column values for one row and
//! decides between insert and update by the presence of an identity value.

use vstd::prelude::*;

use crate::assoc::assoc_lookup;
use crate::assoc::assoc_set;
use crate::assoc::assoc_unique;
use crate::assoc::lemma_assoc_lookup_no_key;
use crate::assoc::lemma_assoc_lookup_present;
use crate::text::str_eq;

verus! {

/// What a save amounts to: an insert of a new row, or an update of the
/// row whose identity value the record carries.
#[derive(Debug)]
pub enum SaveAction {
    Insert,
    Update(String),
}

/// One row's pending column values for a table.
#[derive(Debug)]
pub struct SaveRecord {
    pub table: String,
    pub columns: Vec<(String, String)>,
}

impl SaveRecord {
    /// The column bindings have no repeated names.
    pub open spec fn wf(self) -> bool {
        assoc_unique(self.columns@)
    }

    pub fn new(table: &str) -> (r: Self)
        ensures
            r.table@ == table@,
            r.columns@ =~= Seq::<(String, String)>::empty(),
            r.wf(),
    {
        Self { table: table.to_owned(), columns: Vec::new() }
    }

    pub fn table(&self) -> (r: &str)
        ensures
            r@ == self.table@,
    {
        self.table.as_str()
    }

    pub fn columns(&self) -> (r: &Vec<(String, String)>)
        ensures
            r == &self.columns,
    {
        &self.columns
    }

    /// Binds one column value, last write winning on a repeated name.
    pub fn set(&mut self, column: &str, value: String)
        requires
            old(self).wf(),
        ensures
            final(self).wf(),
            final(self).table == old(self).table,
            forall|k: Seq<char>|
                assoc_lookup(final(self).columns@, k) == (if k == column@ {
                    Some(value@)
                } else {
                    assoc_lookup(old(self).columns@, k)
                }),
    {
        assoc_set(&mut self.columns, column, value.as_str());
    }

    /// Binds several column values in order, last write winning.
    pub fn set_many(&mut self, key_values: Vec<(String, String)>)
        requires
            old(self).wf(),
        ensures
            final(self).wf(),
            final(self).table == old(self).table,
            forall|k: Seq<char>|
                assoc_lookup(final(self).columns@, k) == (match assoc_lookup(key_values@, k) {
                    Some(v) => Some(v),
                    None => assoc_lookup(old(self).columns@, k)
                }),
    {
        let ghost pre = self.columns@;
        let n = key_values.len();
        let mut i: usize = 0;
        while i < n
            invariant
                n == key_values@.len(),
                i <= n,
                self.table == old(self).table,
                assoc_unique(self.columns@),
                forall|k: Seq<char>|
                    assoc_lookup(self.columns@, k) == (match assoc_lookup(
                        key_values@.subrange(0, i as int),
                        k,
                    ) {
                        Some(v) => Some(v),
                        None => assoc_lookup(pre, k)
                    }),
            decreases n - i,
        {
            assoc_set(&mut self.columns, key_values[i].0.as_str(), key_values[i].1.as_str());
            i = i + 1;
            proof {
                lemma_save_lookup_snoc(key_values@, i as int);
            }
        }
        proof {
            assert(key_values@.subrange(0, n as int) =~= key_values@);
        }
    }

    /// Decides what saving this record does: update when an identity value
    /// is present, insert otherwise.
    pub fn save_action(&self) -> (r: SaveAction)
        requires
            self.wf(),
        ensures
            match assoc_lookup(self.columns@, "internal_id"@) {
                Some(id) => r matches SaveAction::Update(s) && s@ == id,
                None => r is Insert,
            },
    {
        let n = self.columns.len();
        let mut i: usize = 0;
        while i < n
            invariant
                n == self.columns@.len(),
                assoc_unique(self.columns@),
                i <= n,
                forall|j: int| 0 <= j < i ==> self.columns@[j].0@ != "internal_id"@,
            decreases n - i,
        {
            if str_eq(self.columns[i].0.as_str(), "internal_id") {
                proof {
                    lemma_assoc_lookup_present(self.columns@, i as int);
                }
                return SaveAction::Update(self.columns[i].1.clone());
            }
            i = i + 1;
        }
        proof {
            lemma_assoc_lookup_no_key(self.columns@, "internal_id"@);
        }
        SaveAction::Insert
    }
}

/// A lookup in a prefix extended by one entry goes to that entry first.
proof fn lemma_save_lookup_snoc(s: Seq<(String, String)>, i: int)
    requires
        0 < i <= s.len(),
    ensures
        forall|k: Seq<char>|
            assoc_lookup(s.subrange(0, i), k) == (if s[i - 1].0@ == k {
                Some(s[i - 1].1@)
            } else {
                assoc_lookup(s.subrange(0, i - 1), k)
            }),
{
    assert(s.subrange(0, i).drop_last() =~= s.subrange(0, i - 1));
    assert(s.subrange(0, i).last() == s[i - 1]);
}

} // verus!
