//! Association lists from column names to rendered values, with
//! last-write-wins update semantics and unique keys.

use vstd::prelude::*;

use crate::text::str_eq;

verus! {

/// Looks a key up, later entries shadowing earlier ones.
pub open spec fn assoc_lookup(s: Seq<(String, String)>, k: Seq<char>) -> Option<Seq<char>>
    decreases s.len(),
{
    if s.len() == 0 {
        None
    } else if s.last().0@ == k {
        Some(s.last().1@)
    } else {
        assoc_lookup(s.drop_last(), k)
    }
}

/// No two entries share a key.
pub open spec fn assoc_unique(s: Seq<(String, String)>) -> bool {
    forall|i: int, j: int| 0 <= i < j < s.len() ==> s[i].0@ != s[j].0@
}

/// Appending a fresh key extends the lookup pointwise.
proof fn lemma_assoc_lookup_push(s: Seq<(String, String)>, e: (String, String), k: Seq<char>)
    ensures
        assoc_lookup(s.push(e), k) == (if e.0@ == k {
            Some(e.1@)
        } else {
            assoc_lookup(s, k)
        }),
{
    assert(s.push(e).drop_last() =~= s);
}

/// Replacing the value at the unique index holding a key rewrites exactly
/// that key's lookup.
proof fn lemma_assoc_lookup_update(
    s: Seq<(String, String)>,
    i: int,
    e: (String, String),
    k: Seq<char>,
)
    requires
        assoc_unique(s),
        0 <= i < s.len(),
        e.0@ == s[i].0@,
    ensures
        assoc_lookup(s.update(i, e), k) == (if e.0@ == k {
            Some(e.1@)
        } else {
            assoc_lookup(s, k)
        }),
    decreases s.len(),
{
    let t = s.update(i, e);
    if i == s.len() - 1 {
        assert(t.last() == e);
        assert(t.drop_last() =~= s.drop_last());
        if e.0@ != k {
            lemma_assoc_lookup_no_key(s.drop_last(), e.0@);
        }
    } else {
        assert(t.last() == s.last());
        assert(t.drop_last() =~= s.drop_last().update(i, e));
        lemma_assoc_lookup_update(s.drop_last(), i, e, k);
    }
}

/// Under unique keys, the entry holding a key decides its lookup.
pub proof fn lemma_assoc_lookup_present(s: Seq<(String, String)>, i: int)
    requires
        assoc_unique(s),
        0 <= i < s.len(),
    ensures
        assoc_lookup(s, s[i].0@) == Some(s[i].1@),
    decreases s.len(),
{
    if i == s.len() - 1 {
    } else {
        assert(s.last().0@ != s[i].0@);
        assert(s.drop_last()[i] == s[i]);
        lemma_assoc_lookup_present(s.drop_last(), i);
    }
}

/// A key absent from every entry looks up to `None`.
pub proof fn lemma_assoc_lookup_no_key(s: Seq<(String, String)>, k: Seq<char>)
    requires
        forall|i: int| 0 <= i < s.len() ==> s[i].0@ != k,
    ensures
        assoc_lookup(s, k) is None,
    decreases s.len(),
{
    if s.len() > 0 {
        lemma_assoc_lookup_no_key(s.drop_last(), k);
    }
}

/// Binds `column` to `value`, replacing an existing binding of the same
/// column and keeping keys unique.
pub fn assoc_set(entries: &mut Vec<(String, String)>, column: &str, value: &str)
    requires
        assoc_unique(old(entries)@),
    ensures
        assoc_unique(final(entries)@),
        forall|k: Seq<char>|
            assoc_lookup(final(entries)@, k) == (if k == column@ {
                Some(value@)
            } else {
                assoc_lookup(old(entries)@, k)
            }),
{
    let ghost orig = entries@;
    let n = entries.len();
    let mut i: usize = 0;
    while i < n
        invariant
            orig == old(entries)@,
            n == entries@.len(),
            entries@ == orig,
            assoc_unique(orig),
            i <= n,
            forall|j: int| 0 <= j < i ==> orig[j].0@ != column@,
        decreases n - i,
    {
        if str_eq(entries[i].0.as_str(), column) {
            let e = (entries[i].0.clone(), value.to_owned());
            let ghost ge = e;
            proof {
                assert(ge.0@ == orig[i as int].0@);
            }
            entries.set(i, e);
            proof {
                assert forall|k: Seq<char>|
                    assoc_lookup(entries@, k) == (if k == column@ {
                        Some(value@)
                    } else {
                        assoc_lookup(orig, k)
                    }) by {
                    lemma_assoc_lookup_update(orig, i as int, ge, k);
                }
            }
            return ;
        }
        i = i + 1;
    }
    let e = (column.to_owned(), value.to_owned());
    let ghost ge = e;
    entries.push(e);
    proof {
        assert forall|k: Seq<char>|
            assoc_lookup(entries@, k) == (if k == column@ {
                Some(value@)
            } else {
                assoc_lookup(orig, k)
            }) by {
            lemma_assoc_lookup_push(orig, ge, k);
        }
        assert(assoc_unique(entries@)) by {
            assert(forall|j: int| 0 <= j < orig.len() ==> #[trigger] entries@[j].0@ != column@);
        }
    }
}

} // verus!
