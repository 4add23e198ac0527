//! The tagged union of bindable values.

use vstd::prelude::*;

use crate::query::QueryBuilder;

verus! {

/// Any bindable scalar or scalar-vector used in conditions, defaults, or
/// update payloads, plus a nested sub-query. Vector variants pair with the
/// `In`/`NotIn` operators; scalar variants pair with every other operator.
#[derive(Debug)]
pub enum Value {
    Null,
    I64(i64),
    I64s(Vec<i64>),
    U64(u64),
    U64s(Vec<u64>),
    Text(String),
    Texts(Vec<String>),
    Bool(bool),
    Bools(Vec<bool>),
    SubQuery(Box<QueryBuilder>),
}

impl Value {
    /// A vector value, legal only with set-membership operators.
    pub open spec fn is_vector(self) -> bool {
        self is I64s || self is U64s || self is Texts || self is Bools
    }

    /// A single bindable value (or a sub-query standing for one).
    pub open spec fn is_scalar(self) -> bool {
        self is I64 || self is U64 || self is Text || self is Bool || self is SubQuery
    }

    /// How many elements a vector value holds.
    pub open spec fn vector_len(self) -> nat {
        match self {
            Value::I64s(v) => v@.len(),
            Value::U64s(v) => v@.len(),
            Value::Texts(v) => v@.len(),
            Value::Bools(v) => v@.len(),
            _ => 0,
        }
    }
}

} // verus!
