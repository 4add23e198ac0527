//! A database-agnostic query-builder core: a condition/expression tree, a
//! fluent query builder, a schema/DDL definition layer, a MySQL-flavoured SQL
//! generator, and a row decoder that turns raw relational rows into generic
//! structured values.
//!
//! The library itself performs no I/O: it builds parameterized statements,
//! interprets driver outcomes handed to it as plain values, and decodes rows
//! that the caller has already fetched.

pub mod assoc;
pub mod ddl;
pub mod decode;
pub mod manager;
pub mod mysql;
pub mod query;
pub mod query_values;
pub mod save;
pub mod schema;
pub mod text;
