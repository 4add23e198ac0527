//! The row decoder: turns raw result rows, whose column types are only
//! known at runtime by their reported type names, into generic structured
//! values.
//!
//! A read failure falls back to a documented, deterministic default — zero
//! for numeric kinds, null for text and temporal kinds — instead of
//! failing the whole result set. A column whose type name is unmapped is
//! left out of the output and never disturbs the other columns.

use vstd::prelude::*;

use crate::text::str_eq;

verus! {

/// What the driver handed back for one cell: the raw payload when the
/// typed read succeeded, or nothing when it failed.
#[derive(Debug)]
pub enum RawData {
    Missing,
    Bool(bool),
    Int(i64),
    UInt(u64),
    Text(String),
}

/// One cell of a fetched row: the column name, the type name the database
/// reported for it, and the raw payload.
#[derive(Debug)]
pub struct RawColumn {
    pub name: String,
    pub db_type: String,
    pub data: RawData,
}

/// A decoded generic value. A floating-point column carries its decimal
/// rendering, exchanged as text at the driver boundary.
#[derive(Debug)]
pub enum DataValue {
    Null,
    Bool(bool),
    Int(i64),
    UInt(u64),
    Decimal(String),
    Text(String),
}

/// The type names decoded as booleans.
pub open spec fn bool_name(t: Seq<char>) -> bool {
    t == "BOOLEAN"@ || t == "TINYINT(1)"@
}

/// The type names decoded as signed integers.
pub open spec fn signed_name(t: Seq<char>) -> bool {
    t == "TINYINT"@ || t == "SMALLINT"@ || t == "INT"@ || t == "BIGINT"@
}

/// The type names decoded as unsigned integers.
pub open spec fn unsigned_name(t: Seq<char>) -> bool {
    t == "TINYINT UNSIGNED"@ || t == "SMALLINT UNSIGNED"@ || t == "INT UNSIGNED"@ || t
        == "BIGINT UNSIGNED"@
}

/// The type names decoded as floating-point numbers.
pub open spec fn float_name(t: Seq<char>) -> bool {
    t == "DOUBLE"@ || t == "FLOAT"@
}

/// The type names decoded as character data.
pub open spec fn text_name(t: Seq<char>) -> bool {
    t == "CHAR"@ || t == "VARCHAR"@ || t == "TEXT"@
}

/// The type names decoded as temporal data, rendered as text.
pub open spec fn temporal_name(t: Seq<char>) -> bool {
    t == "TIMESTAMP"@ || t == "DATE"@ || t == "TIME"@ || t == "DATETIME"@
}

/// Whether a type name is mapped at all: an unmapped column is absent from
/// the output.
pub open spec fn mapped_name(t: Seq<char>) -> bool {
    bool_name(t) || signed_name(t) || unsigned_name(t) || float_name(t) || text_name(t)
        || temporal_name(t)
}

/// How one cell decodes: `None` for an unmapped type name, otherwise the
/// decoded value, with the deterministic default on a failed read.
pub open spec fn decode_cell(t: Seq<char>, data: RawData) -> Option<DataValue> {
    if bool_name(t) {
        Some(
            match data {
                RawData::Bool(b) => DataValue::Bool(b),
                _ => DataValue::Bool(false),
            },
        )
    } else if signed_name(t) {
        Some(
            match data {
                RawData::Int(v) => DataValue::Int(v),
                _ => DataValue::Int(0),
            },
        )
    } else if unsigned_name(t) {
        Some(
            match data {
                RawData::UInt(v) => DataValue::UInt(v),
                _ => DataValue::UInt(0),
            },
        )
    } else if float_name(t) {
        Some(
            match data {
                RawData::Text(s) => DataValue::Decimal(s),
                _ => DataValue::Int(0),
            },
        )
    } else if text_name(t) || temporal_name(t) {
        Some(
            match data {
                RawData::Text(s) => DataValue::Text(s),
                _ => DataValue::Null,
            },
        )
    } else {
        None
    }
}

/// The ordered mapping a row decodes to: one entry per mapped column, in
/// column order, each decoded from its own cell alone.
pub open spec fn decode_row_spec(cols: Seq<RawColumn>) -> Seq<(String, DataValue)>
    decreases cols.len(),
{
    if cols.len() == 0 {
        Seq::empty()
    } else {
        decode_row_spec(cols.drop_last()) + (match decode_cell(
            cols.last().db_type@,
            cols.last().data,
        ) {
            Some(v) => seq![(cols.last().name, v)],
            None => Seq::empty(),
        })
    }
}

/// Decodes one cell by its reported type name.
pub fn decode_cell_exec(col: &RawColumn) -> (r: Option<DataValue>)
    ensures
        r == decode_cell(col.db_type@, col.data),
{
    let t = col.db_type.as_str();
    if str_eq(t, "BOOLEAN") || str_eq(t, "TINYINT(1)") {
        Some(
            match &col.data {
                RawData::Bool(b) => DataValue::Bool(*b),
                _ => DataValue::Bool(false),
            },
        )
    } else if str_eq(t, "TINYINT") || str_eq(t, "SMALLINT") || str_eq(t, "INT") || str_eq(
        t,
        "BIGINT",
    ) {
        Some(
            match &col.data {
                RawData::Int(v) => DataValue::Int(*v),
                _ => DataValue::Int(0),
            },
        )
    } else if str_eq(t, "TINYINT UNSIGNED") || str_eq(t, "SMALLINT UNSIGNED") || str_eq(
        t,
        "INT UNSIGNED",
    ) || str_eq(t, "BIGINT UNSIGNED") {
        Some(
            match &col.data {
                RawData::UInt(v) => DataValue::UInt(*v),
                _ => DataValue::UInt(0),
            },
        )
    } else if str_eq(t, "DOUBLE") || str_eq(t, "FLOAT") {
        Some(
            match &col.data {
                RawData::Text(s) => DataValue::Decimal(s.clone()),
                _ => DataValue::Int(0),
            },
        )
    } else if str_eq(t, "CHAR") || str_eq(t, "VARCHAR") || str_eq(t, "TEXT") || str_eq(
        t,
        "TIMESTAMP",
    ) || str_eq(t, "DATE") || str_eq(t, "TIME") || str_eq(t, "DATETIME") {
        Some(
            match &col.data {
                RawData::Text(s) => DataValue::Text(s.clone()),
                _ => DataValue::Null,
            },
        )
    } else {
        None
    }
}

/// Decodes one row into its ordered name-to-value mapping.
pub fn decode_row(cols: &Vec<RawColumn>) -> (r: Vec<(String, DataValue)>)
    ensures
        r@ == decode_row_spec(cols@),
{
    let mut out: Vec<(String, DataValue)> = Vec::new();
    let n = cols.len();
    let mut i: usize = 0;
    while i < n
        invariant
            n == cols@.len(),
            i <= n,
            out@ =~= decode_row_spec(cols@.subrange(0, i as int)),
        decreases n - i,
    {
        match decode_cell_exec(&cols[i]) {
            Some(v) => {
                out.push((cols[i].name.clone(), v));
            },
            None => {},
        }
        i = i + 1;
        proof {
            assert(cols@.subrange(0, i as int).drop_last() =~= cols@.subrange(0, i - 1));
            assert(cols@.subrange(0, i as int).last() == cols@[i - 1]);
            assert(out@ =~= decode_row_spec(cols@.subrange(0, i as int)));
        }
    }
    proof {
        assert(cols@.subrange(0, n as int) =~= cols@);
    }
    out
}

/// Decodes every fetched row, keeping row order.
pub fn decode_rows(rows: &Vec<Vec<RawColumn>>) -> (r: Vec<Vec<(String, DataValue)>>)
    ensures
        r@.len() == rows@.len(),
        forall|i: int| 0 <= i < rows@.len() ==> #[trigger] r@[i]@ == decode_row_spec(rows@[i]@),
{
    let mut out: Vec<Vec<(String, DataValue)>> = Vec::new();
    let n = rows.len();
    let mut i: usize = 0;
    while i < n
        invariant
            n == rows@.len(),
            i <= n,
            out@.len() == i,
            forall|j: int| 0 <= j < i ==> #[trigger] out@[j]@ == decode_row_spec(rows@[j]@),
        decreases n - i,
    {
        let row = decode_row(&rows[i]);
        out.push(row);
        i = i + 1;
    }
    out
}

/// LAW: a column with an unmapped type name is simply absent from the
/// output; dropping it from the input leaves every other column's decoding
/// untouched.
pub proof fn lemma_unmapped_column_transparent(cols: Seq<RawColumn>, i: int)
    requires
        0 <= i < cols.len(),
        !mapped_name(cols[i].db_type@),
    ensures
        decode_row_spec(cols.remove(i)) == decode_row_spec(cols),
    decreases cols.len(),
{
    if i == cols.len() - 1 {
        assert(cols.remove(i) =~= cols.drop_last());
    } else {
        assert(cols.remove(i).drop_last() =~= cols.drop_last().remove(i));
        assert(cols.remove(i).last() == cols.last());
        lemma_unmapped_column_transparent(cols.drop_last(), i);
    }
}

} // verus!
