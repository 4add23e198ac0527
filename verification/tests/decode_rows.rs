use dirtybase::decode::DataValue;
use dirtybase::decode::RawColumn;
use dirtybase::decode::RawData;
use dirtybase::decode::decode_row;
use dirtybase::decode::decode_rows;

fn cell(name: &str, db_type: &str, data: RawData) -> RawColumn {
    RawColumn {
        name: name.to_string(),
        db_type: db_type.to_string(),
        data,
    }
}

#[test]
fn unmapped_type_name_leaves_other_columns_intact() {
    let row = vec![
        cell("id", "BIGINT UNSIGNED", RawData::UInt(7)),
        cell("blob_col", "BLOB", RawData::Missing),
        cell("name", "VARCHAR", RawData::Text("ada".to_string())),
    ];
    let decoded = decode_row(&row);
    assert_eq!(decoded.len(), 2);
    assert_eq!(decoded[0].0, "id");
    assert!(matches!(decoded[0].1, DataValue::UInt(7)));
    assert_eq!(decoded[1].0, "name");
    assert!(matches!(&decoded[1].1, DataValue::Text(s) if s == "ada"));
}

#[test]
fn made_up_type_name_is_skipped_not_fatal() {
    let row = vec![
        cell("a", "GEOMETRY", RawData::Text("...".to_string())),
        cell("b", "INT", RawData::Int(5)),
    ];
    let decoded = decode_row(&row);
    assert_eq!(decoded.len(), 1);
    assert_eq!(decoded[0].0, "b");
    assert!(matches!(decoded[0].1, DataValue::Int(5)));
}

#[test]
fn numeric_read_failures_fall_back_to_zero() {
    let row = vec![
        cell("i", "INT", RawData::Missing),
        cell("u", "SMALLINT UNSIGNED", RawData::Missing),
        cell("f", "DOUBLE", RawData::Missing),
        cell("b", "BOOLEAN", RawData::Missing),
    ];
    let decoded = decode_row(&row);
    assert!(matches!(decoded[0].1, DataValue::Int(0)));
    assert!(matches!(decoded[1].1, DataValue::UInt(0)));
    assert!(matches!(decoded[2].1, DataValue::Int(0)));
    assert!(matches!(decoded[3].1, DataValue::Bool(false)));
}

#[test]
fn text_and_temporal_read_failures_fall_back_to_null() {
    let row = vec![
        cell("s", "TEXT", RawData::Missing),
        cell("d", "DATETIME", RawData::Missing),
    ];
    let decoded = decode_row(&row);
    assert!(matches!(decoded[0].1, DataValue::Null));
    assert!(matches!(decoded[1].1, DataValue::Null));
}

#[test]
fn each_mapped_kind_decodes_its_payload() {
    let row = vec![
        cell("flag", "TINYINT(1)", RawData::Bool(true)),
        cell("small", "TINYINT", RawData::Int(-3)),
        cell("big", "BIGINT", RawData::Int(1234567890123)),
        cell("ubig", "BIGINT UNSIGNED", RawData::UInt(u64::MAX)),
        cell("ratio", "FLOAT", RawData::Text("2.5".to_string())),
        cell("label", "CHAR", RawData::Text("x".to_string())),
        cell("at", "TIMESTAMP", RawData::Text("2020-01-01 00:00:00".to_string())),
    ];
    let decoded = decode_row(&row);
    assert_eq!(decoded.len(), 7);
    assert!(matches!(decoded[0].1, DataValue::Bool(true)));
    assert!(matches!(decoded[1].1, DataValue::Int(-3)));
    assert!(matches!(decoded[2].1, DataValue::Int(1234567890123)));
    assert!(matches!(decoded[3].1, DataValue::UInt(u64::MAX)));
    assert!(matches!(&decoded[4].1, DataValue::Decimal(s) if s == "2.5"));
    assert!(matches!(&decoded[5].1, DataValue::Text(s) if s == "x"));
    assert!(matches!(&decoded[6].1, DataValue::Text(s) if s == "2020-01-01 00:00:00"));
}

#[test]
fn rows_decode_independently_and_in_order() {
    let rows = vec![
        vec![cell("n", "INT", RawData::Int(1))],
        vec![cell("n", "INT", RawData::Int(2))],
        vec![],
    ];
    let decoded = decode_rows(&rows);
    assert_eq!(decoded.len(), 3);
    assert!(matches!(decoded[0][0].1, DataValue::Int(1)));
    assert!(matches!(decoded[1][0].1, DataValue::Int(2)));
    assert!(decoded[2].is_empty());
}
