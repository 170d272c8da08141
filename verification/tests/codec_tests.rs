use deep_blue_fund::codec::{
    ArgValue, FieldType, arguments_match_schema, decode_arguments, encode_arguments,
};

#[test]
fn encode_u32_little_endian() {
    let values = vec![ArgValue::U32(0x01020304)];
    let bytes = encode_arguments(&values);
    assert_eq!(bytes, vec![4u8, 3, 2, 1]);
}

#[test]
fn encode_u64_little_endian() {
    let values = vec![ArgValue::U64(0x1122334455667788)];
    let bytes = encode_arguments(&values);
    assert_eq!(bytes, vec![0x88u8, 0x77, 0x66, 0x55, 0x44, 0x33, 0x22, 0x11]);
}

#[test]
fn encode_bool_and_u8() {
    let values = vec![ArgValue::Bool(true), ArgValue::Bool(false), ArgValue::U8(9)];
    let bytes = encode_arguments(&values);
    assert_eq!(bytes, vec![1u8, 0, 9]);
}

#[test]
fn round_trip_mixed_schema() {
    let schema = vec![FieldType::U64, FieldType::Bool, FieldType::U32, FieldType::U8];
    let values = vec![
        ArgValue::U64(u64::MAX),
        ArgValue::Bool(true),
        ArgValue::U32(0),
        ArgValue::U8(0x7f),
    ];
    assert!(arguments_match_schema(&schema, &values));
    let bytes = encode_arguments(&values);
    let decoded = decode_arguments(&schema, &bytes);
    assert_eq!(decoded, Some(values));
}

#[test]
fn round_trip_empty_schema() {
    let schema: Vec<FieldType> = vec![];
    let values: Vec<ArgValue> = vec![];
    let bytes = encode_arguments(&values);
    assert!(bytes.is_empty());
    assert_eq!(decode_arguments(&schema, &bytes), Some(vec![]));
}

#[test]
fn decode_rejects_truncated_bytes() {
    let schema = vec![FieldType::U32];
    let bytes = vec![1u8, 2];
    assert_eq!(decode_arguments(&schema, &bytes), None);
}

#[test]
fn decode_rejects_trailing_bytes() {
    let schema = vec![FieldType::U8];
    let bytes = vec![1u8, 2];
    assert_eq!(decode_arguments(&schema, &bytes), None);
}

#[test]
fn decode_rejects_invalid_bool_byte() {
    let schema = vec![FieldType::Bool];
    let bytes = vec![2u8];
    assert_eq!(decode_arguments(&schema, &bytes), None);
}

#[test]
fn schema_mismatch_detected() {
    let schema = vec![FieldType::U32];
    let values = vec![ArgValue::U8(1)];
    assert!(!arguments_match_schema(&schema, &values));
    let values_short: Vec<ArgValue> = vec![];
    assert!(!arguments_match_schema(&schema, &values_short));
}
