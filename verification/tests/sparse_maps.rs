use manifest_model::fault::{DecodeError, PathStep};
use manifest_model::scalar::{read_bytes, read_int, read_ints, read_long, read_longs};
use manifest_model::sparse::{
    decode_bytes_pairs, decode_num_pairs, encode_bytes_pairs, encode_num_pairs, BytesPair, NumPair,
};
use manifest_model::value::{Field, Value, ValueKind};

fn field(name: &str, value: Value) -> Field {
    Field { name: name.to_string(), value }
}

fn member(name: &str) -> PathStep {
    PathStep::Member(name.to_string())
}

#[test]
fn counts_round_trip_with_repeated_keys_and_in_order() {
    let pairs = vec![(5, 50), (1, i64::MIN), (5, 51), (i32::MIN, 0), (i32::MAX, i64::MAX)];
    assert_eq!(decode_num_pairs(&encode_num_pairs(&pairs)), Ok(pairs));
}

#[test]
fn bounds_round_trip_with_repeated_keys_and_in_order() {
    let pairs = vec![(5, vec![1, 2]), (1, vec![]), (5, vec![255, 0, 255])];
    assert_eq!(decode_bytes_pairs(&encode_bytes_pairs(&pairs)), Ok(pairs));
}

#[test]
fn empty_maps_round_trip() {
    assert_eq!(encode_num_pairs(&vec![]), Value::Array(vec![]));
    assert_eq!(decode_num_pairs(&Value::Array(vec![])), Ok(vec![]));
    assert_eq!(decode_bytes_pairs(&encode_bytes_pairs(&vec![])), Ok(vec![]));
}

#[test]
fn a_pair_is_a_record_of_key_and_value() {
    assert_eq!(
        NumPair::serialize_as(&(7, 70)),
        Value::Record(vec![field("key", Value::Int(7)), field("value", Value::Long(70))])
    );
    assert_eq!(
        BytesPair::serialize_as(&(7, vec![1, 2])),
        Value::Record(vec![field("key", Value::Int(7)), field("value", Value::Bytes(vec![1, 2]))])
    );
    assert_eq!(NumPair::deserialize_as(&NumPair::serialize_as(&(7, 70))), Ok((7, 70)));
    assert_eq!(
        BytesPair::deserialize_as(&BytesPair::serialize_as(&(7, vec![1, 2]))),
        Ok((7, vec![1, 2]))
    );
}

#[test]
fn a_pair_without_key_or_value_fails() {
    let no_key = Value::Record(vec![field("value", Value::Long(1))]);
    let no_value = Value::Record(vec![field("key", Value::Int(1))]);
    assert_eq!(
        NumPair::deserialize_as(&no_key),
        Err(DecodeError::FieldDecode { path: vec![], found: ValueKind::Record })
    );
    assert_eq!(
        BytesPair::deserialize_as(&no_value),
        Err(DecodeError::FieldDecode { path: vec![], found: ValueKind::Record })
    );
    assert_eq!(
        decode_num_pairs(&Value::Array(vec![NumPair::serialize_as(&(1, 2)), no_value])),
        Err(DecodeError::FieldDecode { path: vec![PathStep::Item(1)], found: ValueKind::Record })
    );
}

#[test]
fn a_pair_of_the_wrong_shape_fails() {
    let text_key =
        Value::Record(vec![field("key", Value::Text("a".to_string())), field("value", Value::Long(1))]);
    assert_eq!(
        NumPair::deserialize_as(&text_key),
        Err(DecodeError::FieldDecode { path: vec![member("key")], found: ValueKind::Text })
    );
    let count_for_bytes =
        Value::Record(vec![field("key", Value::Int(1)), field("value", Value::Long(1))]);
    assert_eq!(
        BytesPair::deserialize_as(&count_for_bytes),
        Err(DecodeError::FieldDecode { path: vec![member("value")], found: ValueKind::Long })
    );
    assert_eq!(
        decode_num_pairs(&Value::Array(vec![Value::Int(3)])),
        Err(DecodeError::FieldDecode { path: vec![PathStep::Item(0)], found: ValueKind::Int })
    );
    assert_eq!(
        decode_num_pairs(&Value::Record(vec![])),
        Err(DecodeError::FieldDecode { path: vec![], found: ValueKind::Record })
    );
}

#[test]
fn extra_members_are_passed_over_and_the_first_of_a_name_counts() {
    let v = Value::Record(vec![
        field("note", Value::Null),
        field("value", Value::Long(1)),
        field("key", Value::Int(2)),
        field("key", Value::Int(3)),
    ]);
    assert_eq!(NumPair::deserialize_as(&v), Ok((2, 1)));
}

#[test]
fn integers_are_read_by_their_range() {
    assert_eq!(read_long(&Value::Int(-5)), Ok(-5));
    assert_eq!(read_long(&Value::Long(1 << 40)), Ok(1 << 40));
    assert_eq!(read_int(&Value::Long(2147483647)), Ok(2147483647));
    assert_eq!(read_int(&Value::Long(-2147483648)), Ok(-2147483648));
    assert_eq!(
        read_int(&Value::Long(2147483648)),
        Err(DecodeError::FieldDecode { path: vec![], found: ValueKind::Long })
    );
    assert_eq!(
        read_int(&Value::Long(-2147483649)),
        Err(DecodeError::FieldDecode { path: vec![], found: ValueKind::Long })
    );
    assert_eq!(
        read_long(&Value::Boolean(true)),
        Err(DecodeError::FieldDecode { path: vec![], found: ValueKind::Boolean })
    );
}

#[test]
fn bytes_are_read_from_bytes_or_from_a_list_of_small_integers() {
    assert_eq!(read_bytes(&Value::Bytes(vec![1, 2])), Ok(vec![1, 2]));
    assert_eq!(
        read_bytes(&Value::Array(vec![Value::Int(0), Value::Long(255)])),
        Ok(vec![0, 255])
    );
    assert_eq!(
        read_bytes(&Value::Array(vec![Value::Int(0), Value::Int(256)])),
        Err(DecodeError::FieldDecode { path: vec![PathStep::Item(1)], found: ValueKind::Int })
    );
    assert_eq!(
        read_bytes(&Value::Array(vec![Value::Long(-1)])),
        Err(DecodeError::FieldDecode { path: vec![PathStep::Item(0)], found: ValueKind::Long })
    );
    assert_eq!(
        read_bytes(&Value::Text("ab".to_string())),
        Err(DecodeError::FieldDecode { path: vec![], found: ValueKind::Text })
    );
}

#[test]
fn lists_of_integers_stop_at_their_first_bad_item() {
    assert_eq!(read_longs(&Value::Array(vec![Value::Int(1), Value::Long(2)])), Ok(vec![1, 2]));
    assert_eq!(read_ints(&Value::Array(vec![Value::Int(1), Value::Long(2)])), Ok(vec![1, 2]));
    assert_eq!(
        read_longs(&Value::Array(vec![Value::Int(1), Value::Null, Value::Text(String::new())])),
        Err(DecodeError::FieldDecode { path: vec![PathStep::Item(1)], found: ValueKind::Null })
    );
    assert_eq!(
        read_ints(&Value::Null),
        Err(DecodeError::FieldDecode { path: vec![], found: ValueKind::Null })
    );
}
