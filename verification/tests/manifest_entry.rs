use manifest_model::codes::{EntryStatus, FileContent, FileFormat};
use manifest_model::data_file::DataFile;
use manifest_model::entry::ManifestEntry;
use manifest_model::fault::{DecodeError, Mismatch, PathStep};
use manifest_model::value::{Field, Value, ValueKind};

fn field(name: &str, value: Value) -> Field {
    Field { name: name.to_string(), value }
}

fn member(name: &str) -> PathStep {
    PathStep::Member(name.to_string())
}

fn replace(fields: &mut Vec<Field>, name: &str, value: Value) {
    let at = fields.iter().position(|f| f.name == name).unwrap();
    fields[at] = field(name, value);
}

fn remove(fields: &mut Vec<Field>, name: &str) {
    let at = fields.iter().position(|f| f.name == name).unwrap();
    fields.remove(at);
}

fn data_file_fields() -> Vec<Field> {
    vec![
        field("file_path", Value::Text("data/f1.parquet".to_string())),
        field("file_format", Value::Text("PARQUET".to_string())),
        field("partition", Value::Record(vec![field("day", Value::Int(19000))])),
        field("record_count", Value::Long(100)),
        field("file_size_in_bytes", Value::Long(2048)),
        field("column_sizes", Value::Null),
        field("value_counts", Value::Null),
        field("null_value_counts", Value::Null),
        field("distinct_counts", Value::Null),
        field("lower_bounds", Value::Null),
        field("upper_bounds", Value::Null),
        field("key_metadata", Value::Null),
        field("content", Value::Int(0)),
        field("nan_value_counts", Value::Null),
        field("sort_order_id", Value::Int(0)),
    ]
}

fn entry_fields(data_file: Vec<Field>) -> Vec<Field> {
    vec![
        field("status", Value::Int(1)),
        field("snapshot_id", Value::Null),
        field("data_file", Value::Record(data_file)),
        field("sequence_number", Value::Null),
        field("file_sequence_number", Value::Null),
    ]
}

fn plain_data_file() -> DataFile {
    DataFile {
        file_path: "data/f1.parquet".to_string(),
        file_format: FileFormat::Parquet,
        partition: Value::Record(vec![field("day", Value::Int(19000))]),
        record_count: 100,
        file_size_in_bytes: 2048,
        column_sizes: vec![],
        value_counts: vec![],
        null_value_counts: vec![],
        distinct_counts: vec![],
        lower_bounds: vec![],
        upper_bounds: vec![],
        key_metadata: vec![],
        split_offsets: vec![],
        equality_ids: vec![],
        content: FileContent::Data,
        nan_value_counts: vec![],
        sort_order_id: 0,
    }
}

#[test]
fn added_entry_with_null_ids_and_null_statistics_decodes() {
    let decoded = ManifestEntry::decode(&Value::Record(entry_fields(data_file_fields()))).unwrap();
    assert_eq!(decoded.status, EntryStatus::Added);
    assert_eq!(decoded.snapshot_id, None);
    assert_eq!(decoded.sequence_number, None);
    assert_eq!(decoded.file_sequence_number, None);
    assert_eq!(decoded.data_file.record_count, 100);
    assert_eq!(decoded.data_file.file_size_in_bytes, 2048);
    assert!(decoded.data_file.column_sizes.is_empty());
    assert_eq!(decoded.data_file, plain_data_file());
}

#[test]
fn absent_statistics_decode_as_null_ones_do() {
    let mut fields = data_file_fields();
    for name in [
        "column_sizes",
        "value_counts",
        "null_value_counts",
        "distinct_counts",
        "lower_bounds",
        "upper_bounds",
        "key_metadata",
        "nan_value_counts",
    ] {
        remove(&mut fields, name);
    }
    assert_eq!(DataFile::decode(&Value::Record(fields)), Ok(plain_data_file()));
}

#[test]
fn statistics_keep_their_pairs_in_order() {
    let pair = |k: i32, v: Value| Value::Record(vec![field("key", Value::Int(k)), field("value", v)]);
    let mut fields = data_file_fields();
    replace(
        &mut fields,
        "column_sizes",
        Value::Array(vec![
            pair(3, Value::Long(30)),
            pair(1, Value::Long(10)),
            pair(3, Value::Int(31)),
        ]),
    );
    replace(
        &mut fields,
        "lower_bounds",
        Value::Array(vec![
            pair(2, Value::Bytes(vec![0, 255])),
            pair(1, Value::Array(vec![Value::Int(7), Value::Long(8)])),
        ]),
    );
    replace(&mut fields, "key_metadata", Value::Bytes(vec![9, 9]));
    let decoded = DataFile::decode(&Value::Record(fields)).unwrap();
    assert_eq!(decoded.column_sizes, vec![(3, 30), (1, 10), (3, 31)]);
    assert_eq!(decoded.lower_bounds, vec![(2, vec![0, 255]), (1, vec![7, 8])]);
    assert_eq!(decoded.key_metadata, vec![9, 9]);
}

#[test]
fn split_offsets_are_kept_as_they_came() {
    let mut fields = data_file_fields();
    fields.push(field(
        "split_offsets",
        Value::Array(vec![Value::Long(0), Value::Long(400), Value::Long(900)]),
    ));
    let decoded = DataFile::decode(&Value::Record(fields)).unwrap();
    assert_eq!(decoded.split_offsets, vec![0, 400, 900]);
}

#[test]
fn split_offsets_out_of_order_are_not_sorted() {
    let mut fields = data_file_fields();
    fields.push(field(
        "split_offsets",
        Value::Array(vec![Value::Long(900), Value::Long(0), Value::Long(900)]),
    ));
    let decoded = DataFile::decode(&Value::Record(fields)).unwrap();
    assert_eq!(decoded.split_offsets, vec![900, 0, 900]);
}

#[test]
fn null_split_offsets_are_a_field_error() {
    let mut fields = data_file_fields();
    fields.push(field("split_offsets", Value::Null));
    assert_eq!(
        DataFile::decode(&Value::Record(fields)),
        Err(DecodeError::FieldDecode { path: vec![member("split_offsets")], found: ValueKind::Null })
    );
}

#[test]
fn every_status_in_the_domain_decodes() {
    for (code, status) in
        [(0, EntryStatus::Existing), (1, EntryStatus::Added), (2, EntryStatus::Deleted)]
    {
        let mut fields = entry_fields(data_file_fields());
        replace(&mut fields, "status", Value::Int(code));
        assert_eq!(ManifestEntry::decode(&Value::Record(fields)).unwrap().status, status);
    }
}

#[test]
fn status_outside_the_domain_is_a_schema_mismatch() {
    for code in [-1, 3, i32::MAX] {
        let mut fields = entry_fields(data_file_fields());
        replace(&mut fields, "status", Value::Int(code));
        assert_eq!(
            ManifestEntry::decode(&Value::Record(fields)),
            Err(DecodeError::SchemaMismatch {
                path: vec![member("status")],
                cause: Mismatch::OutOfDomain
            })
        );
    }
}

#[test]
fn every_content_in_the_domain_decodes() {
    for (code, content) in [
        (0, FileContent::Data),
        (1, FileContent::PositionDeletes),
        (2, FileContent::EqualityDeletes),
    ] {
        let mut fields = data_file_fields();
        replace(&mut fields, "content", Value::Int(code));
        assert_eq!(DataFile::decode(&Value::Record(fields)).unwrap().content, content);
    }
}

#[test]
fn content_outside_the_domain_is_a_schema_mismatch_inside_the_data_file() {
    let mut fields = data_file_fields();
    replace(&mut fields, "content", Value::Int(3));
    assert_eq!(
        ManifestEntry::decode(&Value::Record(entry_fields(fields))),
        Err(DecodeError::SchemaMismatch {
            path: vec![member("data_file"), member("content")],
            cause: Mismatch::OutOfDomain
        })
    );
}

#[test]
fn file_format_is_read_in_any_case() {
    for (name, format) in [
        ("avro", FileFormat::Avro),
        ("ORC", FileFormat::Orc),
        ("Parquet", FileFormat::Parquet),
    ] {
        let mut fields = data_file_fields();
        replace(&mut fields, "file_format", Value::Text(name.to_string()));
        assert_eq!(DataFile::decode(&Value::Record(fields)).unwrap().file_format, format);
    }
}

#[test]
fn unknown_file_format_is_a_schema_mismatch() {
    for name in ["csv", "", "parquets", "0rc"] {
        let mut fields = data_file_fields();
        replace(&mut fields, "file_format", Value::Text(name.to_string()));
        assert_eq!(
            DataFile::decode(&Value::Record(fields)),
            Err(DecodeError::SchemaMismatch {
                path: vec![member("file_format")],
                cause: Mismatch::OutOfDomain
            })
        );
    }
}

#[test]
fn missing_data_file_is_a_schema_mismatch() {
    let mut fields = entry_fields(data_file_fields());
    remove(&mut fields, "data_file");
    assert_eq!(
        ManifestEntry::decode(&Value::Record(fields)),
        Err(DecodeError::SchemaMismatch { path: vec![member("data_file")], cause: Mismatch::Missing })
    );
}

#[test]
fn the_first_failing_member_decides() {
    let mut fields = data_file_fields();
    replace(&mut fields, "record_count", Value::Text("many".to_string()));
    remove(&mut fields, "sort_order_id");
    assert_eq!(
        DataFile::decode(&Value::Record(fields)),
        Err(DecodeError::FieldDecode { path: vec![member("record_count")], found: ValueKind::Text })
    );
}

#[test]
fn a_pair_without_its_value_is_a_field_error_at_its_position() {
    let mut fields = data_file_fields();
    replace(
        &mut fields,
        "value_counts",
        Value::Array(vec![
            Value::Record(vec![field("key", Value::Int(1)), field("value", Value::Long(2))]),
            Value::Record(vec![field("key", Value::Int(1))]),
        ]),
    );
    assert_eq!(
        ManifestEntry::decode(&Value::Record(entry_fields(fields))),
        Err(DecodeError::FieldDecode {
            path: vec![member("data_file"), member("value_counts"), PathStep::Item(1)],
            found: ValueKind::Record
        })
    );
}

#[test]
fn a_value_that_is_no_record_is_a_field_error() {
    assert_eq!(
        ManifestEntry::decode(&Value::Long(4)),
        Err(DecodeError::FieldDecode { path: vec![], found: ValueKind::Long })
    );
}

#[test]
fn ids_are_resolved_from_what_the_caller_hands_in() {
    let mut entry = ManifestEntry::decode(&Value::Record(entry_fields(data_file_fields()))).unwrap();
    assert_eq!(entry.resolved_snapshot_id(77), 77);
    assert_eq!(entry.resolved_sequence_number(5), Some(5));
    entry.status = EntryStatus::Existing;
    assert_eq!(entry.resolved_sequence_number(5), None);
    entry.status = EntryStatus::Deleted;
    assert_eq!(entry.resolved_sequence_number(5), None);
    entry.sequence_number = Some(3);
    entry.snapshot_id = Some(12);
    assert_eq!(entry.resolved_sequence_number(5), Some(3));
    assert_eq!(entry.resolved_snapshot_id(77), 12);
}

#[test]
fn ids_that_are_there_are_kept() {
    let mut fields = entry_fields(data_file_fields());
    replace(&mut fields, "snapshot_id", Value::Long(6560075252320843098));
    replace(&mut fields, "sequence_number", Value::Int(4));
    replace(&mut fields, "file_sequence_number", Value::Long(2));
    let entry = ManifestEntry::decode(&Value::Record(fields)).unwrap();
    assert_eq!(entry.snapshot_id, Some(6560075252320843098));
    assert_eq!(entry.sequence_number, Some(4));
    assert_eq!(entry.file_sequence_number, Some(2));
}

#[test]
fn a_manifest_stops_at_its_first_bad_record() {
    let good = Value::Record(entry_fields(data_file_fields()));
    let mut bad_fields = entry_fields(data_file_fields());
    replace(&mut bad_fields, "status", Value::Int(9));
    let bad = Value::Record(bad_fields);
    let records = vec![good.clone(), bad, Value::Null];
    assert_eq!(
        ManifestEntry::decode_all(&records),
        Err(DecodeError::SchemaMismatch {
            path: vec![PathStep::Item(1), member("status")],
            cause: Mismatch::OutOfDomain
        })
    );
    let decoded = ManifestEntry::decode_all(&vec![good.clone(), good]).unwrap();
    assert_eq!(decoded.len(), 2);
    assert_eq!(decoded[1].data_file, plain_data_file());
    assert_eq!(ManifestEntry::decode_all(&vec![]), Ok(vec![]));
}

#[test]
fn entry_round_trips_through_its_record() {
    let mut data_file = plain_data_file();
    data_file.column_sizes = vec![(1, 10), (1, 11), (2, 0)];
    data_file.upper_bounds = vec![(5, vec![1, 2, 3]), (4, vec![])];
    data_file.key_metadata = vec![1];
    data_file.split_offsets = vec![4, 100];
    data_file.equality_ids = vec![7];
    data_file.content = FileContent::EqualityDeletes;
    data_file.file_format = FileFormat::Orc;
    let entry = ManifestEntry {
        status: EntryStatus::Deleted,
        snapshot_id: Some(9),
        data_file,
        sequence_number: None,
        file_sequence_number: Some(1),
    };
    assert_eq!(ManifestEntry::decode(&entry.encode()), Ok(entry));
}

#[test]
fn validity_asks_for_equality_ids_exactly_with_equality_deletes() {
    let mut f = plain_data_file();
    assert!(f.is_valid());
    f.equality_ids = vec![1];
    assert!(!f.is_valid());
    f.content = FileContent::EqualityDeletes;
    assert!(f.is_valid());
    f.equality_ids = vec![];
    assert!(!f.is_valid());
    f.content = FileContent::PositionDeletes;
    assert!(f.is_valid());
    f.record_count = -1;
    assert!(!f.is_valid());
    f.record_count = 0;
    f.file_size_in_bytes = -1;
    assert!(!f.is_valid());
}
