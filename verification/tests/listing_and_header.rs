use manifest_model::codes::{EntryStatus, FileContent, FileFormat, ManifestContent};
use manifest_model::fault::{DecodeError, Mismatch, PathStep};
use manifest_model::header::Manifest;
use manifest_model::listing::{ManifestFile, ManifestList};
use manifest_model::summary::FieldSummary;
use manifest_model::value::{Field, Value, ValueKind};

fn field(name: &str, value: Value) -> Field {
    Field { name: name.to_string(), value }
}

fn member(name: &str) -> PathStep {
    PathStep::Member(name.to_string())
}

fn summary_record(lower: Value) -> Value {
    Value::Record(vec![
        field("contains_null", Value::Boolean(true)),
        field("contains_nan", Value::Boolean(false)),
        field("lower_bound", lower),
    ])
}

fn manifest_file_fields() -> Vec<Field> {
    vec![
        field("manifest_path", Value::Text("m1.avro".to_string())),
        field("manifest_length", Value::Long(5806)),
        field("added_snapshot_id", Value::Long(42)),
        field("added_files_count", Value::Int(3)),
        field("existing_files_count", Value::Null),
        field("partitions", Value::Array(vec![summary_record(Value::Bytes(vec![1]))])),
        field("added_rows_count", Value::Long(300)),
        field("partition_spec_id", Value::Int(0)),
    ]
}

#[test]
fn field_summary_bounds_default_to_empty() {
    assert_eq!(
        FieldSummary::decode(&summary_record(Value::Null)),
        Ok(FieldSummary {
            contains_null: true,
            contains_nan: false,
            lower_bound: vec![],
            upper_bound: vec![],
        })
    );
}

#[test]
fn field_summary_needs_its_flags() {
    assert_eq!(
        FieldSummary::decode(&Value::Record(vec![field("contains_null", Value::Boolean(true))])),
        Err(DecodeError::SchemaMismatch {
            path: vec![member("contains_nan")],
            cause: Mismatch::Missing
        })
    );
    assert_eq!(
        FieldSummary::decode(&Value::Record(vec![field("contains_null", Value::Int(1))])),
        Err(DecodeError::FieldDecode { path: vec![member("contains_null")], found: ValueKind::Int })
    );
}

#[test]
fn field_summary_round_trips_through_its_record() {
    let s = FieldSummary {
        contains_null: false,
        contains_nan: true,
        lower_bound: vec![0, 1],
        upper_bound: vec![],
    };
    assert_eq!(FieldSummary::decode(&s.encode()), Ok(s));
}

#[test]
fn unknown_counts_stay_unknown() {
    let decoded = ManifestFile::decode(&Value::Record(manifest_file_fields())).unwrap();
    assert_eq!(decoded.added_files_count, Some(3));
    assert_eq!(decoded.existing_files_count, None);
    assert_eq!(decoded.deleted_files_count, None);
    assert_eq!(decoded.added_rows_count, Some(300));
    assert_eq!(decoded.existing_rows_count, None);
    assert_eq!(decoded.deleted_rows_count, None);
    assert_eq!(decoded.partitions.len(), 1);
    assert_eq!(decoded.partitions[0].lower_bound, vec![1]);
    assert!(decoded.fits_partition_spec(1));
    assert!(!decoded.fits_partition_spec(2));
}

#[test]
fn a_bad_summary_is_placed_under_partitions() {
    let mut fields = manifest_file_fields();
    fields[5] = field(
        "partitions",
        Value::Array(vec![summary_record(Value::Null), summary_record(Value::Boolean(true))]),
    );
    assert_eq!(
        ManifestFile::decode(&Value::Record(fields)),
        Err(DecodeError::FieldDecode {
            path: vec![member("partitions"), PathStep::Item(1), member("lower_bound")],
            found: ValueKind::Boolean
        })
    );
}

#[test]
fn manifest_file_round_trips_through_its_record() {
    let m = ManifestFile {
        manifest_path: "m.avro".to_string(),
        manifest_length: 1,
        added_snapshot_id: -3,
        added_files_count: None,
        existing_files_count: Some(0),
        deleted_files_count: Some(2),
        partitions: vec![
            FieldSummary {
                contains_null: true,
                contains_nan: true,
                lower_bound: vec![],
                upper_bound: vec![9],
            },
            FieldSummary {
                contains_null: false,
                contains_nan: false,
                lower_bound: vec![1],
                upper_bound: vec![2],
            },
        ],
        added_rows_count: Some(1),
        existing_rows_count: None,
        deleted_rows_count: Some(i64::MAX),
        partition_spec_id: 4,
    };
    assert_eq!(ManifestFile::decode(&m.encode()), Ok(m));
}

#[test]
fn a_manifest_list_stops_at_its_first_bad_record() {
    let row = |content: i32| {
        Value::Record(vec![
            field("manifest_path", Value::Text("m1.avro".to_string())),
            field("manifest_length", Value::Long(1024)),
            field("partition_spec_id", Value::Int(0)),
            field("sequence_number", Value::Int(1)),
            field("content", Value::Int(content)),
        ])
    };
    let decoded = ManifestList::decode_all(&vec![row(0), row(1)]).unwrap();
    assert_eq!(decoded[0].content, ManifestContent::Data);
    assert_eq!(decoded[1].content, ManifestContent::Deletes);
    assert_eq!(
        ManifestList::decode_all(&vec![row(0), row(1), row(2), row(7)]),
        Err(DecodeError::SchemaMismatch {
            path: vec![PathStep::Item(2), member("content")],
            cause: Mismatch::OutOfDomain
        })
    );
    assert_eq!(
        ManifestFile::decode_all(&vec![Value::Record(manifest_file_fields()), row(0)]),
        Err(DecodeError::SchemaMismatch {
            path: vec![PathStep::Item(1), member("added_snapshot_id")],
            cause: Mismatch::Missing
        })
    );
}

#[test]
fn manifest_list_validity_asks_for_a_length_and_a_sequence_number() {
    let mut m = ManifestList {
        manifest_path: String::new(),
        manifest_length: 1,
        partition_spec_id: 0,
        sequence_number: 0,
        content: ManifestContent::Data,
    };
    assert!(m.is_valid());
    m.manifest_length = 0;
    assert!(!m.is_valid());
    m.manifest_length = 5;
    m.sequence_number = -1;
    assert!(!m.is_valid());
}

#[test]
fn header_members_are_named_in_kebab_case() {
    let schema = Value::Record(vec![field("type", Value::Text("struct".to_string()))]);
    let spec = Value::Array(vec![]);
    let header = Value::Record(vec![
        field("schema", schema.clone()),
        field("schema-id", Value::Long(0)),
        field("partition-spec", spec.clone()),
        field("format-version", Value::Int(2)),
        field("content", Value::Text("data".to_string())),
    ]);
    assert_eq!(
        Manifest::decode(&header),
        Ok(Manifest {
            schema,
            schema_id: 0,
            partition_spec: spec,
            partition_spec_id: String::new(),
            format_version: 2,
            content: "data".to_string(),
        })
    );
    let snake = Value::Record(vec![
        field("schema", Value::Null),
        field("schema_id", Value::Long(0)),
    ]);
    assert_eq!(
        Manifest::decode(&snake),
        Err(DecodeError::SchemaMismatch { path: vec![member("schema-id")], cause: Mismatch::Missing })
    );
}

#[test]
fn header_round_trips_through_its_record() {
    let m = Manifest {
        schema: Value::Text("{}".to_string()),
        schema_id: 3,
        partition_spec: Value::Array(vec![Value::Record(vec![field("name", Value::Null)])]),
        partition_spec_id: "7".to_string(),
        format_version: 1,
        content: "deletes".to_string(),
    };
    assert_eq!(Manifest::decode(&m.encode()), Ok(m));
}

#[test]
fn codes_and_names_go_both_ways() {
    for status in [EntryStatus::Existing, EntryStatus::Added, EntryStatus::Deleted] {
        assert_eq!(EntryStatus::from_code(status.code()), Some(status));
    }
    for content in [FileContent::Data, FileContent::PositionDeletes, FileContent::EqualityDeletes] {
        assert_eq!(FileContent::from_code(content.code()), Some(content));
    }
    for content in [ManifestContent::Data, ManifestContent::Deletes] {
        assert_eq!(ManifestContent::from_code(content.code()), Some(content));
    }
    for format in [FileFormat::Avro, FileFormat::Orc, FileFormat::Parquet] {
        assert_eq!(FileFormat::from_name(format.name()), Some(format));
    }
    assert_eq!(EntryStatus::Added.code(), 1);
    assert_eq!(FileContent::EqualityDeletes.code(), 2);
    assert_eq!(ManifestContent::Deletes.code(), 1);
    assert_eq!(FileFormat::Parquet.name(), "parquet");
    assert_eq!(EntryStatus::from_code(3), None);
    assert_eq!(FileContent::from_code(-1), None);
    assert_eq!(ManifestContent::from_code(2), None);
    assert_eq!(FileFormat::from_name("AVRO"), Some(FileFormat::Avro));
    assert_eq!(FileFormat::from_name("avr0"), None);
    assert_eq!(FileFormat::from_name("\u{41}\u{56}\u{52}\u{2f}"), None);
}

#[test]
fn a_reader_failure_keeps_its_message() {
    assert_eq!(
        DecodeError::container_read("unexpected end of block".to_string()),
        DecodeError::ContainerRead { message: "unexpected end of block".to_string() }
    );
    assert_eq!(
        DecodeError::container_read("eof".to_string()).within_item(3),
        DecodeError::ContainerRead { message: "eof".to_string() }
    );
}

#[test]
fn a_copy_of_a_value_is_equal_to_it() {
    let v = Value::Record(vec![
        field("a", Value::Array(vec![Value::Bytes(vec![1]), Value::Text("x".to_string())])),
        field("b", Value::Record(vec![field("c", Value::Boolean(true))])),
    ]);
    assert_eq!(v.clone(), v);
    assert_eq!(v.kind(), ValueKind::Record);
}
