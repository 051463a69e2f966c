use manifest_model::codes::ManifestContent;
use manifest_model::fault::{DecodeError, Mismatch, PathStep};
use manifest_model::listing::ManifestList;
use manifest_model::value::{Field, Value, ValueKind};

fn field(name: &str, value: Value) -> Field {
    Field { name: name.to_string(), value }
}

fn row() -> Vec<Field> {
    vec![
        field("manifest_path", Value::Text("m1.avro".to_string())),
        field("manifest_length", Value::Long(1024)),
        field("partition_spec_id", Value::Int(0)),
        field("sequence_number", Value::Int(1)),
        field("content", Value::Int(0)),
    ]
}

#[test]
fn manifest_list_record_decodes_to_its_five_values() {
    let decoded = ManifestList::decode(&Value::Record(row()));
    assert_eq!(
        decoded,
        Ok(ManifestList {
            manifest_path: "m1.avro".to_string(),
            manifest_length: 1024,
            partition_spec_id: 0,
            sequence_number: 1,
            content: ManifestContent::Data,
        })
    );
}

#[test]
fn manifest_list_content_outside_its_domain_is_a_schema_mismatch() {
    let mut fields = row();
    fields[4] = field("content", Value::Int(2));
    assert_eq!(
        ManifestList::decode(&Value::Record(fields)),
        Err(DecodeError::SchemaMismatch {
            path: vec![PathStep::Member("content".to_string())],
            cause: Mismatch::OutOfDomain,
        })
    );
}

#[test]
fn manifest_list_without_a_required_member_is_a_schema_mismatch() {
    let mut fields = row();
    fields.remove(1);
    assert_eq!(
        ManifestList::decode(&Value::Record(fields)),
        Err(DecodeError::SchemaMismatch {
            path: vec![PathStep::Member("manifest_length".to_string())],
            cause: Mismatch::Missing,
        })
    );
}

#[test]
fn manifest_list_member_of_the_wrong_shape_is_a_field_error() {
    let mut fields = row();
    fields[0] = field("manifest_path", Value::Long(7));
    assert_eq!(
        ManifestList::decode(&Value::Record(fields)),
        Err(DecodeError::FieldDecode {
            path: vec![PathStep::Member("manifest_path".to_string())],
            found: ValueKind::Long,
        })
    );
}

#[test]
fn manifest_list_round_trips_through_its_record() {
    let m = ManifestList {
        manifest_path: "s3://bucket/m2.avro".to_string(),
        manifest_length: 77,
        partition_spec_id: 3,
        sequence_number: 9,
        content: ManifestContent::Deletes,
    };
    assert_eq!(ManifestList::decode(&m.encode()), Ok(m));
}
