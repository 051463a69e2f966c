//! The header of a manifest: what the file says of itself before its rows.

use crate::fault::{lifted, DecodeError, Fault};
use crate::record::{
    defaulted, defaulted_text, lemma_member_at, required, required_long, required_text,
    required_value,
};
use crate::scalar::{long_of, text_of};
use crate::value::{fields_view, kind_of, lemma_view_unfolds, Datum, Field, Value};
use vstd::prelude::*;

verus! {

/// The header of a manifest. Its members have their names in kebab case.
///
/// The schema and the partition spec are documents for their own readers:
/// each is kept as the value it came as, and nothing in it is looked at.
#[derive(Clone, Debug, PartialEq, Eq)]
pub struct Manifest {
    /// The table's schema at the time the manifest was written.
    pub schema: Value,
    /// The id of that schema.
    pub schema_id: i64,
    /// The fields of the partition spec that the manifest was written with.
    pub partition_spec: Value,
    /// The id of that partition spec; empty where the header has none.
    pub partition_spec_id: String,
    /// The version of the table format.
    pub format_version: i64,
    /// What the manifest's files hold, in the header's own word.
    pub content: String,
}

/// The content of a [`Manifest`].
pub struct ManifestView {
    pub schema: Datum,
    pub schema_id: i64,
    pub partition_spec: Datum,
    pub partition_spec_id: Seq<char>,
    pub format_version: i64,
    pub content: Seq<char>,
}

impl View for Manifest {
    type V = ManifestView;

    open spec fn view(&self) -> ManifestView {
        ManifestView {
            schema: self.schema@,
            schema_id: self.schema_id,
            partition_spec: self.partition_spec@,
            partition_spec_id: self.partition_spec_id@,
            format_version: self.format_version,
            content: self.content@,
        }
    }
}

impl DeepView for Manifest {
    type V = ManifestView;

    open spec fn deep_view(&self) -> ManifestView {
        self@
    }
}

/// A value as the header of a manifest: a record in which `schema`,
/// `schema-id`, `partition-spec`, `format-version` and `content` must be
/// there, and `partition-spec-id` is empty where it is absent. The members are
/// looked at in the order of the fields of [`Manifest`], and the first that
/// fails decides.
pub open spec fn manifest_of(d: Datum) -> Result<ManifestView, Fault> {
    match d {
        Datum::Record(fields) => {
            let schema = required(fields, "schema"@, |x: Datum| Ok::<Datum, Fault>(x));
            let schema_id = required(fields, "schema-id"@, |x: Datum| long_of(x));
            let partition_spec = required(
                fields,
                "partition-spec"@,
                |x: Datum| Ok::<Datum, Fault>(x),
            );
            let partition_spec_id = defaulted(
                fields,
                "partition-spec-id"@,
                |x: Datum| text_of(x),
                Seq::<char>::empty(),
            );
            let format_version = required(fields, "format-version"@, |x: Datum| long_of(x));
            let content = required(fields, "content"@, |x: Datum| text_of(x));
            if schema is Err {
                Err(schema->Err_0)
            } else if schema_id is Err {
                Err(schema_id->Err_0)
            } else if partition_spec is Err {
                Err(partition_spec->Err_0)
            } else if partition_spec_id is Err {
                Err(partition_spec_id->Err_0)
            } else if format_version is Err {
                Err(format_version->Err_0)
            } else if content is Err {
                Err(content->Err_0)
            } else {
                Ok(
                    ManifestView {
                        schema: schema->Ok_0,
                        schema_id: schema_id->Ok_0,
                        partition_spec: partition_spec->Ok_0,
                        partition_spec_id: partition_spec_id->Ok_0,
                        format_version: format_version->Ok_0,
                        content: content->Ok_0,
                    },
                )
            }
        },
        _ => Err(Fault::wrong_shape(kind_of(d))),
    }
}

/// The record that carries the header of a manifest.
pub open spec fn manifest_datum(m: ManifestView) -> Datum {
    Datum::Record(
        seq![
            ("schema"@, m.schema),
            ("schema-id"@, Datum::Long(m.schema_id)),
            ("partition-spec"@, m.partition_spec),
            ("partition-spec-id"@, Datum::Text(m.partition_spec_id)),
            ("format-version"@, Datum::Long(m.format_version)),
            ("content"@, Datum::Text(m.content)),
        ],
    )
}

impl Manifest {
    /// The header that the record `v` carries.
    pub fn decode(v: &Value) -> (r: Result<Manifest, DecodeError>)
        ensures
            lifted(r) == manifest_of(v@),
    {
        proof {
            lemma_view_unfolds(*v);
        }
        match v {
            Value::Record(fields) => {
                let schema = required_value(fields, "schema")?.clone();
                let schema_id = required_long(fields, "schema-id")?;
                let partition_spec = required_value(fields, "partition-spec")?.clone();
                let partition_spec_id = defaulted_text(fields, "partition-spec-id")?;
                let format_version = required_long(fields, "format-version")?;
                let content = required_text(fields, "content")?;
                Ok(
                    Manifest {
                        schema,
                        schema_id,
                        partition_spec,
                        partition_spec_id,
                        format_version,
                        content,
                    },
                )
            },
            _ => Err(DecodeError::wrong_shape(v.kind())),
        }
    }

    /// The record for this header.
    pub fn encode(&self) -> (v: Value)
        ensures
            v@ == manifest_datum(self@),
    {
        let mut fields: Vec<Field> = Vec::new();
        fields.push(Field::named("schema", self.schema.clone()));
        fields.push(Field::named("schema-id", Value::Long(self.schema_id)));
        fields.push(Field::named("partition-spec", self.partition_spec.clone()));
        fields.push(Field::named("partition-spec-id", Value::Text(self.partition_spec_id.clone())));
        fields.push(Field::named("format-version", Value::Long(self.format_version)));
        fields.push(Field::named("content", Value::Text(self.content.clone())));
        let v = Value::Record(fields);
        proof {
            lemma_view_unfolds(v);
            assert(fields_view(fields@) =~= manifest_datum(self@)->Record_0);
        }
        v
    }
}

/// A header's record carries that header.
pub proof fn lemma_manifest_round_trip(m: ManifestView)
    ensures
        manifest_of(manifest_datum(m)) == Ok::<ManifestView, Fault>(m),
{
    reveal_strlit("schema");
    reveal_strlit("schema-id");
    reveal_strlit("partition-spec");
    reveal_strlit("partition-spec-id");
    reveal_strlit("format-version");
    reveal_strlit("content");
    let fields = manifest_datum(m)->Record_0;
    assert("schema"@.len() == 6);
    assert("schema-id"@.len() == 9);
    assert("partition-spec"@.len() == 14);
    assert("partition-spec-id"@.len() == 17);
    assert("format-version"@.len() == 14);
    assert("content"@.len() == 7);
    assert("partition-spec"@[0] != "format-version"@[0]);
    lemma_member_at(fields, "schema"@, 0);
    lemma_member_at(fields, "schema-id"@, 1);
    lemma_member_at(fields, "partition-spec"@, 2);
    lemma_member_at(fields, "partition-spec-id"@, 3);
    lemma_member_at(fields, "format-version"@, 4);
    lemma_member_at(fields, "content"@, 5);
}

} // verus!
