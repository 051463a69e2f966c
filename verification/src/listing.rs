//! The rows of a manifest list: a pointer to a manifest file, in the short
//! form and in the form that carries the manifest's counts and summaries.

use crate::codes::{manifest_content_of, read_manifest_content, ManifestContent};
use crate::fault::{lifted, DecodeError, Fault};
use crate::record::{
    at_member, find, lemma_member_at, optional, optional_int, optional_long, required,
    required_int, required_long, required_text,
};
use crate::scalar::{
    each, encode_optional_int, encode_optional_long, int_of, lemma_each_fails,
    lemma_each_succeeds, list_of, long_of, optional_int_datum, optional_long_datum, text_of,
};
use crate::summary::{
    field_summary_datum, field_summary_of, lemma_field_summary_round_trip, FieldSummary,
    FieldSummaryView,
};
use crate::value::{fields_view, items_view, kind_of, lemma_view_unfolds, Datum, Field, Value};
use vstd::prelude::*;
use vstd::string::StringExecFns;

verus! {

/// One row of a manifest list: where a manifest file is, how long it is, and
/// under which partition spec, sequence number and content it was written.
///
/// The partition spec's id is one of the table's; this is for the reader of
/// the table's metadata to hold, and is not looked at here.
#[derive(Clone, Debug, PartialEq, Eq)]
pub struct ManifestList {
    /// Where the manifest file is.
    pub manifest_path: String,
    /// The length of the manifest file in bytes.
    pub manifest_length: i64,
    /// The id of the partition spec that the manifest was written with.
    pub partition_spec_id: i32,
    /// The sequence number at which the manifest was added to the table; 0
    /// for a manifest of the first format version.
    pub sequence_number: i32,
    /// What the manifest's files hold.
    pub content: ManifestContent,
}

/// The content of a [`ManifestList`].
pub struct ManifestListView {
    pub manifest_path: Seq<char>,
    pub manifest_length: i64,
    pub partition_spec_id: i32,
    pub sequence_number: i32,
    pub content: ManifestContent,
}

impl ManifestListView {
    /// What the table format asks of a row: a manifest of more than no
    /// bytes, and a sequence number that is not negative.
    pub open spec fn valid(self) -> bool {
        self.manifest_length > 0 && self.sequence_number >= 0
    }
}

impl View for ManifestList {
    type V = ManifestListView;

    open spec fn view(&self) -> ManifestListView {
        ManifestListView {
            manifest_path: self.manifest_path@,
            manifest_length: self.manifest_length,
            partition_spec_id: self.partition_spec_id,
            sequence_number: self.sequence_number,
            content: self.content,
        }
    }
}

impl DeepView for ManifestList {
    type V = ManifestListView;

    open spec fn deep_view(&self) -> ManifestListView {
        self@
    }
}

/// A value as a row of a manifest list: a record with the members
/// `manifest_path`, `manifest_length`, `partition_spec_id`,
/// `sequence_number` and `content`, all of which must be there. They are
/// looked at in this order, and the first that fails decides.
pub open spec fn manifest_list_of(d: Datum) -> Result<ManifestListView, Fault> {
    match d {
        Datum::Record(fields) => {
            let manifest_path = required(fields, "manifest_path"@, |x: Datum| text_of(x));
            let manifest_length = required(fields, "manifest_length"@, |x: Datum| long_of(x));
            let partition_spec_id = required(fields, "partition_spec_id"@, |x: Datum| int_of(x));
            let sequence_number = required(fields, "sequence_number"@, |x: Datum| int_of(x));
            let content = required(fields, "content"@, |x: Datum| manifest_content_of(x));
            if manifest_path is Err {
                Err(manifest_path->Err_0)
            } else if manifest_length is Err {
                Err(manifest_length->Err_0)
            } else if partition_spec_id is Err {
                Err(partition_spec_id->Err_0)
            } else if sequence_number is Err {
                Err(sequence_number->Err_0)
            } else if content is Err {
                Err(content->Err_0)
            } else {
                Ok(
                    ManifestListView {
                        manifest_path: manifest_path->Ok_0,
                        manifest_length: manifest_length->Ok_0,
                        partition_spec_id: partition_spec_id->Ok_0,
                        sequence_number: sequence_number->Ok_0,
                        content: content->Ok_0,
                    },
                )
            }
        },
        _ => Err(Fault::wrong_shape(kind_of(d))),
    }
}

/// The record that carries a row of a manifest list.
pub open spec fn manifest_list_datum(m: ManifestListView) -> Datum {
    Datum::Record(
        seq![
            ("manifest_path"@, Datum::Text(m.manifest_path)),
            ("manifest_length"@, Datum::Long(m.manifest_length)),
            ("partition_spec_id"@, Datum::Int(m.partition_spec_id)),
            ("sequence_number"@, Datum::Int(m.sequence_number)),
            ("content"@, Datum::Int(m.content.spec_code())),
        ],
    )
}

/// The rows of a manifest list, one for each record in the order of the
/// records; or the failure of the first record that fails, placed at its
/// position.
pub open spec fn manifest_lists_of(records: Seq<Datum>) -> Result<Seq<ManifestListView>, Fault> {
    each(records, |x: Datum| manifest_list_of(x))
}

/// The manifest's content under the member `name`, which must be there.
fn required_manifest_content(fields: &Vec<Field>, name: &str) -> (r: Result<
    ManifestContent,
    DecodeError,
>)
    ensures
        lifted(r) == required(fields_view(fields@), name@, |d: Datum| manifest_content_of(d)),
{
    match find(fields, name) {
        None => Err(DecodeError::missing(name)),
        Some(v) => at_member(read_manifest_content(v), name),
    }
}

impl ManifestList {
    /// The row that the record `v` carries.
    pub fn decode(v: &Value) -> (r: Result<ManifestList, DecodeError>)
        ensures
            lifted(r) == manifest_list_of(v@),
    {
        proof {
            lemma_view_unfolds(*v);
        }
        match v {
            Value::Record(fields) => {
                let manifest_path = required_text(fields, "manifest_path")?;
                let manifest_length = required_long(fields, "manifest_length")?;
                let partition_spec_id = required_int(fields, "partition_spec_id")?;
                let sequence_number = required_int(fields, "sequence_number")?;
                let content = required_manifest_content(fields, "content")?;
                Ok(
                    ManifestList {
                        manifest_path,
                        manifest_length,
                        partition_spec_id,
                        sequence_number,
                        content,
                    },
                )
            },
            _ => Err(DecodeError::wrong_shape(v.kind())),
        }
    }

    /// The rows that the records of a manifest list carry, in the order of
    /// the records. The first record that fails ends the decode: no row is
    /// given then.
    pub fn decode_all(records: &Vec<Value>) -> (r: Result<Vec<ManifestList>, DecodeError>)
        ensures
            lifted(r) == manifest_lists_of(items_view(records@)),
    {
        let mut out: Vec<ManifestList> = Vec::new();
        let mut i: usize = 0;
        while i < records.len()
            invariant
                i <= records.len(),
                out.len() == i,
                forall|j: int|
                    0 <= j < i ==> manifest_list_of(#[trigger] items_view(records@)[j]) == Ok::<
                        ManifestListView,
                        Fault,
                    >(out[j]@),
            decreases records.len() - i,
        {
            match ManifestList::decode(&records[i]) {
                Ok(row) => {
                    out.push(row);
                },
                Err(e) => {
                    proof {
                        lemma_each_fails(
                            items_view(records@),
                            |x: Datum| manifest_list_of(x),
                            i as int,
                        );
                    }
                    return Err(e.within_item(i));
                },
            }
            i += 1;
        }
        proof {
            lemma_each_succeeds(
                items_view(records@),
                |x: Datum| manifest_list_of(x),
                out.deep_view(),
            );
        }
        Ok(out)
    }

    /// The record for this row.
    pub fn encode(&self) -> (v: Value)
        ensures
            v@ == manifest_list_datum(self@),
    {
        let mut fields: Vec<Field> = Vec::new();
        fields.push(
            Field {
                name: String::from_str("manifest_path"),
                value: Value::Text(self.manifest_path.clone()),
            },
        );
        fields.push(
            Field {
                name: String::from_str("manifest_length"),
                value: Value::Long(self.manifest_length),
            },
        );
        fields.push(
            Field {
                name: String::from_str("partition_spec_id"),
                value: Value::Int(self.partition_spec_id),
            },
        );
        fields.push(
            Field {
                name: String::from_str("sequence_number"),
                value: Value::Int(self.sequence_number),
            },
        );
        fields.push(
            Field { name: String::from_str("content"), value: Value::Int(self.content.code()) },
        );
        let v = Value::Record(fields);
        proof {
            lemma_view_unfolds(v);
            assert(fields_view(fields@) =~= manifest_list_datum(self@)->Record_0);
        }
        v
    }

    /// Whether the row is as the table format asks.
    pub fn is_valid(&self) -> (b: bool)
        ensures
            b == self@.valid(),
    {
        self.manifest_length > 0 && self.sequence_number >= 0
    }
}

/// A row's record carries that row.
pub proof fn lemma_manifest_list_round_trip(m: ManifestListView)
    ensures
        manifest_list_of(manifest_list_datum(m)) == Ok::<ManifestListView, Fault>(m),
{
    reveal_strlit("manifest_path");
    reveal_strlit("manifest_length");
    reveal_strlit("partition_spec_id");
    reveal_strlit("sequence_number");
    reveal_strlit("content");
    let fields = manifest_list_datum(m)->Record_0;
    assert("manifest_path"@.len() == 13);
    assert("manifest_length"@.len() == 15);
    assert("partition_spec_id"@.len() == 17);
    assert("sequence_number"@.len() == 15);
    assert("content"@.len() == 7);
    assert("manifest_length"@[0] != "sequence_number"@[0]);
    lemma_member_at(fields, "manifest_path"@, 0);
    lemma_member_at(fields, "manifest_length"@, 1);
    lemma_member_at(fields, "partition_spec_id"@, 2);
    lemma_member_at(fields, "sequence_number"@, 3);
    lemma_member_at(fields, "content"@, 4);
    ManifestContent::lemma_domain(m.content.spec_code());
}

/// A row of a manifest list with what it says of the manifest's content:
/// how many files and rows the manifest adds, keeps and deletes, and a
/// summary for each field of its partition spec.
///
/// A count that is `None` is not known, and is to be taken as more than
/// zero. The summaries stand in the order of the partition spec's fields, as
/// many as that spec has fields; this is for the holder of that spec to
/// check.
#[derive(Clone, Debug, PartialEq, Eq)]
pub struct ManifestFile {
    /// Where the manifest file is.
    pub manifest_path: String,
    /// The length of the manifest file in bytes.
    pub manifest_length: i64,
    /// The id of the snapshot in which the manifest was added.
    pub added_snapshot_id: i64,
    /// How many entries of the manifest have the status `Added`.
    pub added_files_count: Option<i32>,
    /// How many entries of the manifest have the status `Existing`.
    pub existing_files_count: Option<i32>,
    /// How many entries of the manifest have the status `Deleted`.
    pub deleted_files_count: Option<i32>,
    /// A summary for each field of the partition spec.
    pub partitions: Vec<FieldSummary>,
    /// How many rows the files with the status `Added` hold.
    pub added_rows_count: Option<i64>,
    /// How many rows the files with the status `Existing` hold.
    pub existing_rows_count: Option<i64>,
    /// How many rows the files with the status `Deleted` hold.
    pub deleted_rows_count: Option<i64>,
    /// The id of the partition spec that the manifest was written with.
    pub partition_spec_id: i32,
}

/// The content of a [`ManifestFile`].
pub struct ManifestFileView {
    pub manifest_path: Seq<char>,
    pub manifest_length: i64,
    pub added_snapshot_id: i64,
    pub added_files_count: Option<i32>,
    pub existing_files_count: Option<i32>,
    pub deleted_files_count: Option<i32>,
    pub partitions: Seq<FieldSummaryView>,
    pub added_rows_count: Option<i64>,
    pub existing_rows_count: Option<i64>,
    pub deleted_rows_count: Option<i64>,
    pub partition_spec_id: i32,
}

impl ManifestFileView {
    /// Whether the row has one summary for each of the `field_count` fields
    /// of its partition spec.
    pub open spec fn fits_partition_spec(self, field_count: nat) -> bool {
        self.partitions.len() == field_count
    }
}

impl View for ManifestFile {
    type V = ManifestFileView;

    open spec fn view(&self) -> ManifestFileView {
        ManifestFileView {
            manifest_path: self.manifest_path@,
            manifest_length: self.manifest_length,
            added_snapshot_id: self.added_snapshot_id,
            added_files_count: self.added_files_count,
            existing_files_count: self.existing_files_count,
            deleted_files_count: self.deleted_files_count,
            partitions: self.partitions.deep_view(),
            added_rows_count: self.added_rows_count,
            existing_rows_count: self.existing_rows_count,
            deleted_rows_count: self.deleted_rows_count,
            partition_spec_id: self.partition_spec_id,
        }
    }
}

impl DeepView for ManifestFile {
    type V = ManifestFileView;

    open spec fn deep_view(&self) -> ManifestFileView {
        self@
    }
}

/// A value as a list of field summaries: an array of their records.
pub open spec fn field_summaries_of(d: Datum) -> Result<Seq<FieldSummaryView>, Fault> {
    list_of(d, |x: Datum| field_summary_of(x))
}

/// The array that carries a list of field summaries.
pub open spec fn field_summaries_datum(summaries: Seq<FieldSummaryView>) -> Datum {
    Datum::Array(Seq::new(summaries.len(), |i: int| field_summary_datum(summaries[i])))
}

/// A value as a row with counts and summaries: a record in which
/// `manifest_path`, `manifest_length`, `added_snapshot_id`, `partitions`
/// and `partition_spec_id` must be there, and each of the six counts is
/// unknown where it is absent or null. The members are looked at in the
/// order of the fields of [`ManifestFile`], and the first that fails decides.
pub open spec fn manifest_file_of(d: Datum) -> Result<ManifestFileView, Fault> {
    match d {
        Datum::Record(fields) => {
            let manifest_path = required(fields, "manifest_path"@, |x: Datum| text_of(x));
            let manifest_length = required(fields, "manifest_length"@, |x: Datum| long_of(x));
            let added_snapshot_id = required(fields, "added_snapshot_id"@, |x: Datum| long_of(x));
            let added_files_count = optional(fields, "added_files_count"@, |x: Datum| int_of(x));
            let existing_files_count = optional(
                fields,
                "existing_files_count"@,
                |x: Datum| int_of(x),
            );
            let deleted_files_count = optional(
                fields,
                "deleted_files_count"@,
                |x: Datum| int_of(x),
            );
            let partitions = required(fields, "partitions"@, |x: Datum| field_summaries_of(x));
            let added_rows_count = optional(fields, "added_rows_count"@, |x: Datum| long_of(x));
            let existing_rows_count = optional(
                fields,
                "existing_rows_count"@,
                |x: Datum| long_of(x),
            );
            let deleted_rows_count = optional(
                fields,
                "deleted_rows_count"@,
                |x: Datum| long_of(x),
            );
            let partition_spec_id = required(fields, "partition_spec_id"@, |x: Datum| int_of(x));
            if manifest_path is Err {
                Err(manifest_path->Err_0)
            } else if manifest_length is Err {
                Err(manifest_length->Err_0)
            } else if added_snapshot_id is Err {
                Err(added_snapshot_id->Err_0)
            } else if added_files_count is Err {
                Err(added_files_count->Err_0)
            } else if existing_files_count is Err {
                Err(existing_files_count->Err_0)
            } else if deleted_files_count is Err {
                Err(deleted_files_count->Err_0)
            } else if partitions is Err {
                Err(partitions->Err_0)
            } else if added_rows_count is Err {
                Err(added_rows_count->Err_0)
            } else if existing_rows_count is Err {
                Err(existing_rows_count->Err_0)
            } else if deleted_rows_count is Err {
                Err(deleted_rows_count->Err_0)
            } else if partition_spec_id is Err {
                Err(partition_spec_id->Err_0)
            } else {
                Ok(
                    ManifestFileView {
                        manifest_path: manifest_path->Ok_0,
                        manifest_length: manifest_length->Ok_0,
                        added_snapshot_id: added_snapshot_id->Ok_0,
                        added_files_count: added_files_count->Ok_0,
                        existing_files_count: existing_files_count->Ok_0,
                        deleted_files_count: deleted_files_count->Ok_0,
                        partitions: partitions->Ok_0,
                        added_rows_count: added_rows_count->Ok_0,
                        existing_rows_count: existing_rows_count->Ok_0,
                        deleted_rows_count: deleted_rows_count->Ok_0,
                        partition_spec_id: partition_spec_id->Ok_0,
                    },
                )
            }
        },
        _ => Err(Fault::wrong_shape(kind_of(d))),
    }
}

/// The rows of a manifest list in their long form, one for each record in
/// the order of the records; or the failure of the first record that fails,
/// placed at its position.
pub open spec fn manifest_files_of(records: Seq<Datum>) -> Result<Seq<ManifestFileView>, Fault> {
    each(records, |x: Datum| manifest_file_of(x))
}

/// The record that carries a row with counts and summaries.
pub open spec fn manifest_file_datum(m: ManifestFileView) -> Datum {
    Datum::Record(
        seq![
            ("manifest_path"@, Datum::Text(m.manifest_path)),
            ("manifest_length"@, Datum::Long(m.manifest_length)),
            ("added_snapshot_id"@, Datum::Long(m.added_snapshot_id)),
            ("added_files_count"@, optional_int_datum(m.added_files_count)),
            ("existing_files_count"@, optional_int_datum(m.existing_files_count)),
            ("deleted_files_count"@, optional_int_datum(m.deleted_files_count)),
            ("partitions"@, field_summaries_datum(m.partitions)),
            ("added_rows_count"@, optional_long_datum(m.added_rows_count)),
            ("existing_rows_count"@, optional_long_datum(m.existing_rows_count)),
            ("deleted_rows_count"@, optional_long_datum(m.deleted_rows_count)),
            ("partition_spec_id"@, Datum::Int(m.partition_spec_id)),
        ],
    )
}

/// Reads a value as a list of field summaries.
pub fn read_field_summaries(v: &Value) -> (r: Result<Vec<FieldSummary>, DecodeError>)
    ensures
        lifted(r) == field_summaries_of(v@),
{
    proof {
        lemma_view_unfolds(*v);
    }
    match v {
        Value::Array(items) => {
            let mut out: Vec<FieldSummary> = Vec::new();
            let mut i: usize = 0;
            while i < items.len()
                invariant
                    i <= items.len(),
                    out.len() == i,
                    v@ == Datum::Array(items_view(items@)),
                    forall|j: int|
                        0 <= j < i ==> field_summary_of(#[trigger] items_view(items@)[j]) == Ok::<
                            FieldSummaryView,
                            Fault,
                        >(out[j]@),
                decreases items.len() - i,
            {
                match FieldSummary::decode(&items[i]) {
                    Ok(summary) => {
                        out.push(summary);
                    },
                    Err(e) => {
                        proof {
                            lemma_each_fails(
                                items_view(items@),
                                |x: Datum| field_summary_of(x),
                                i as int,
                            );
                        }
                        return Err(e.within_item(i));
                    },
                }
                i += 1;
            }
            proof {
                lemma_each_succeeds(
                    items_view(items@),
                    |x: Datum| field_summary_of(x),
                    out.deep_view(),
                );
            }
            Ok(out)
        },
        _ => Err(DecodeError::wrong_shape(v.kind())),
    }
}

/// The array for a list of field summaries.
pub fn encode_field_summaries(summaries: &Vec<FieldSummary>) -> (v: Value)
    ensures
        v@ == field_summaries_datum(summaries.deep_view()),
{
    let mut out: Vec<Value> = Vec::new();
    let mut i: usize = 0;
    while i < summaries.len()
        invariant
            i <= summaries.len(),
            out.len() == i,
            forall|j: int| 0 <= j < i ==> (#[trigger] out[j])@ == field_summary_datum(summaries[j]@),
        decreases summaries.len() - i,
    {
        out.push(summaries[i].encode());
        i += 1;
    }
    let v = Value::Array(out);
    proof {
        lemma_view_unfolds(v);
        let shown = summaries.deep_view();
        assert(items_view(out@) =~= Seq::new(shown.len(), |i: int| field_summary_datum(shown[i])));
    }
    v
}

impl ManifestFile {
    /// The row that the record `v` carries.
    pub fn decode(v: &Value) -> (r: Result<ManifestFile, DecodeError>)
        ensures
            lifted(r) == manifest_file_of(v@),
    {
        proof {
            lemma_view_unfolds(*v);
        }
        match v {
            Value::Record(fields) => {
                let manifest_path = required_text(fields, "manifest_path")?;
                let manifest_length = required_long(fields, "manifest_length")?;
                let added_snapshot_id = required_long(fields, "added_snapshot_id")?;
                let added_files_count = optional_int(fields, "added_files_count")?;
                let existing_files_count = optional_int(fields, "existing_files_count")?;
                let deleted_files_count = optional_int(fields, "deleted_files_count")?;
                let partitions = match find(fields, "partitions") {
                    None => { return Err(DecodeError::missing("partitions")); },
                    Some(x) => at_member(read_field_summaries(x), "partitions")?,
                };
                let added_rows_count = optional_long(fields, "added_rows_count")?;
                let existing_rows_count = optional_long(fields, "existing_rows_count")?;
                let deleted_rows_count = optional_long(fields, "deleted_rows_count")?;
                let partition_spec_id = required_int(fields, "partition_spec_id")?;
                Ok(
                    ManifestFile {
                        manifest_path,
                        manifest_length,
                        added_snapshot_id,
                        added_files_count,
                        existing_files_count,
                        deleted_files_count,
                        partitions,
                        added_rows_count,
                        existing_rows_count,
                        deleted_rows_count,
                        partition_spec_id,
                    },
                )
            },
            _ => Err(DecodeError::wrong_shape(v.kind())),
        }
    }

    /// The rows that the records of a manifest list carry, in the order of
    /// the records. The first record that fails ends the decode: no row is
    /// given then.
    pub fn decode_all(records: &Vec<Value>) -> (r: Result<Vec<ManifestFile>, DecodeError>)
        ensures
            lifted(r) == manifest_files_of(items_view(records@)),
    {
        let mut out: Vec<ManifestFile> = Vec::new();
        let mut i: usize = 0;
        while i < records.len()
            invariant
                i <= records.len(),
                out.len() == i,
                forall|j: int|
                    0 <= j < i ==> manifest_file_of(#[trigger] items_view(records@)[j]) == Ok::<
                        ManifestFileView,
                        Fault,
                    >(out[j]@),
            decreases records.len() - i,
        {
            match ManifestFile::decode(&records[i]) {
                Ok(row) => {
                    out.push(row);
                },
                Err(e) => {
                    proof {
                        lemma_each_fails(
                            items_view(records@),
                            |x: Datum| manifest_file_of(x),
                            i as int,
                        );
                    }
                    return Err(e.within_item(i));
                },
            }
            i += 1;
        }
        proof {
            lemma_each_succeeds(
                items_view(records@),
                |x: Datum| manifest_file_of(x),
                out.deep_view(),
            );
        }
        Ok(out)
    }

    /// The record for this row.
    pub fn encode(&self) -> (v: Value)
        ensures
            v@ == manifest_file_datum(self@),
    {
        let mut fields: Vec<Field> = Vec::new();
        fields.push(Field::named("manifest_path", Value::Text(self.manifest_path.clone())));
        fields.push(Field::named("manifest_length", Value::Long(self.manifest_length)));
        fields.push(Field::named("added_snapshot_id", Value::Long(self.added_snapshot_id)));
        fields.push(Field::named("added_files_count", encode_optional_int(self.added_files_count)));
        fields.push(Field::named("existing_files_count", encode_optional_int(self.existing_files_count)));
        fields.push(Field::named("deleted_files_count", encode_optional_int(self.deleted_files_count)));
        fields.push(Field::named("partitions", encode_field_summaries(&self.partitions)));
        fields.push(Field::named("added_rows_count", encode_optional_long(self.added_rows_count)));
        fields.push(Field::named("existing_rows_count", encode_optional_long(self.existing_rows_count)));
        fields.push(Field::named("deleted_rows_count", encode_optional_long(self.deleted_rows_count)));
        fields.push(Field::named("partition_spec_id", Value::Int(self.partition_spec_id)));
        let v = Value::Record(fields);
        proof {
            lemma_view_unfolds(v);
            assert(fields_view(fields@) =~= manifest_file_datum(self@)->Record_0);
        }
        v
    }

    /// Whether the row has one summary for each of the `field_count` fields
    /// of its partition spec.
    pub fn fits_partition_spec(&self, field_count: usize) -> (b: bool)
        ensures
            b == self@.fits_partition_spec(field_count as nat),
    {
        self.partitions.len() == field_count
    }
}

/// The array of a list of field summaries carries that list.
pub proof fn lemma_field_summaries_round_trip(summaries: Seq<FieldSummaryView>)
    ensures
        field_summaries_of(field_summaries_datum(summaries)) == Ok::<
            Seq<FieldSummaryView>,
            Fault,
        >(summaries),
{
    let items = Seq::new(summaries.len(), |i: int| field_summary_datum(summaries[i]));
    assert forall|j: int| 0 <= j < items.len() implies field_summary_of(#[trigger] items[j])
        == Ok::<FieldSummaryView, Fault>(summaries[j]) by {
        lemma_field_summary_round_trip(summaries[j]);
    }
    lemma_each_succeeds(items, |x: Datum| field_summary_of(x), summaries);
}

/// A row's record carries that row.
pub proof fn lemma_manifest_file_round_trip(m: ManifestFileView)
    ensures
        manifest_file_of(manifest_file_datum(m)) == Ok::<ManifestFileView, Fault>(m),
{
    reveal_strlit("manifest_path");
    reveal_strlit("manifest_length");
    reveal_strlit("added_snapshot_id");
    reveal_strlit("added_files_count");
    reveal_strlit("existing_files_count");
    reveal_strlit("deleted_files_count");
    reveal_strlit("partitions");
    reveal_strlit("added_rows_count");
    reveal_strlit("existing_rows_count");
    reveal_strlit("deleted_rows_count");
    reveal_strlit("partition_spec_id");
    let fields = manifest_file_datum(m)->Record_0;
    assert("manifest_path"@.len() == 13);
    assert("manifest_length"@.len() == 15);
    assert("added_snapshot_id"@.len() == 17);
    assert("added_files_count"@.len() == 17);
    assert("existing_files_count"@.len() == 20);
    assert("deleted_files_count"@.len() == 19);
    assert("partitions"@.len() == 10);
    assert("added_rows_count"@.len() == 16);
    assert("existing_rows_count"@.len() == 19);
    assert("deleted_rows_count"@.len() == 18);
    assert("partition_spec_id"@.len() == 17);
    assert("added_snapshot_id"@[6] != "added_files_count"@[6]);
    assert("added_snapshot_id"@[0] != "partition_spec_id"@[0]);
    assert("added_files_count"@[0] != "partition_spec_id"@[0]);
    assert("deleted_files_count"@[0] != "existing_rows_count"@[0]);
    lemma_member_at(fields, "manifest_path"@, 0);
    lemma_member_at(fields, "manifest_length"@, 1);
    lemma_member_at(fields, "added_snapshot_id"@, 2);
    lemma_member_at(fields, "added_files_count"@, 3);
    lemma_member_at(fields, "existing_files_count"@, 4);
    lemma_member_at(fields, "deleted_files_count"@, 5);
    lemma_member_at(fields, "partitions"@, 6);
    lemma_member_at(fields, "added_rows_count"@, 7);
    lemma_member_at(fields, "existing_rows_count"@, 8);
    lemma_member_at(fields, "deleted_rows_count"@, 9);
    lemma_member_at(fields, "partition_spec_id"@, 10);
    lemma_field_summaries_round_trip(m.partitions);
}

} // verus!
