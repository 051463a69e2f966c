//! One row of a manifest: a data file, its status, and the ids that it has
//! of its own or takes from the manifest around it.

use crate::codes::{read_status, status_of, EntryStatus};
use crate::data_file::{
    data_file_datum, data_file_of, lemma_data_file_round_trip, DataFile, DataFileView,
};
use crate::fault::{lifted, DecodeError, Fault};
use crate::record::{
    at_member, find, lemma_member_at, member, optional, optional_long, required,
};
use crate::scalar::{
    each, encode_optional_long, lemma_each_fails, lemma_each_succeeds, long_of,
    optional_long_datum,
};
use crate::value::{fields_view, items_view, kind_of, lemma_view_unfolds, Datum, Field, Value};
use vstd::prelude::*;

verus! {

/// One row of a manifest.
///
/// A snapshot id or a sequence number that is `None` was null in the record.
/// Nothing is put in its place here: what it stands for depends on the
/// manifest that the row came from, which only the caller holds. See
/// [`ManifestEntry::resolved_snapshot_id`] and
/// [`ManifestEntry::resolved_sequence_number`].
#[derive(Clone, Debug, PartialEq, Eq)]
pub struct ManifestEntry {
    /// Whether the file was there before, was added, or was deleted.
    pub status: EntryStatus,
    /// The snapshot in which the file was added, or deleted where the status
    /// is `Deleted`.
    pub snapshot_id: Option<i64>,
    /// The file.
    pub data_file: DataFile,
    /// The sequence number of the file's data.
    pub sequence_number: Option<i64>,
    /// The sequence number at which the file was added.
    pub file_sequence_number: Option<i64>,
}

/// The content of a [`ManifestEntry`].
pub struct ManifestEntryView {
    pub status: EntryStatus,
    pub snapshot_id: Option<i64>,
    pub data_file: DataFileView,
    pub sequence_number: Option<i64>,
    pub file_sequence_number: Option<i64>,
}

impl ManifestEntryView {
    /// The snapshot id of the row, where the manifest was applied under the
    /// snapshot `inherited`: the row's own, or else that one.
    pub open spec fn resolved_snapshot_id(self, inherited: i64) -> i64 {
        match self.snapshot_id {
            Some(id) => id,
            None => inherited,
        }
    }

    /// The sequence number of the row, where the manifest has the sequence
    /// number `inherited`: the row's own; or else, for an added file, the
    /// manifest's; or else none, as what a row that is not added once had
    /// cannot be had again.
    pub open spec fn resolved_sequence_number(self, inherited: i64) -> Option<i64> {
        match self.sequence_number {
            Some(n) => Some(n),
            None => if self.status == EntryStatus::Added {
                Some(inherited)
            } else {
                None
            },
        }
    }
}

impl View for ManifestEntry {
    type V = ManifestEntryView;

    open spec fn view(&self) -> ManifestEntryView {
        ManifestEntryView {
            status: self.status,
            snapshot_id: self.snapshot_id,
            data_file: self.data_file@,
            sequence_number: self.sequence_number,
            file_sequence_number: self.file_sequence_number,
        }
    }
}

impl DeepView for ManifestEntry {
    type V = ManifestEntryView;

    open spec fn deep_view(&self) -> ManifestEntryView {
        self@
    }
}

/// A value as a row of a manifest: a record in which `status` and
/// `data_file` must be there, and `snapshot_id`, `sequence_number` and
/// `file_sequence_number` are `None` where they are absent or null. The
/// members are looked at in the order of the fields of [`ManifestEntry`], and
/// the first that fails decides.
pub open spec fn manifest_entry_of(d: Datum) -> Result<ManifestEntryView, Fault> {
    match d {
        Datum::Record(fields) => {
            let status = required(fields, "status"@, |x: Datum| status_of(x));
            let snapshot_id = optional(fields, "snapshot_id"@, |x: Datum| long_of(x));
            let data_file = required(fields, "data_file"@, |x: Datum| data_file_of(x));
            let sequence_number = optional(fields, "sequence_number"@, |x: Datum| long_of(x));
            let file_sequence_number = optional(
                fields,
                "file_sequence_number"@,
                |x: Datum| long_of(x),
            );
            if status is Err {
                Err(status->Err_0)
            } else if snapshot_id is Err {
                Err(snapshot_id->Err_0)
            } else if data_file is Err {
                Err(data_file->Err_0)
            } else if sequence_number is Err {
                Err(sequence_number->Err_0)
            } else if file_sequence_number is Err {
                Err(file_sequence_number->Err_0)
            } else {
                Ok(
                    ManifestEntryView {
                        status: status->Ok_0,
                        snapshot_id: snapshot_id->Ok_0,
                        data_file: data_file->Ok_0,
                        sequence_number: sequence_number->Ok_0,
                        file_sequence_number: file_sequence_number->Ok_0,
                    },
                )
            }
        },
        _ => Err(Fault::wrong_shape(kind_of(d))),
    }
}

/// The record that carries a row of a manifest: an id that is `None` as null.
pub open spec fn manifest_entry_datum(e: ManifestEntryView) -> Datum {
    Datum::Record(
        seq![
            ("status"@, Datum::Int(e.status.spec_code())),
            ("snapshot_id"@, optional_long_datum(e.snapshot_id)),
            ("data_file"@, data_file_datum(e.data_file)),
            ("sequence_number"@, optional_long_datum(e.sequence_number)),
            ("file_sequence_number"@, optional_long_datum(e.file_sequence_number)),
        ],
    )
}

/// The rows of a manifest, one for each record in the order of the records;
/// or the failure of the first record that fails, placed at its position.
pub open spec fn manifest_entries_of(records: Seq<Datum>) -> Result<
    Seq<ManifestEntryView>,
    Fault,
> {
    each(records, |x: Datum| manifest_entry_of(x))
}

impl ManifestEntry {
    /// The row that the record `v` carries.
    pub fn decode(v: &Value) -> (r: Result<ManifestEntry, DecodeError>)
        ensures
            lifted(r) == manifest_entry_of(v@),
    {
        proof {
            lemma_view_unfolds(*v);
        }
        match v {
            Value::Record(fields) => {
                let status = match find(fields, "status") {
                    None => { return Err(DecodeError::missing("status")); },
                    Some(x) => at_member(read_status(x), "status")?,
                };
                let snapshot_id = optional_long(fields, "snapshot_id")?;
                let data_file = match find(fields, "data_file") {
                    None => { return Err(DecodeError::missing("data_file")); },
                    Some(x) => at_member(DataFile::decode(x), "data_file")?,
                };
                let sequence_number = optional_long(fields, "sequence_number")?;
                let file_sequence_number = optional_long(fields, "file_sequence_number")?;
                Ok(
                    ManifestEntry {
                        status,
                        snapshot_id,
                        data_file,
                        sequence_number,
                        file_sequence_number,
                    },
                )
            },
            _ => Err(DecodeError::wrong_shape(v.kind())),
        }
    }

    /// The rows that the records of a manifest carry, in the order of the
    /// records. The first record that fails ends the decode: no row is
    /// given then.
    pub fn decode_all(records: &Vec<Value>) -> (r: Result<Vec<ManifestEntry>, DecodeError>)
        ensures
            lifted(r) == manifest_entries_of(items_view(records@)),
    {
        let mut out: Vec<ManifestEntry> = Vec::new();
        let mut i: usize = 0;
        while i < records.len()
            invariant
                i <= records.len(),
                out.len() == i,
                forall|j: int|
                    0 <= j < i ==> manifest_entry_of(#[trigger] items_view(records@)[j]) == Ok::<
                        ManifestEntryView,
                        Fault,
                    >(out[j]@),
            decreases records.len() - i,
        {
            match ManifestEntry::decode(&records[i]) {
                Ok(entry) => {
                    out.push(entry);
                },
                Err(e) => {
                    proof {
                        lemma_each_fails(
                            items_view(records@),
                            |x: Datum| manifest_entry_of(x),
                            i as int,
                        );
                    }
                    return Err(e.within_item(i));
                },
            }
            i += 1;
        }
        proof {
            lemma_each_succeeds(
                items_view(records@),
                |x: Datum| manifest_entry_of(x),
                out.deep_view(),
            );
        }
        Ok(out)
    }

    /// The record for this row.
    pub fn encode(&self) -> (v: Value)
        ensures
            v@ == manifest_entry_datum(self@),
    {
        let mut fields: Vec<Field> = Vec::new();
        fields.push(Field::named("status", Value::Int(self.status.code())));
        fields.push(Field::named("snapshot_id", encode_optional_long(self.snapshot_id)));
        fields.push(Field::named("data_file", self.data_file.encode()));
        fields.push(Field::named("sequence_number", encode_optional_long(self.sequence_number)));
        fields.push(
            Field::named("file_sequence_number", encode_optional_long(self.file_sequence_number)),
        );
        let v = Value::Record(fields);
        proof {
            lemma_view_unfolds(v);
            assert(fields_view(fields@) =~= manifest_entry_datum(self@)->Record_0);
        }
        v
    }

    /// The snapshot id of the row, where the manifest was applied under the
    /// snapshot `inherited`.
    pub fn resolved_snapshot_id(&self, inherited: i64) -> (id: i64)
        ensures
            id == self@.resolved_snapshot_id(inherited),
    {
        match self.snapshot_id {
            Some(id) => id,
            None => inherited,
        }
    }

    /// The sequence number of the row, where the manifest has the sequence
    /// number `inherited`.
    pub fn resolved_sequence_number(&self, inherited: i64) -> (n: Option<i64>)
        ensures
            n == self@.resolved_sequence_number(inherited),
    {
        match self.sequence_number {
            Some(n) => Some(n),
            None => match self.status {
                EntryStatus::Added => Some(inherited),
                _ => None,
            },
        }
    }
}

/// Each member of a row's record is found under its name.
proof fn lemma_manifest_entry_members(e: ManifestEntryView)
    ensures
        member(manifest_entry_datum(e)->Record_0, "status"@) == Some(
            manifest_entry_datum(e)->Record_0[0].1,
        ),
        member(manifest_entry_datum(e)->Record_0, "snapshot_id"@) == Some(
            manifest_entry_datum(e)->Record_0[1].1,
        ),
        member(manifest_entry_datum(e)->Record_0, "data_file"@) == Some(
            manifest_entry_datum(e)->Record_0[2].1,
        ),
        member(manifest_entry_datum(e)->Record_0, "sequence_number"@) == Some(
            manifest_entry_datum(e)->Record_0[3].1,
        ),
        member(manifest_entry_datum(e)->Record_0, "file_sequence_number"@) == Some(
            manifest_entry_datum(e)->Record_0[4].1,
        ),
{
    reveal_strlit("status");
    reveal_strlit("snapshot_id");
    reveal_strlit("data_file");
    reveal_strlit("sequence_number");
    reveal_strlit("file_sequence_number");
    let fields = manifest_entry_datum(e)->Record_0;
    assert("status"@.len() == 6);
    assert("snapshot_id"@.len() == 11);
    assert("data_file"@.len() == 9);
    assert("sequence_number"@.len() == 15);
    assert("file_sequence_number"@.len() == 20);
    lemma_member_at(fields, "status"@, 0);
    lemma_member_at(fields, "snapshot_id"@, 1);
    lemma_member_at(fields, "data_file"@, 2);
    lemma_member_at(fields, "sequence_number"@, 3);
    lemma_member_at(fields, "file_sequence_number"@, 4);
}

/// A row's record carries that row.
pub proof fn lemma_manifest_entry_round_trip(e: ManifestEntryView)
    ensures
        manifest_entry_of(manifest_entry_datum(e)) == Ok::<ManifestEntryView, Fault>(e),
{
    lemma_manifest_entry_members(e);
    EntryStatus::lemma_domain(e.status.spec_code());
    lemma_data_file_round_trip(e.data_file);
}

} // verus!
