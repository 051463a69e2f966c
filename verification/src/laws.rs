//! What holds of every decode, stated over the functions that the decoders'
//! contracts speak of.

use crate::codes::{
    file_content_of, file_format_of, manifest_content_of, status_of, EntryStatus, FileContent,
    FileFormat, ManifestContent,
};
use crate::data_file::data_file_of;
use crate::entry::{manifest_entry_of, ManifestEntryView};
use crate::fault::{Fault, Step};
use crate::listing::manifest_list_of;
use crate::record::{member, nullable, optional, required, unset};
use crate::scalar::{int_of, lemma_longs_round_trip, long_of, longs_datum, text_of};
use crate::value::Datum;
use vstd::prelude::*;

verus! {

/// A collection that null stands for when it is empty is read as empty, and
/// not as a failure, where the record says nothing under its name.
pub proof fn lemma_unset_collection_is_empty<T>(
    fields: Seq<(Seq<char>, Datum)>,
    name: Seq<char>,
    read: spec_fn(Datum) -> Result<T, Fault>,
    empty: T,
)
    requires
        unset(fields, name),
    ensures
        nullable(fields, name, read, empty) == Ok::<T, Fault>(empty),
{
}

/// A count that may be unknown is read as unknown, and not as zero or as a
/// failure, where the record says nothing under its name.
pub proof fn lemma_unset_count_is_unknown<T>(
    fields: Seq<(Seq<char>, Datum)>,
    name: Seq<char>,
    read: spec_fn(Datum) -> Result<T, Fault>,
)
    requires
        unset(fields, name),
    ensures
        optional(fields, name, read) == Ok::<Option<T>, Fault>(None),
{
}

/// In a data file that was decoded, each statistics map and the key
/// metadata is empty where the record said nothing under its name.
pub proof fn lemma_unset_statistics_are_empty(fields: Seq<(Seq<char>, Datum)>)
    requires
        data_file_of(Datum::Record(fields)) is Ok,
    ensures
        ({
            let f = data_file_of(Datum::Record(fields))->Ok_0;
            &&& unset(fields, "column_sizes"@) ==> f.column_sizes == Seq::<(i32, i64)>::empty()
            &&& unset(fields, "value_counts"@) ==> f.value_counts == Seq::<(i32, i64)>::empty()
            &&& unset(fields, "null_value_counts"@) ==> f.null_value_counts == Seq::<
                (i32, i64),
            >::empty()
            &&& unset(fields, "distinct_counts"@) ==> f.distinct_counts == Seq::<
                (i32, i64),
            >::empty()
            &&& unset(fields, "nan_value_counts"@) ==> f.nan_value_counts == Seq::<
                (i32, i64),
            >::empty()
            &&& unset(fields, "lower_bounds"@) ==> f.lower_bounds == Seq::<
                (i32, Seq<u8>),
            >::empty()
            &&& unset(fields, "upper_bounds"@) ==> f.upper_bounds == Seq::<
                (i32, Seq<u8>),
            >::empty()
            &&& unset(fields, "key_metadata"@) ==> f.key_metadata == Seq::<u8>::empty()
        }),
{
}

/// A data file's record decodes where its seven required members are there
/// and well-shaped and it says nothing else: no statistics are needed.
pub proof fn lemma_statistics_are_not_required(fields: Seq<(Seq<char>, Datum)>)
    requires
        required(fields, "file_path"@, |x: Datum| text_of(x)) is Ok,
        required(fields, "file_format"@, |x: Datum| file_format_of(x)) is Ok,
        member(fields, "partition"@) is Some,
        required(fields, "record_count"@, |x: Datum| long_of(x)) is Ok,
        required(fields, "file_size_in_bytes"@, |x: Datum| long_of(x)) is Ok,
        required(fields, "content"@, |x: Datum| file_content_of(x)) is Ok,
        required(fields, "sort_order_id"@, |x: Datum| int_of(x)) is Ok,
        unset(fields, "column_sizes"@),
        unset(fields, "value_counts"@),
        unset(fields, "null_value_counts"@),
        unset(fields, "distinct_counts"@),
        unset(fields, "nan_value_counts"@),
        unset(fields, "lower_bounds"@),
        unset(fields, "upper_bounds"@),
        unset(fields, "key_metadata"@),
        member(fields, "split_offsets"@) is None,
        member(fields, "equality_ids"@) is None,
    ensures
        data_file_of(Datum::Record(fields)) is Ok,
{
}

/// A row whose record says nothing of its sequence number has none after
/// the decode, an added row like any other; and likewise for its snapshot
/// id and its file sequence number. No value is put in their place.
pub proof fn lemma_unset_ids_stay_unset(fields: Seq<(Seq<char>, Datum)>)
    requires
        manifest_entry_of(Datum::Record(fields)) is Ok,
    ensures
        ({
            let e = manifest_entry_of(Datum::Record(fields))->Ok_0;
            &&& unset(fields, "sequence_number"@) ==> e.sequence_number is None
            &&& unset(fields, "snapshot_id"@) ==> e.snapshot_id is None
            &&& unset(fields, "file_sequence_number"@) ==> e.file_sequence_number is None
        }),
{
}

/// An integer is a status exactly when it is 0, 1 or 2; any other integer
/// is a schema mismatch.
pub proof fn lemma_status_domain(code: i32)
    ensures
        status_of(Datum::Int(code)) is Ok <==> 0 <= code <= 2,
        !(0 <= code <= 2) ==> status_of(Datum::Int(code)) == Err::<EntryStatus, Fault>(
            Fault::out_of_domain(),
        ),
        status_of(Datum::Int(code)) matches Ok(s) ==> s.spec_code() == code,
{
}

/// An integer is a file's content exactly when it is 0, 1 or 2; any other
/// integer is a schema mismatch.
pub proof fn lemma_file_content_domain(code: i32)
    ensures
        file_content_of(Datum::Int(code)) is Ok <==> 0 <= code <= 2,
        !(0 <= code <= 2) ==> file_content_of(Datum::Int(code)) == Err::<FileContent, Fault>(
            Fault::out_of_domain(),
        ),
        file_content_of(Datum::Int(code)) matches Ok(c) ==> c.spec_code() == code,
{
}

/// An integer is a manifest's content exactly when it is 0 or 1; any other
/// integer is a schema mismatch.
pub proof fn lemma_manifest_content_domain(code: i32)
    ensures
        manifest_content_of(Datum::Int(code)) is Ok <==> 0 <= code <= 1,
        !(0 <= code <= 1) ==> manifest_content_of(Datum::Int(code)) == Err::<
            ManifestContent,
            Fault,
        >(Fault::out_of_domain()),
        manifest_content_of(Datum::Int(code)) matches Ok(c) ==> c.spec_code() == code,
{
}

/// A text is a file format exactly when it names one; any other text is a
/// schema mismatch.
pub proof fn lemma_file_format_domain(name: Seq<char>)
    ensures
        file_format_of(Datum::Text(name)) is Ok <==> FileFormat::spec_from_name(name) is Some,
        FileFormat::spec_from_name(name) is None ==> file_format_of(Datum::Text(name)) == Err::<
            FileFormat,
            Fault,
        >(Fault::out_of_domain()),
{
}

/// A row of a manifest whose status is outside its domain fails, as a schema
/// mismatch at `status`, whatever else its record holds.
pub proof fn lemma_entry_status_outside_domain(fields: Seq<(Seq<char>, Datum)>, code: i32)
    requires
        member(fields, "status"@) == Some(Datum::Int(code)),
        !(0 <= code <= 2),
    ensures
        manifest_entry_of(Datum::Record(fields)) == Err::<ManifestEntryView, Fault>(
            Fault::out_of_domain().within(Step::Member("status"@)),
        ),
{
}

/// A data file whose content or whose format is outside its domain fails.
pub proof fn lemma_data_file_outside_domain(fields: Seq<(Seq<char>, Datum)>)
    requires
        ({
            ||| member(fields, "content"@) matches Some(Datum::Int(code)) && !(0 <= code <= 2)
            ||| member(fields, "file_format"@) matches Some(Datum::Text(name))
                && FileFormat::spec_from_name(name) is None
        }),
    ensures
        data_file_of(Datum::Record(fields)) is Err,
{
}

/// A row of a manifest list whose content is outside its domain fails.
pub proof fn lemma_manifest_list_outside_domain(fields: Seq<(Seq<char>, Datum)>, code: i32)
    requires
        member(fields, "content"@) == Some(Datum::Int(code)),
        !(0 <= code <= 1),
    ensures
        manifest_list_of(Datum::Record(fields)) is Err,
{
}

/// The split offsets of a data file are those of its record, each at its
/// place: none is moved, none is dropped.
pub proof fn lemma_split_offsets_are_carried(fields: Seq<(Seq<char>, Datum)>, offsets: Seq<i64>)
    requires
        member(fields, "split_offsets"@) == Some(longs_datum(offsets)),
        data_file_of(Datum::Record(fields)) is Ok,
    ensures
        data_file_of(Datum::Record(fields))->Ok_0.split_offsets == offsets,
{
    lemma_longs_round_trip(offsets);
}

} // verus!
