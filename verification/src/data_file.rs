//! The record that describes one data or delete file: where it is, what it
//! holds, and the statistics of its columns.

use crate::codes::{
    file_content_of, file_format_of, read_file_content, read_file_format, FileContent, FileFormat,
};
use crate::fault::{lifted, DecodeError, Fault};
use crate::record::{
    at_member, defaulted, defaulted_ints, defaulted_longs, find, nullable, nullable_bytes,
    required, required_int, required_long, required_text, required_value,
};
use crate::record::{lemma_member_at, member};
use crate::scalar::{
    bytes_of, encode_ints, encode_longs, int_of, ints_datum, ints_of, lemma_ints_round_trip,
    lemma_longs_round_trip, long_of, longs_datum, longs_of, text_of,
};
use crate::sparse::{
    bytes_pairs_datum, bytes_pairs_of, encode_bytes_pairs, encode_num_pairs,
    lemma_bytes_pairs_round_trip, lemma_num_pairs_round_trip, nullable_bytes_pairs,
    nullable_num_pairs, num_pairs_datum, num_pairs_of,
};
use crate::value::{fields_view, kind_of, lemma_view_unfolds, Datum, Field, Value};
use vstd::prelude::*;
use vstd::string::StringExecFns;

verus! {

/// One data or delete file of a table.
///
/// Each statistics map is a list of pairs from column id to a count or to a
/// bound's bytes, in the order in which the record gave them; a column
/// without a pair is unknown, not zero. The partition tuple is kept as the
/// value it came as: its members stand in the order of the partition spec's
/// fields, which the holder of that spec knows. The split offsets are kept
/// as they came, in their order, whether ascending or not.
#[derive(Clone, Debug, PartialEq, Eq)]
pub struct DataFile {
    /// Where the file is.
    pub file_path: String,
    /// The format of the file.
    pub file_format: FileFormat,
    /// The partition tuple of the file.
    pub partition: Value,
    /// How many records the file holds.
    pub record_count: i64,
    /// The size of the file in bytes.
    pub file_size_in_bytes: i64,
    /// From column id to the size on disk of the column.
    pub column_sizes: Vec<(i32, i64)>,
    /// From column id to the number of values, nulls and NaNs included.
    pub value_counts: Vec<(i32, i64)>,
    /// From column id to the number of null values.
    pub null_value_counts: Vec<(i32, i64)>,
    /// From column id to the number of distinct values.
    pub distinct_counts: Vec<(i32, i64)>,
    /// From column id to the least value of the column.
    pub lower_bounds: Vec<(i32, Vec<u8>)>,
    /// From column id to the greatest value of the column.
    pub upper_bounds: Vec<(i32, Vec<u8>)>,
    /// Key metadata for encryption, which only its writer reads.
    pub key_metadata: Vec<u8>,
    /// The offsets at which the file can be split.
    pub split_offsets: Vec<i64>,
    /// The ids of the fields by which an equality delete file tells rows.
    pub equality_ids: Vec<i32>,
    /// What the file holds.
    pub content: FileContent,
    /// From column id to the number of NaN values.
    pub nan_value_counts: Vec<(i32, i64)>,
    /// The id of the sort order of the file.
    pub sort_order_id: i32,
}

/// The content of a [`DataFile`].
pub struct DataFileView {
    pub file_path: Seq<char>,
    pub file_format: FileFormat,
    pub partition: Datum,
    pub record_count: i64,
    pub file_size_in_bytes: i64,
    pub column_sizes: Seq<(i32, i64)>,
    pub value_counts: Seq<(i32, i64)>,
    pub null_value_counts: Seq<(i32, i64)>,
    pub distinct_counts: Seq<(i32, i64)>,
    pub lower_bounds: Seq<(i32, Seq<u8>)>,
    pub upper_bounds: Seq<(i32, Seq<u8>)>,
    pub key_metadata: Seq<u8>,
    pub split_offsets: Seq<i64>,
    pub equality_ids: Seq<i32>,
    pub content: FileContent,
    pub nan_value_counts: Seq<(i32, i64)>,
    pub sort_order_id: i32,
}

impl DataFileView {
    /// What the table format asks of a file: counts that are not negative,
    /// and equality ids exactly where the file holds equality deletes.
    pub open spec fn valid(self) -> bool {
        &&& self.record_count >= 0
        &&& self.file_size_in_bytes >= 0
        &&& (self.equality_ids.len() > 0 <==> self.content == FileContent::EqualityDeletes)
    }
}

impl View for DataFile {
    type V = DataFileView;

    open spec fn view(&self) -> DataFileView {
        DataFileView {
            file_path: self.file_path@,
            file_format: self.file_format,
            partition: self.partition@,
            record_count: self.record_count,
            file_size_in_bytes: self.file_size_in_bytes,
            column_sizes: self.column_sizes.deep_view(),
            value_counts: self.value_counts.deep_view(),
            null_value_counts: self.null_value_counts.deep_view(),
            distinct_counts: self.distinct_counts.deep_view(),
            lower_bounds: self.lower_bounds.deep_view(),
            upper_bounds: self.upper_bounds.deep_view(),
            key_metadata: self.key_metadata.deep_view(),
            split_offsets: self.split_offsets.deep_view(),
            equality_ids: self.equality_ids.deep_view(),
            content: self.content,
            nan_value_counts: self.nan_value_counts.deep_view(),
            sort_order_id: self.sort_order_id,
        }
    }
}

impl DeepView for DataFile {
    type V = DataFileView;

    open spec fn deep_view(&self) -> DataFileView {
        self@
    }
}

/// The map of counts under `name`: empty where the member is absent or null.
pub open spec fn counts_at(fields: Seq<(Seq<char>, Datum)>, name: Seq<char>) -> Result<
    Seq<(i32, i64)>,
    Fault,
> {
    nullable(fields, name, |x: Datum| num_pairs_of(x), Seq::<(i32, i64)>::empty())
}

/// The map of bounds under `name`: empty where the member is absent or null.
pub open spec fn bounds_at(fields: Seq<(Seq<char>, Datum)>, name: Seq<char>) -> Result<
    Seq<(i32, Seq<u8>)>,
    Fault,
> {
    nullable(fields, name, |x: Datum| bytes_pairs_of(x), Seq::<(i32, Seq<u8>)>::empty())
}

/// A value as a data file: a record in which `file_path`, `file_format`,
/// `partition`, `record_count`, `file_size_in_bytes`, `content` and
/// `sort_order_id` must be there; each statistics map and `key_metadata` is
/// empty where it is absent or null; `split_offsets` and `equality_ids` are
/// empty where they are absent. The members are looked at in the order of the
/// fields of [`DataFile`], and the first that fails decides.
pub open spec fn data_file_of(d: Datum) -> Result<DataFileView, Fault> {
    match d {
        Datum::Record(fields) => {
            let file_path = required(fields, "file_path"@, |x: Datum| text_of(x));
            let file_format = required(fields, "file_format"@, |x: Datum| file_format_of(x));
            let partition = required(fields, "partition"@, |x: Datum| Ok::<Datum, Fault>(x));
            let record_count = required(fields, "record_count"@, |x: Datum| long_of(x));
            let file_size_in_bytes = required(
                fields,
                "file_size_in_bytes"@,
                |x: Datum| long_of(x),
            );
            let column_sizes = counts_at(fields, "column_sizes"@);
            let value_counts = counts_at(fields, "value_counts"@);
            let null_value_counts = counts_at(fields, "null_value_counts"@);
            let distinct_counts = counts_at(fields, "distinct_counts"@);
            let lower_bounds = bounds_at(fields, "lower_bounds"@);
            let upper_bounds = bounds_at(fields, "upper_bounds"@);
            let key_metadata = nullable(
                fields,
                "key_metadata"@,
                |x: Datum| bytes_of(x),
                Seq::<u8>::empty(),
            );
            let split_offsets = defaulted(
                fields,
                "split_offsets"@,
                |x: Datum| longs_of(x),
                Seq::<i64>::empty(),
            );
            let equality_ids = defaulted(
                fields,
                "equality_ids"@,
                |x: Datum| ints_of(x),
                Seq::<i32>::empty(),
            );
            let content = required(fields, "content"@, |x: Datum| file_content_of(x));
            let nan_value_counts = counts_at(fields, "nan_value_counts"@);
            let sort_order_id = required(fields, "sort_order_id"@, |x: Datum| int_of(x));
            if file_path is Err {
                Err(file_path->Err_0)
            } else if file_format is Err {
                Err(file_format->Err_0)
            } else if partition is Err {
                Err(partition->Err_0)
            } else if record_count is Err {
                Err(record_count->Err_0)
            } else if file_size_in_bytes is Err {
                Err(file_size_in_bytes->Err_0)
            } else if column_sizes is Err {
                Err(column_sizes->Err_0)
            } else if value_counts is Err {
                Err(value_counts->Err_0)
            } else if null_value_counts is Err {
                Err(null_value_counts->Err_0)
            } else if distinct_counts is Err {
                Err(distinct_counts->Err_0)
            } else if lower_bounds is Err {
                Err(lower_bounds->Err_0)
            } else if upper_bounds is Err {
                Err(upper_bounds->Err_0)
            } else if key_metadata is Err {
                Err(key_metadata->Err_0)
            } else if split_offsets is Err {
                Err(split_offsets->Err_0)
            } else if equality_ids is Err {
                Err(equality_ids->Err_0)
            } else if content is Err {
                Err(content->Err_0)
            } else if nan_value_counts is Err {
                Err(nan_value_counts->Err_0)
            } else if sort_order_id is Err {
                Err(sort_order_id->Err_0)
            } else {
                Ok(
                    DataFileView {
                        file_path: file_path->Ok_0,
                        file_format: file_format->Ok_0,
                        partition: partition->Ok_0,
                        record_count: record_count->Ok_0,
                        file_size_in_bytes: file_size_in_bytes->Ok_0,
                        column_sizes: column_sizes->Ok_0,
                        value_counts: value_counts->Ok_0,
                        null_value_counts: null_value_counts->Ok_0,
                        distinct_counts: distinct_counts->Ok_0,
                        lower_bounds: lower_bounds->Ok_0,
                        upper_bounds: upper_bounds->Ok_0,
                        key_metadata: key_metadata->Ok_0,
                        split_offsets: split_offsets->Ok_0,
                        equality_ids: equality_ids->Ok_0,
                        content: content->Ok_0,
                        nan_value_counts: nan_value_counts->Ok_0,
                        sort_order_id: sort_order_id->Ok_0,
                    },
                )
            }
        },
        _ => Err(Fault::wrong_shape(kind_of(d))),
    }
}

/// The record that carries a data file: every member written out, an empty
/// collection as an empty array or empty bytes.
pub open spec fn data_file_datum(f: DataFileView) -> Datum {
    Datum::Record(
        seq![
            ("file_path"@, Datum::Text(f.file_path)),
            ("file_format"@, Datum::Text(f.file_format.spec_name())),
            ("partition"@, f.partition),
            ("record_count"@, Datum::Long(f.record_count)),
            ("file_size_in_bytes"@, Datum::Long(f.file_size_in_bytes)),
            ("column_sizes"@, num_pairs_datum(f.column_sizes)),
            ("value_counts"@, num_pairs_datum(f.value_counts)),
            ("null_value_counts"@, num_pairs_datum(f.null_value_counts)),
            ("distinct_counts"@, num_pairs_datum(f.distinct_counts)),
            ("lower_bounds"@, bytes_pairs_datum(f.lower_bounds)),
            ("upper_bounds"@, bytes_pairs_datum(f.upper_bounds)),
            ("key_metadata"@, Datum::Bytes(f.key_metadata)),
            ("split_offsets"@, longs_datum(f.split_offsets)),
            ("equality_ids"@, ints_datum(f.equality_ids)),
            ("content"@, Datum::Int(f.content.spec_code())),
            ("nan_value_counts"@, num_pairs_datum(f.nan_value_counts)),
            ("sort_order_id"@, Datum::Int(f.sort_order_id)),
        ],
    )
}

/// The file format under the member `name`, which must be there.
fn required_file_format(fields: &Vec<Field>, name: &str) -> (r: Result<FileFormat, DecodeError>)
    ensures
        lifted(r) == required(fields_view(fields@), name@, |d: Datum| file_format_of(d)),
{
    match find(fields, name) {
        None => Err(DecodeError::missing(name)),
        Some(v) => at_member(read_file_format(v), name),
    }
}

/// The file's content under the member `name`, which must be there.
fn required_file_content(fields: &Vec<Field>, name: &str) -> (r: Result<
    FileContent,
    DecodeError,
>)
    ensures
        lifted(r) == required(fields_view(fields@), name@, |d: Datum| file_content_of(d)),
{
    match find(fields, name) {
        None => Err(DecodeError::missing(name)),
        Some(v) => at_member(read_file_content(v), name),
    }
}

impl DataFile {
    /// The data file that the record `v` carries.
    pub fn decode(v: &Value) -> (r: Result<DataFile, DecodeError>)
        ensures
            lifted(r) == data_file_of(v@),
    {
        proof {
            lemma_view_unfolds(*v);
        }
        match v {
            Value::Record(fields) => {
                let file_path = required_text(fields, "file_path")?;
                let file_format = required_file_format(fields, "file_format")?;
                let partition = required_value(fields, "partition")?.clone();
                let record_count = required_long(fields, "record_count")?;
                let file_size_in_bytes = required_long(fields, "file_size_in_bytes")?;
                let column_sizes = nullable_num_pairs(fields, "column_sizes")?;
                let value_counts = nullable_num_pairs(fields, "value_counts")?;
                let null_value_counts = nullable_num_pairs(fields, "null_value_counts")?;
                let distinct_counts = nullable_num_pairs(fields, "distinct_counts")?;
                let lower_bounds = nullable_bytes_pairs(fields, "lower_bounds")?;
                let upper_bounds = nullable_bytes_pairs(fields, "upper_bounds")?;
                let key_metadata = nullable_bytes(fields, "key_metadata")?;
                let split_offsets = defaulted_longs(fields, "split_offsets")?;
                let equality_ids = defaulted_ints(fields, "equality_ids")?;
                let content = required_file_content(fields, "content")?;
                let nan_value_counts = nullable_num_pairs(fields, "nan_value_counts")?;
                let sort_order_id = required_int(fields, "sort_order_id")?;
                Ok(
                    DataFile {
                        file_path,
                        file_format,
                        partition,
                        record_count,
                        file_size_in_bytes,
                        column_sizes,
                        value_counts,
                        null_value_counts,
                        distinct_counts,
                        lower_bounds,
                        upper_bounds,
                        key_metadata,
                        split_offsets,
                        equality_ids,
                        content,
                        nan_value_counts,
                        sort_order_id,
                    },
                )
            },
            _ => Err(DecodeError::wrong_shape(v.kind())),
        }
    }

    /// The record for this data file.
    pub fn encode(&self) -> (v: Value)
        ensures
            v@ == data_file_datum(self@),
    {
        let mut fields: Vec<Field> = Vec::new();
        fields.push(Field::named("file_path", Value::Text(self.file_path.clone())));
        fields.push(
            Field::named("file_format", Value::Text(String::from_str(self.file_format.name()))),
        );
        fields.push(Field::named("partition", self.partition.clone()));
        fields.push(Field::named("record_count", Value::Long(self.record_count)));
        fields.push(Field::named("file_size_in_bytes", Value::Long(self.file_size_in_bytes)));
        fields.push(Field::named("column_sizes", encode_num_pairs(&self.column_sizes)));
        fields.push(Field::named("value_counts", encode_num_pairs(&self.value_counts)));
        fields.push(Field::named("null_value_counts", encode_num_pairs(&self.null_value_counts)));
        fields.push(Field::named("distinct_counts", encode_num_pairs(&self.distinct_counts)));
        fields.push(Field::named("lower_bounds", encode_bytes_pairs(&self.lower_bounds)));
        fields.push(Field::named("upper_bounds", encode_bytes_pairs(&self.upper_bounds)));
        fields.push(Field::named("key_metadata", Value::Bytes(self.key_metadata.clone())));
        fields.push(Field::named("split_offsets", encode_longs(&self.split_offsets)));
        fields.push(Field::named("equality_ids", encode_ints(&self.equality_ids)));
        fields.push(Field::named("content", Value::Int(self.content.code())));
        fields.push(Field::named("nan_value_counts", encode_num_pairs(&self.nan_value_counts)));
        fields.push(Field::named("sort_order_id", Value::Int(self.sort_order_id)));
        let v = Value::Record(fields);
        proof {
            lemma_view_unfolds(v);
            assert(self.column_sizes.deep_view() =~= self.column_sizes@);
            assert(self.value_counts.deep_view() =~= self.value_counts@);
            assert(self.null_value_counts.deep_view() =~= self.null_value_counts@);
            assert(self.distinct_counts.deep_view() =~= self.distinct_counts@);
            assert(self.nan_value_counts.deep_view() =~= self.nan_value_counts@);
            assert(self.key_metadata.deep_view() =~= self.key_metadata@);
            assert(self.split_offsets.deep_view() =~= self.split_offsets@);
            assert(self.equality_ids.deep_view() =~= self.equality_ids@);
            assert(fields_view(fields@) =~= data_file_datum(self@)->Record_0);
        }
        v
    }

    /// Whether the file is as the table format asks.
    pub fn is_valid(&self) -> (b: bool)
        ensures
            b == self@.valid(),
    {
        let has_ids = self.equality_ids.len() > 0;
        let wants_ids = match self.content {
            FileContent::EqualityDeletes => true,
            _ => false,
        };
        self.record_count >= 0 && self.file_size_in_bytes >= 0 && has_ids == wants_ids
    }
}

/// The member names of a data file's record are 17 different names.
proof fn lemma_member_names_differ()
    ensures
        "file_path"@.len() == 9 && "file_path"@[0] == 'f',
        "file_format"@.len() == 11,
        "partition"@.len() == 9 && "partition"@[0] == 'p',
        "record_count"@.len() == 12 && "record_count"@[0] == 'r',
        "file_size_in_bytes"@.len() == 18,
        "column_sizes"@.len() == 12 && "column_sizes"@[0] == 'c',
        "value_counts"@.len() == 12 && "value_counts"@[0] == 'v',
        "null_value_counts"@.len() == 17,
        "distinct_counts"@.len() == 15,
        "lower_bounds"@.len() == 12 && "lower_bounds"@[0] == 'l',
        "upper_bounds"@.len() == 12 && "upper_bounds"@[0] == 'u',
        "key_metadata"@.len() == 12 && "key_metadata"@[0] == 'k',
        "split_offsets"@.len() == 13 && "split_offsets"@[1] == 'p',
        "equality_ids"@.len() == 12 && "equality_ids"@[0] == 'e',
        "content"@.len() == 7,
        "nan_value_counts"@.len() == 16,
        "sort_order_id"@.len() == 13 && "sort_order_id"@[1] == 'o',
{
    reveal_strlit("file_path");
    reveal_strlit("file_format");
    reveal_strlit("partition");
    reveal_strlit("record_count");
    reveal_strlit("file_size_in_bytes");
    reveal_strlit("column_sizes");
    reveal_strlit("value_counts");
    reveal_strlit("null_value_counts");
    reveal_strlit("distinct_counts");
    reveal_strlit("lower_bounds");
    reveal_strlit("upper_bounds");
    reveal_strlit("key_metadata");
    reveal_strlit("split_offsets");
    reveal_strlit("equality_ids");
    reveal_strlit("content");
    reveal_strlit("nan_value_counts");
    reveal_strlit("sort_order_id");
}

/// Each member of a data file's record is found under its name.
proof fn lemma_data_file_members(f: DataFileView)
    ensures
        member(data_file_datum(f)->Record_0, "file_path"@) == Some(data_file_datum(f)->Record_0[0].1),
        member(data_file_datum(f)->Record_0, "file_format"@) == Some(data_file_datum(f)->Record_0[1].1),
        member(data_file_datum(f)->Record_0, "partition"@) == Some(data_file_datum(f)->Record_0[2].1),
        member(data_file_datum(f)->Record_0, "record_count"@) == Some(data_file_datum(f)->Record_0[3].1),
        member(data_file_datum(f)->Record_0, "file_size_in_bytes"@) == Some(data_file_datum(f)->Record_0[4].1),
        member(data_file_datum(f)->Record_0, "column_sizes"@) == Some(data_file_datum(f)->Record_0[5].1),
        member(data_file_datum(f)->Record_0, "value_counts"@) == Some(data_file_datum(f)->Record_0[6].1),
        member(data_file_datum(f)->Record_0, "null_value_counts"@) == Some(data_file_datum(f)->Record_0[7].1),
        member(data_file_datum(f)->Record_0, "distinct_counts"@) == Some(data_file_datum(f)->Record_0[8].1),
        member(data_file_datum(f)->Record_0, "lower_bounds"@) == Some(data_file_datum(f)->Record_0[9].1),
        member(data_file_datum(f)->Record_0, "upper_bounds"@) == Some(data_file_datum(f)->Record_0[10].1),
        member(data_file_datum(f)->Record_0, "key_metadata"@) == Some(data_file_datum(f)->Record_0[11].1),
        member(data_file_datum(f)->Record_0, "split_offsets"@) == Some(data_file_datum(f)->Record_0[12].1),
        member(data_file_datum(f)->Record_0, "equality_ids"@) == Some(data_file_datum(f)->Record_0[13].1),
        member(data_file_datum(f)->Record_0, "content"@) == Some(data_file_datum(f)->Record_0[14].1),
        member(data_file_datum(f)->Record_0, "nan_value_counts"@) == Some(data_file_datum(f)->Record_0[15].1),
        member(data_file_datum(f)->Record_0, "sort_order_id"@) == Some(data_file_datum(f)->Record_0[16].1),
{
    let fields = data_file_datum(f)->Record_0;
    assert(member(fields, "file_path"@) == Some(fields[0].1)) by {
        lemma_member_names_differ();
        lemma_member_at(fields, "file_path"@, 0);
    }
    assert(member(fields, "file_format"@) == Some(fields[1].1)) by {
        lemma_member_names_differ();
        lemma_member_at(fields, "file_format"@, 1);
    }
    assert(member(fields, "partition"@) == Some(fields[2].1)) by {
        lemma_member_names_differ();
        lemma_member_at(fields, "partition"@, 2);
    }
    assert(member(fields, "record_count"@) == Some(fields[3].1)) by {
        lemma_member_names_differ();
        lemma_member_at(fields, "record_count"@, 3);
    }
    assert(member(fields, "file_size_in_bytes"@) == Some(fields[4].1)) by {
        lemma_member_names_differ();
        lemma_member_at(fields, "file_size_in_bytes"@, 4);
    }
    assert(member(fields, "column_sizes"@) == Some(fields[5].1)) by {
        lemma_member_names_differ();
        lemma_member_at(fields, "column_sizes"@, 5);
    }
    assert(member(fields, "value_counts"@) == Some(fields[6].1)) by {
        lemma_member_names_differ();
        lemma_member_at(fields, "value_counts"@, 6);
    }
    assert(member(fields, "null_value_counts"@) == Some(fields[7].1)) by {
        lemma_member_names_differ();
        lemma_member_at(fields, "null_value_counts"@, 7);
    }
    assert(member(fields, "distinct_counts"@) == Some(fields[8].1)) by {
        lemma_member_names_differ();
        lemma_member_at(fields, "distinct_counts"@, 8);
    }
    assert(member(fields, "lower_bounds"@) == Some(fields[9].1)) by {
        lemma_member_names_differ();
        lemma_member_at(fields, "lower_bounds"@, 9);
    }
    assert(member(fields, "upper_bounds"@) == Some(fields[10].1)) by {
        lemma_member_names_differ();
        lemma_member_at(fields, "upper_bounds"@, 10);
    }
    assert(member(fields, "key_metadata"@) == Some(fields[11].1)) by {
        lemma_member_names_differ();
        lemma_member_at(fields, "key_metadata"@, 11);
    }
    assert(member(fields, "split_offsets"@) == Some(fields[12].1)) by {
        lemma_member_names_differ();
        lemma_member_at(fields, "split_offsets"@, 12);
    }
    assert(member(fields, "equality_ids"@) == Some(fields[13].1)) by {
        lemma_member_names_differ();
        lemma_member_at(fields, "equality_ids"@, 13);
    }
    assert(member(fields, "content"@) == Some(fields[14].1)) by {
        lemma_member_names_differ();
        lemma_member_at(fields, "content"@, 14);
    }
    assert(member(fields, "nan_value_counts"@) == Some(fields[15].1)) by {
        lemma_member_names_differ();
        lemma_member_at(fields, "nan_value_counts"@, 15);
    }
    assert(member(fields, "sort_order_id"@) == Some(fields[16].1)) by {
        lemma_member_names_differ();
        lemma_member_at(fields, "sort_order_id"@, 16);
    }
}

/// A data file's record carries that data file.
pub proof fn lemma_data_file_round_trip(f: DataFileView)
    ensures
        data_file_of(data_file_datum(f)) == Ok::<DataFileView, Fault>(f),
{
    lemma_data_file_members(f);
    FileFormat::lemma_name_round_trip(f.file_format);
    FileContent::lemma_domain(f.content.spec_code());
    lemma_num_pairs_round_trip(f.column_sizes);
    lemma_num_pairs_round_trip(f.value_counts);
    lemma_num_pairs_round_trip(f.null_value_counts);
    lemma_num_pairs_round_trip(f.distinct_counts);
    lemma_num_pairs_round_trip(f.nan_value_counts);
    lemma_bytes_pairs_round_trip(f.lower_bounds);
    lemma_bytes_pairs_round_trip(f.upper_bounds);
    lemma_longs_round_trip(f.split_offsets);
    lemma_ints_round_trip(f.equality_ids);
}

} // verus!
