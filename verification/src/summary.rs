//! The summary of one partition field over the files of a manifest.

use crate::fault::{lifted, DecodeError, Fault};
use crate::record::{lemma_member_at, nullable, nullable_bytes, required, required_flag};
use crate::scalar::{bytes_of, flag_of};
use crate::value::{fields_view, kind_of, lemma_view_unfolds, Datum, Field, Value};
use vstd::prelude::*;
use vstd::string::StringExecFns;

verus! {

/// What is known of one partition field's values: whether a null or a NaN
/// is among them, and the bounds of the others.
///
/// The bounds are bytes whose meaning the partition field's type gives; the
/// summary's position in its list is that field's position in the partition
/// spec. An empty bound says that every value is null or NaN.
#[derive(Clone, Debug, PartialEq, Eq)]
pub struct FieldSummary {
    pub contains_null: bool,
    pub contains_nan: bool,
    pub lower_bound: Vec<u8>,
    pub upper_bound: Vec<u8>,
}

/// The content of a [`FieldSummary`].
pub struct FieldSummaryView {
    pub contains_null: bool,
    pub contains_nan: bool,
    pub lower_bound: Seq<u8>,
    pub upper_bound: Seq<u8>,
}

impl View for FieldSummary {
    type V = FieldSummaryView;

    open spec fn view(&self) -> FieldSummaryView {
        FieldSummaryView {
            contains_null: self.contains_null,
            contains_nan: self.contains_nan,
            lower_bound: self.lower_bound@,
            upper_bound: self.upper_bound@,
        }
    }
}

impl DeepView for FieldSummary {
    type V = FieldSummaryView;

    open spec fn deep_view(&self) -> FieldSummaryView {
        self@
    }
}

/// A value as a field summary: a record with the flags `contains_null` and
/// `contains_nan`, which must be there, and the bounds `lower_bound` and
/// `upper_bound`, each empty where it is absent or null. The members are
/// looked at in this order, and the first that fails decides.
pub open spec fn field_summary_of(d: Datum) -> Result<FieldSummaryView, Fault> {
    match d {
        Datum::Record(fields) => {
            let contains_null = required(fields, "contains_null"@, |x: Datum| flag_of(x));
            let contains_nan = required(fields, "contains_nan"@, |x: Datum| flag_of(x));
            let lower_bound = nullable(
                fields,
                "lower_bound"@,
                |x: Datum| bytes_of(x),
                Seq::<u8>::empty(),
            );
            let upper_bound = nullable(
                fields,
                "upper_bound"@,
                |x: Datum| bytes_of(x),
                Seq::<u8>::empty(),
            );
            if contains_null is Err {
                Err(contains_null->Err_0)
            } else if contains_nan is Err {
                Err(contains_nan->Err_0)
            } else if lower_bound is Err {
                Err(lower_bound->Err_0)
            } else if upper_bound is Err {
                Err(upper_bound->Err_0)
            } else {
                Ok(
                    FieldSummaryView {
                        contains_null: contains_null->Ok_0,
                        contains_nan: contains_nan->Ok_0,
                        lower_bound: lower_bound->Ok_0,
                        upper_bound: upper_bound->Ok_0,
                    },
                )
            }
        },
        _ => Err(Fault::wrong_shape(kind_of(d))),
    }
}

/// The record that carries a field summary.
pub open spec fn field_summary_datum(s: FieldSummaryView) -> Datum {
    Datum::Record(
        seq![
            ("contains_null"@, Datum::Boolean(s.contains_null)),
            ("contains_nan"@, Datum::Boolean(s.contains_nan)),
            ("lower_bound"@, Datum::Bytes(s.lower_bound)),
            ("upper_bound"@, Datum::Bytes(s.upper_bound)),
        ],
    )
}

impl FieldSummary {
    /// The field summary that the record `v` carries.
    pub fn decode(v: &Value) -> (r: Result<FieldSummary, DecodeError>)
        ensures
            lifted(r) == field_summary_of(v@),
    {
        proof {
            lemma_view_unfolds(*v);
        }
        match v {
            Value::Record(fields) => {
                let contains_null = required_flag(fields, "contains_null")?;
                let contains_nan = required_flag(fields, "contains_nan")?;
                let lower_bound = nullable_bytes(fields, "lower_bound")?;
                let upper_bound = nullable_bytes(fields, "upper_bound")?;
                assert(lower_bound.deep_view() =~= lower_bound@);
                assert(upper_bound.deep_view() =~= upper_bound@);
                Ok(FieldSummary { contains_null, contains_nan, lower_bound, upper_bound })
            },
            _ => Err(DecodeError::wrong_shape(v.kind())),
        }
    }

    /// The record for this field summary.
    pub fn encode(&self) -> (v: Value)
        ensures
            v@ == field_summary_datum(self@),
    {
        let mut fields: Vec<Field> = Vec::new();
        fields.push(
            Field {
                name: String::from_str("contains_null"),
                value: Value::Boolean(self.contains_null),
            },
        );
        fields.push(
            Field {
                name: String::from_str("contains_nan"),
                value: Value::Boolean(self.contains_nan),
            },
        );
        fields.push(
            Field {
                name: String::from_str("lower_bound"),
                value: Value::Bytes(self.lower_bound.clone()),
            },
        );
        fields.push(
            Field {
                name: String::from_str("upper_bound"),
                value: Value::Bytes(self.upper_bound.clone()),
            },
        );
        let v = Value::Record(fields);
        proof {
            lemma_view_unfolds(v);
            assert(fields_view(fields@) =~= field_summary_datum(self@)->Record_0);
        }
        v
    }
}

/// A field summary's record carries that summary.
pub proof fn lemma_field_summary_round_trip(s: FieldSummaryView)
    ensures
        field_summary_of(field_summary_datum(s)) == Ok::<FieldSummaryView, Fault>(s),
{
    reveal_strlit("contains_null");
    reveal_strlit("contains_nan");
    reveal_strlit("lower_bound");
    reveal_strlit("upper_bound");
    let fields = field_summary_datum(s)->Record_0;
    assert("contains_null"@.len() == 13);
    assert("contains_nan"@.len() == 12);
    assert("lower_bound"@[0] != "upper_bound"@[0]);
    lemma_member_at(fields, "contains_null"@, 0);
    lemma_member_at(fields, "contains_nan"@, 1);
    lemma_member_at(fields, "lower_bound"@, 2);
    lemma_member_at(fields, "upper_bound"@, 3);
}

} // verus!
