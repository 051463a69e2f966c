//! Sparse maps from column id to a count or to a bound, as the container
//! carries them: an array of records with a `key` and a `value`.
//!
//! The order of the pairs is kept as it is, in both directions, and a key may
//! occur more than once.

use crate::fault::{lifted, placed, DecodeError, Fault, Step};
use crate::record::{at_member, find, lemma_member_at, member, nullable, present};
use crate::scalar::{
    bytes_of, int_of, lemma_each_fails, lemma_each_succeeds, list_of, long_of, read_bytes,
    read_int, read_long,
};
use crate::value::{
    fields_view, items_view, kind_of, lemma_view_unfolds, Datum, Field, Value, ValueKind,
};
use vstd::prelude::*;
use vstd::string::StringExecFns;

verus! {

/// A column id with a count, as one record.
#[derive(Clone, Copy, Debug, PartialEq, Eq)]
pub struct NumPair {
    pub key: i32,
    pub value: i64,
}

/// A column id with a bound's bytes, as one record.
#[derive(Clone, Debug, PartialEq, Eq)]
pub struct BytesPair {
    pub key: i32,
    pub value: Vec<u8>,
}

/// The record that carries a column id and a count.
pub open spec fn num_pair_datum(pair: (i32, i64)) -> Datum {
    Datum::Record(seq![("key"@, Datum::Int(pair.0)), ("value"@, Datum::Long(pair.1))])
}

/// The record that carries a column id and a bound's bytes.
pub open spec fn bytes_pair_datum(pair: (i32, Seq<u8>)) -> Datum {
    Datum::Record(seq![("key"@, Datum::Int(pair.0)), ("value"@, Datum::Bytes(pair.1))])
}

/// One of the two members of a pair. A record without it is no pair: it has
/// the wrong shape, as a value of another kind has. Where the member is
/// there, it is read by `read`, and a failure is placed under its name.
pub open spec fn pair_member<T>(
    fields: Seq<(Seq<char>, Datum)>,
    name: Seq<char>,
    read: spec_fn(Datum) -> Result<T, Fault>,
) -> Result<T, Fault> {
    match member(fields, name) {
        None => Err(Fault::wrong_shape(ValueKind::Record)),
        Some(d) => placed(read(d), Step::Member(name)),
    }
}

/// A value as a column id with a count: a record with an integer `key` and
/// an integer `value`. The key is looked at first.
pub open spec fn num_pair_of(d: Datum) -> Result<(i32, i64), Fault> {
    match d {
        Datum::Record(fields) => match pair_member(fields, "key"@, |x: Datum| int_of(x)) {
            Err(e) => Err(e),
            Ok(key) => match pair_member(fields, "value"@, |x: Datum| long_of(x)) {
                Err(e) => Err(e),
                Ok(value) => Ok((key, value)),
            },
        },
        _ => Err(Fault::wrong_shape(kind_of(d))),
    }
}

/// A value as a column id with a bound's bytes: a record with an integer
/// `key` and a `value` of bytes. The key is looked at first.
pub open spec fn bytes_pair_of(d: Datum) -> Result<(i32, Seq<u8>), Fault> {
    match d {
        Datum::Record(fields) => match pair_member(fields, "key"@, |x: Datum| int_of(x)) {
            Err(e) => Err(e),
            Ok(key) => match pair_member(fields, "value"@, |x: Datum| bytes_of(x)) {
                Err(e) => Err(e),
                Ok(value) => Ok((key, value)),
            },
        },
        _ => Err(Fault::wrong_shape(kind_of(d))),
    }
}

/// The array that carries a map of counts, one record for each pair.
pub open spec fn num_pairs_datum(pairs: Seq<(i32, i64)>) -> Datum {
    Datum::Array(Seq::new(pairs.len(), |i: int| num_pair_datum(pairs[i])))
}

/// The array that carries a map of bounds, one record for each pair.
pub open spec fn bytes_pairs_datum(pairs: Seq<(i32, Seq<u8>)>) -> Datum {
    Datum::Array(Seq::new(pairs.len(), |i: int| bytes_pair_datum(pairs[i])))
}

/// A value as a map of counts: an array of pairs, in the order of the array.
pub open spec fn num_pairs_of(d: Datum) -> Result<Seq<(i32, i64)>, Fault> {
    list_of(d, |x: Datum| num_pair_of(x))
}

/// A value as a map of bounds: an array of pairs, in the order of the array.
pub open spec fn bytes_pairs_of(d: Datum) -> Result<Seq<(i32, Seq<u8>)>, Fault> {
    list_of(d, |x: Datum| bytes_pair_of(x))
}

/// The record of a pair: the key, then the value.
fn pair_record(key: i32, value: Value) -> (v: Value)
    ensures
        v@ == Datum::Record(seq![("key"@, Datum::Int(key)), ("value"@, value@)]),
{
    let mut fields: Vec<Field> = Vec::new();
    fields.push(Field { name: String::from_str("key"), value: Value::Int(key) });
    fields.push(Field { name: String::from_str("value"), value });
    let v = Value::Record(fields);
    proof {
        lemma_view_unfolds(v);
        assert(fields_view(fields@) =~= seq![("key"@, Datum::Int(key)), ("value"@, value@)]);
    }
    v
}

impl NumPair {
    /// The record for the pair `source`.
    pub fn serialize_as(source: &(i32, i64)) -> (v: Value)
        ensures
            v@ == num_pair_datum(*source),
    {
        let p = NumPair { key: source.0, value: source.1 };
        pair_record(p.key, Value::Long(p.value))
    }

    /// The pair that the record `v` carries.
    pub fn deserialize_as(v: &Value) -> (r: Result<(i32, i64), DecodeError>)
        ensures
            lifted(r) == num_pair_of(v@),
    {
        proof {
            lemma_view_unfolds(*v);
        }
        match v {
            Value::Record(fields) => {
                let key = match find(fields, "key") {
                    None => { return Err(DecodeError::wrong_shape(ValueKind::Record)); },
                    Some(x) => match at_member(read_int(x), "key") {
                        Ok(k) => k,
                        Err(e) => { return Err(e); },
                    },
                };
                let value = match find(fields, "value") {
                    None => { return Err(DecodeError::wrong_shape(ValueKind::Record)); },
                    Some(x) => match at_member(read_long(x), "value") {
                        Ok(k) => k,
                        Err(e) => { return Err(e); },
                    },
                };
                let pair = NumPair { key, value };
                Ok((pair.key, pair.value))
            },
            _ => Err(DecodeError::wrong_shape(v.kind())),
        }
    }
}

impl BytesPair {
    /// The record for the pair `source`.
    pub fn serialize_as(source: &(i32, Vec<u8>)) -> (v: Value)
        ensures
            v@ == bytes_pair_datum(source.deep_view()),
    {
        let p = BytesPair { key: source.0, value: source.1.clone() };
        assert(p.value@ =~= source.1.deep_view());
        pair_record(p.key, Value::Bytes(p.value))
    }

    /// The pair that the record `v` carries.
    pub fn deserialize_as(v: &Value) -> (r: Result<(i32, Vec<u8>), DecodeError>)
        ensures
            lifted(r) == bytes_pair_of(v@),
    {
        proof {
            lemma_view_unfolds(*v);
        }
        match v {
            Value::Record(fields) => {
                let key = match find(fields, "key") {
                    None => { return Err(DecodeError::wrong_shape(ValueKind::Record)); },
                    Some(x) => match at_member(read_int(x), "key") {
                        Ok(k) => k,
                        Err(e) => { return Err(e); },
                    },
                };
                let value = match find(fields, "value") {
                    None => { return Err(DecodeError::wrong_shape(ValueKind::Record)); },
                    Some(x) => match at_member(read_bytes(x), "value") {
                        Ok(k) => k,
                        Err(e) => { return Err(e); },
                    },
                };
                let pair = BytesPair { key, value };
                Ok((pair.key, pair.value))
            },
            _ => Err(DecodeError::wrong_shape(v.kind())),
        }
    }
}

/// The array for a map of counts, its pairs in their order.
pub fn encode_num_pairs(pairs: &Vec<(i32, i64)>) -> (v: Value)
    ensures
        v@ == num_pairs_datum(pairs@),
{
    let mut out: Vec<Value> = Vec::new();
    let mut i: usize = 0;
    while i < pairs.len()
        invariant
            i <= pairs.len(),
            out.len() == i,
            forall|j: int| 0 <= j < i ==> (#[trigger] out[j])@ == num_pair_datum(pairs[j]),
        decreases pairs.len() - i,
    {
        out.push(NumPair::serialize_as(&pairs[i]));
        i += 1;
    }
    let v = Value::Array(out);
    proof {
        lemma_view_unfolds(v);
        assert(items_view(out@) =~= Seq::new(pairs@.len(), |i: int| num_pair_datum(pairs@[i])));
    }
    v
}

/// The array for a map of bounds, its pairs in their order.
pub fn encode_bytes_pairs(pairs: &Vec<(i32, Vec<u8>)>) -> (v: Value)
    ensures
        v@ == bytes_pairs_datum(pairs.deep_view()),
{
    let mut out: Vec<Value> = Vec::new();
    let mut i: usize = 0;
    while i < pairs.len()
        invariant
            i <= pairs.len(),
            out.len() == i,
            forall|j: int|
                0 <= j < i ==> (#[trigger] out[j])@ == bytes_pair_datum(pairs[j].deep_view()),
        decreases pairs.len() - i,
    {
        out.push(BytesPair::serialize_as(&pairs[i]));
        i += 1;
    }
    let v = Value::Array(out);
    proof {
        lemma_view_unfolds(v);
        let shown = pairs.deep_view();
        assert(items_view(out@) =~= Seq::new(shown.len(), |i: int| bytes_pair_datum(shown[i])));
    }
    v
}

/// The map of counts that the array `v` carries, its pairs in their order.
pub fn decode_num_pairs(v: &Value) -> (r: Result<Vec<(i32, i64)>, DecodeError>)
    ensures
        lifted(r) == num_pairs_of(v@),
{
    proof {
        lemma_view_unfolds(*v);
    }
    match v {
        Value::Array(items) => {
            let mut out: Vec<(i32, i64)> = Vec::new();
            let mut i: usize = 0;
            while i < items.len()
                invariant
                    i <= items.len(),
                    out.len() == i,
                    v@ == Datum::Array(items_view(items@)),
                    forall|j: int|
                        0 <= j < i ==> num_pair_of(#[trigger] items_view(items@)[j]) == Ok::<
                            (i32, i64),
                            Fault,
                        >(out[j]),
                decreases items.len() - i,
            {
                match NumPair::deserialize_as(&items[i]) {
                    Ok(pair) => {
                        out.push(pair);
                    },
                    Err(e) => {
                        proof {
                            lemma_each_fails(
                                items_view(items@),
                                |x: Datum| num_pair_of(x),
                                i as int,
                            );
                        }
                        return Err(e.within_item(i));
                    },
                }
                i += 1;
            }
            proof {
                assert(out.deep_view() =~= out@);
                lemma_each_succeeds(items_view(items@), |x: Datum| num_pair_of(x), out@);
            }
            Ok(out)
        },
        _ => Err(DecodeError::wrong_shape(v.kind())),
    }
}

/// The map of bounds that the array `v` carries, its pairs in their order.
pub fn decode_bytes_pairs(v: &Value) -> (r: Result<Vec<(i32, Vec<u8>)>, DecodeError>)
    ensures
        lifted(r) == bytes_pairs_of(v@),
{
    proof {
        lemma_view_unfolds(*v);
    }
    match v {
        Value::Array(items) => {
            let mut out: Vec<(i32, Vec<u8>)> = Vec::new();
            let mut i: usize = 0;
            while i < items.len()
                invariant
                    i <= items.len(),
                    out.len() == i,
                    v@ == Datum::Array(items_view(items@)),
                    forall|j: int|
                        0 <= j < i ==> bytes_pair_of(#[trigger] items_view(items@)[j]) == Ok::<
                            (i32, Seq<u8>),
                            Fault,
                        >(out[j].deep_view()),
                decreases items.len() - i,
            {
                match BytesPair::deserialize_as(&items[i]) {
                    Ok(pair) => {
                        out.push(pair);
                    },
                    Err(e) => {
                        proof {
                            lemma_each_fails(
                                items_view(items@),
                                |x: Datum| bytes_pair_of(x),
                                i as int,
                            );
                        }
                        return Err(e.within_item(i));
                    },
                }
                i += 1;
            }
            proof {
                lemma_each_succeeds(
                    items_view(items@),
                    |x: Datum| bytes_pair_of(x),
                    out.deep_view(),
                );
            }
            Ok(out)
        },
        _ => Err(DecodeError::wrong_shape(v.kind())),
    }
}

/// The map of counts under the member `name`; empty where the member is
/// absent or null.
pub fn nullable_num_pairs(fields: &Vec<Field>, name: &str) -> (r: Result<
    Vec<(i32, i64)>,
    DecodeError,
>)
    ensures
        lifted(r) == nullable(
            fields_view(fields@),
            name@,
            |d: Datum| num_pairs_of(d),
            Seq::<(i32, i64)>::empty(),
        ),
{
    match present(fields, name) {
        None => {
            let out: Vec<(i32, i64)> = Vec::new();
            assert(out.deep_view() =~= Seq::<(i32, i64)>::empty());
            Ok(out)
        },
        Some(v) => at_member(decode_num_pairs(v), name),
    }
}

/// The map of bounds under the member `name`; empty where the member is
/// absent or null.
pub fn nullable_bytes_pairs(fields: &Vec<Field>, name: &str) -> (r: Result<
    Vec<(i32, Vec<u8>)>,
    DecodeError,
>)
    ensures
        lifted(r) == nullable(
            fields_view(fields@),
            name@,
            |d: Datum| bytes_pairs_of(d),
            Seq::<(i32, Seq<u8>)>::empty(),
        ),
{
    match present(fields, name) {
        None => {
            let out: Vec<(i32, Vec<u8>)> = Vec::new();
            assert(out.deep_view() =~= Seq::<(i32, Seq<u8>)>::empty());
            Ok(out)
        },
        Some(v) => at_member(decode_bytes_pairs(v), name),
    }
}

/// A pair's record carries that pair.
pub proof fn lemma_num_pair_round_trip(pair: (i32, i64))
    ensures
        num_pair_of(num_pair_datum(pair)) == Ok::<(i32, i64), Fault>(pair),
{
    reveal_strlit("key");
    reveal_strlit("value");
    assert("key"@.len() != "value"@.len());
    let fields = seq![("key"@, Datum::Int(pair.0)), ("value"@, Datum::Long(pair.1))];
    lemma_member_at(fields, "key"@, 0);
    lemma_member_at(fields, "value"@, 1);
}

/// A pair's record carries that pair.
pub proof fn lemma_bytes_pair_round_trip(pair: (i32, Seq<u8>))
    ensures
        bytes_pair_of(bytes_pair_datum(pair)) == Ok::<(i32, Seq<u8>), Fault>(pair),
{
    reveal_strlit("key");
    reveal_strlit("value");
    assert("key"@.len() != "value"@.len());
    let fields = seq![("key"@, Datum::Int(pair.0)), ("value"@, Datum::Bytes(pair.1))];
    lemma_member_at(fields, "key"@, 0);
    lemma_member_at(fields, "value"@, 1);
}

/// Encoding a map of counts and decoding the array gives the same pairs in
/// the same order, whatever keys they have, twice the same key included.
pub proof fn lemma_num_pairs_round_trip(pairs: Seq<(i32, i64)>)
    ensures
        num_pairs_of(num_pairs_datum(pairs)) == Ok::<Seq<(i32, i64)>, Fault>(pairs),
{
    let items = Seq::new(pairs.len(), |i: int| num_pair_datum(pairs[i]));
    assert forall|j: int| 0 <= j < items.len() implies num_pair_of(#[trigger] items[j]) == Ok::<
        (i32, i64),
        Fault,
    >(pairs[j]) by {
        lemma_num_pair_round_trip(pairs[j]);
    }
    lemma_each_succeeds(items, |x: Datum| num_pair_of(x), pairs);
}

/// Encoding a map of bounds and decoding the array gives the same pairs in
/// the same order, whatever keys they have, twice the same key included.
pub proof fn lemma_bytes_pairs_round_trip(pairs: Seq<(i32, Seq<u8>)>)
    ensures
        bytes_pairs_of(bytes_pairs_datum(pairs)) == Ok::<Seq<(i32, Seq<u8>)>, Fault>(pairs),
{
    let items = Seq::new(pairs.len(), |i: int| bytes_pair_datum(pairs[i]));
    assert forall|j: int| 0 <= j < items.len() implies bytes_pair_of(#[trigger] items[j]) == Ok::<
        (i32, Seq<u8>),
        Fault,
    >(pairs[j]) by {
        lemma_bytes_pair_round_trip(pairs[j]);
    }
    lemma_each_succeeds(items, |x: Datum| bytes_pair_of(x), pairs);
}

} // verus!
