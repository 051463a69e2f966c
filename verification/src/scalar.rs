//! Taking a value as the scalar or the list that a schema declares.

use crate::fault::{lifted, DecodeError, Fault, Step};
use crate::value::{items_view, kind_of, lemma_view_unfolds, Datum, Value};
use vstd::prelude::*;

verus! {

/// A value as a 64-bit integer: an `Int` or a `Long`.
pub open spec fn long_of(d: Datum) -> Result<i64, Fault> {
    match d {
        Datum::Int(v) => Ok(v as i64),
        Datum::Long(v) => Ok(v),
        _ => Err(Fault::wrong_shape(kind_of(d))),
    }
}

/// A value as a 32-bit integer: an `Int`, or a `Long` that fits.
pub open spec fn int_of(d: Datum) -> Result<i32, Fault> {
    match d {
        Datum::Int(v) => Ok(v),
        Datum::Long(v) if i32::MIN <= v <= i32::MAX => Ok(v as i32),
        _ => Err(Fault::wrong_shape(kind_of(d))),
    }
}

/// A value as a flag: a `Boolean`.
pub open spec fn flag_of(d: Datum) -> Result<bool, Fault> {
    match d {
        Datum::Boolean(b) => Ok(b),
        _ => Err(Fault::wrong_shape(kind_of(d))),
    }
}

/// A value as text: a `Text`.
pub open spec fn text_of(d: Datum) -> Result<Seq<char>, Fault> {
    match d {
        Datum::Text(s) => Ok(s),
        _ => Err(Fault::wrong_shape(kind_of(d))),
    }
}

/// A value as one byte: an integer from 0 to 255.
pub open spec fn byte_of(d: Datum) -> Result<u8, Fault> {
    match d {
        Datum::Int(v) if 0 <= v <= 255 => Ok(v as u8),
        Datum::Long(v) if 0 <= v <= 255 => Ok(v as u8),
        _ => Err(Fault::wrong_shape(kind_of(d))),
    }
}

/// Whether `i` is the first position whose outcome is a failure.
pub open spec fn is_first_failure<T>(outcomes: Seq<Result<T, Fault>>, i: int) -> bool {
    &&& 0 <= i < outcomes.len()
    &&& outcomes[i] is Err
    &&& forall|j: int| 0 <= j < i ==> (#[trigger] outcomes[j]) is Ok
}

/// The outcomes of the items of a list, taken together: all the values in
/// their order, or else the first failure, placed at its position.
pub open spec fn gathered<T>(outcomes: Seq<Result<T, Fault>>) -> Result<Seq<T>, Fault> {
    if exists|i: int| is_first_failure(outcomes, i) {
        let i = choose|i: int| is_first_failure(outcomes, i);
        Err(outcomes[i]->Err_0.within(Step::Item(i)))
    } else {
        Ok(Seq::new(outcomes.len(), |i: int| outcomes[i]->Ok_0))
    }
}

/// Each item of `items` read by `read`, and the outcomes taken together.
pub open spec fn each<T>(items: Seq<Datum>, read: spec_fn(Datum) -> Result<T, Fault>) -> Result<
    Seq<T>,
    Fault,
> {
    gathered(Seq::new(items.len(), |i: int| read(items[i])))
}

/// A value as a list whose items `read` reads: an `Array`.
pub open spec fn list_of<T>(d: Datum, read: spec_fn(Datum) -> Result<T, Fault>) -> Result<
    Seq<T>,
    Fault,
> {
    match d {
        Datum::Array(items) => each(items, read),
        _ => Err(Fault::wrong_shape(kind_of(d))),
    }
}

/// A list fails as its first failing item does.
pub proof fn lemma_each_fails<T>(
    items: Seq<Datum>,
    read: spec_fn(Datum) -> Result<T, Fault>,
    i: int,
)
    requires
        0 <= i < items.len(),
        read(items[i]) is Err,
        forall|j: int| 0 <= j < i ==> read(#[trigger] items[j]) is Ok,
    ensures
        each(items, read) == Err::<Seq<T>, Fault>(read(items[i])->Err_0.within(Step::Item(i))),
{
    let outcomes = Seq::new(items.len(), |i: int| read(items[i]));
    assert(is_first_failure(outcomes, i));
    let k = choose|k: int| is_first_failure(outcomes, k);
    if k < i {
        assert(outcomes[k] is Ok);
    } else if i < k {
        assert(outcomes[i] is Ok);
    }
}

/// A list whose items all succeed gives their values, in their order.
pub proof fn lemma_each_succeeds<T>(
    items: Seq<Datum>,
    read: spec_fn(Datum) -> Result<T, Fault>,
    values: Seq<T>,
)
    requires
        values.len() == items.len(),
        forall|j: int| 0 <= j < items.len() ==> read(#[trigger] items[j]) == Ok::<T, Fault>(values[j]),
    ensures
        each(items, read) == Ok::<Seq<T>, Fault>(values),
{
    let outcomes = Seq::new(items.len(), |i: int| read(items[i]));
    if exists|i: int| is_first_failure(outcomes, i) {
        let k = choose|k: int| is_first_failure(outcomes, k);
        assert(outcomes[k] is Ok);
    }
    assert(Seq::new(outcomes.len(), |i: int| outcomes[i]->Ok_0) =~= values);
}

/// Reads a value as a 64-bit integer.
pub fn read_long(v: &Value) -> (r: Result<i64, DecodeError>)
    ensures
        lifted(r) == long_of(v@),
{
    match v {
        Value::Int(x) => Ok(*x as i64),
        Value::Long(x) => Ok(*x),
        _ => Err(DecodeError::wrong_shape(v.kind())),
    }
}

/// Reads a value as a 32-bit integer.
pub fn read_int(v: &Value) -> (r: Result<i32, DecodeError>)
    ensures
        lifted(r) == int_of(v@),
{
    match v {
        Value::Int(x) => Ok(*x),
        Value::Long(x) => {
            if -0x8000_0000 <= *x && *x <= 0x7fff_ffff {
                Ok(*x as i32)
            } else {
                Err(DecodeError::wrong_shape(v.kind()))
            }
        },
        _ => Err(DecodeError::wrong_shape(v.kind())),
    }
}

/// Reads a value as a flag.
pub fn read_flag(v: &Value) -> (r: Result<bool, DecodeError>)
    ensures
        lifted(r) == flag_of(v@),
{
    match v {
        Value::Boolean(b) => Ok(*b),
        _ => Err(DecodeError::wrong_shape(v.kind())),
    }
}

/// Reads a value as text.
pub fn read_text(v: &Value) -> (r: Result<String, DecodeError>)
    ensures
        lifted(r) == text_of(v@),
{
    match v {
        Value::Text(s) => Ok(s.clone()),
        _ => Err(DecodeError::wrong_shape(v.kind())),
    }
}

/// Reads a value as one byte.
pub fn read_byte(v: &Value) -> (r: Result<u8, DecodeError>)
    ensures
        lifted(r) == byte_of(v@),
{
    match v {
        Value::Int(x) => {
            if 0 <= *x && *x <= 255 {
                Ok(*x as u8)
            } else {
                Err(DecodeError::wrong_shape(v.kind()))
            }
        },
        Value::Long(x) => {
            if 0 <= *x && *x <= 255 {
                Ok(*x as u8)
            } else {
                Err(DecodeError::wrong_shape(v.kind()))
            }
        },
        _ => Err(DecodeError::wrong_shape(v.kind())),
    }
}

/// A value as a list of 64-bit integers.
pub open spec fn longs_of(d: Datum) -> Result<Seq<i64>, Fault> {
    list_of(d, |x: Datum| long_of(x))
}

/// Reads a value as a list of 64-bit integers.
pub fn read_longs(v: &Value) -> (r: Result<Vec<i64>, DecodeError>)
    ensures
        lifted(r) == longs_of(v@),
{
    proof {
        lemma_view_unfolds(*v);
    }
    match v {
        Value::Array(items) => {
            let mut out: Vec<i64> = Vec::new();
            let mut i: usize = 0;
            while i < items.len()
                invariant
                    i <= items.len(),
                    out.len() == i,
                    v@ == Datum::Array(items_view(items@)),
                    forall|j: int|
                        0 <= j < i ==> long_of(#[trigger] items_view(items@)[j]) == Ok::<
                            i64,
                            Fault,
                        >(out[j]),
                decreases items.len() - i,
            {
                match read_long(&items[i]) {
                    Ok(x) => {
                        out.push(x);
                    },
                    Err(e) => {
                        proof {
                            lemma_each_fails(items_view(items@), |x: Datum| long_of(x), i as int);
                        }
                        return Err(e.within_item(i));
                    },
                }
                i += 1;
            }
            proof {
                lemma_each_succeeds(items_view(items@), |x: Datum| long_of(x), out@);
                assert(out.deep_view() =~= out@);
            }
            Ok(out)
        },
        _ => Err(DecodeError::wrong_shape(v.kind())),
    }
}

/// A value as a list of 32-bit integers.
pub open spec fn ints_of(d: Datum) -> Result<Seq<i32>, Fault> {
    list_of(d, |x: Datum| int_of(x))
}

/// Reads a value as a list of 32-bit integers.
pub fn read_ints(v: &Value) -> (r: Result<Vec<i32>, DecodeError>)
    ensures
        lifted(r) == ints_of(v@),
{
    proof {
        lemma_view_unfolds(*v);
    }
    match v {
        Value::Array(items) => {
            let mut out: Vec<i32> = Vec::new();
            let mut i: usize = 0;
            while i < items.len()
                invariant
                    i <= items.len(),
                    out.len() == i,
                    v@ == Datum::Array(items_view(items@)),
                    forall|j: int|
                        0 <= j < i ==> int_of(#[trigger] items_view(items@)[j]) == Ok::<
                            i32,
                            Fault,
                        >(out[j]),
                decreases items.len() - i,
            {
                match read_int(&items[i]) {
                    Ok(x) => {
                        out.push(x);
                    },
                    Err(e) => {
                        proof {
                            lemma_each_fails(items_view(items@), |x: Datum| int_of(x), i as int);
                        }
                        return Err(e.within_item(i));
                    },
                }
                i += 1;
            }
            proof {
                lemma_each_succeeds(items_view(items@), |x: Datum| int_of(x), out@);
                assert(out.deep_view() =~= out@);
            }
            Ok(out)
        },
        _ => Err(DecodeError::wrong_shape(v.kind())),
    }
}

/// A value as a byte sequence: a `Bytes`, or an `Array` of integers from 0
/// to 255, one for each byte.
pub open spec fn bytes_of(d: Datum) -> Result<Seq<u8>, Fault> {
    match d {
        Datum::Bytes(b) => Ok(b),
        Datum::Array(items) => each(items, |x: Datum| byte_of(x)),
        _ => Err(Fault::wrong_shape(kind_of(d))),
    }
}

/// Reads a value as a byte sequence.
pub fn read_bytes(v: &Value) -> (r: Result<Vec<u8>, DecodeError>)
    ensures
        lifted(r) == bytes_of(v@),
{
    proof {
        lemma_view_unfolds(*v);
    }
    match v {
        Value::Bytes(b) => {
            let out = b.clone();
            assert(out.deep_view() =~= b@);
            Ok(out)
        },
        Value::Array(items) => {
            let mut out: Vec<u8> = Vec::new();
            let mut i: usize = 0;
            while i < items.len()
                invariant
                    i <= items.len(),
                    out.len() == i,
                    v@ == Datum::Array(items_view(items@)),
                    forall|j: int|
                        0 <= j < i ==> byte_of(#[trigger] items_view(items@)[j]) == Ok::<
                            u8,
                            Fault,
                        >(out[j]),
                decreases items.len() - i,
            {
                match read_byte(&items[i]) {
                    Ok(x) => {
                        out.push(x);
                    },
                    Err(e) => {
                        proof {
                            lemma_each_fails(items_view(items@), |x: Datum| byte_of(x), i as int);
                        }
                        return Err(e.within_item(i));
                    },
                }
                i += 1;
            }
            proof {
                lemma_each_succeeds(items_view(items@), |x: Datum| byte_of(x), out@);
                assert(out.deep_view() =~= out@);
            }
            Ok(out)
        },
        _ => Err(DecodeError::wrong_shape(v.kind())),
    }
}

/// The value that carries a 32-bit integer which may be unknown: null for
/// `None`.
pub open spec fn optional_int_datum(value: Option<i32>) -> Datum {
    match value {
        Some(n) => Datum::Int(n),
        None => Datum::Null,
    }
}

/// The value that carries a 64-bit integer which may be unknown: null for
/// `None`.
pub open spec fn optional_long_datum(value: Option<i64>) -> Datum {
    match value {
        Some(n) => Datum::Long(n),
        None => Datum::Null,
    }
}

/// The value for a 32-bit integer which may be unknown.
pub fn encode_optional_int(value: Option<i32>) -> (v: Value)
    ensures
        v@ == optional_int_datum(value),
{
    match value {
        Some(n) => Value::Int(n),
        None => Value::Null,
    }
}

/// The value for a 64-bit integer which may be unknown.
pub fn encode_optional_long(value: Option<i64>) -> (v: Value)
    ensures
        v@ == optional_long_datum(value),
{
    match value {
        Some(n) => Value::Long(n),
        None => Value::Null,
    }
}

/// The array that carries a list of 64-bit integers.
pub open spec fn longs_datum(values: Seq<i64>) -> Datum {
    Datum::Array(Seq::new(values.len(), |i: int| Datum::Long(values[i])))
}

/// The array that carries a list of 32-bit integers.
pub open spec fn ints_datum(values: Seq<i32>) -> Datum {
    Datum::Array(Seq::new(values.len(), |i: int| Datum::Int(values[i])))
}

/// The array for a list of 64-bit integers, in their order.
pub fn encode_longs(values: &Vec<i64>) -> (v: Value)
    ensures
        v@ == longs_datum(values@),
{
    let mut out: Vec<Value> = Vec::new();
    let mut i: usize = 0;
    while i < values.len()
        invariant
            i <= values.len(),
            out.len() == i,
            forall|j: int| 0 <= j < i ==> (#[trigger] out[j])@ == Datum::Long(values[j]),
        decreases values.len() - i,
    {
        out.push(Value::Long(values[i]));
        i += 1;
    }
    let v = Value::Array(out);
    proof {
        lemma_view_unfolds(v);
        assert(items_view(out@) =~= Seq::new(values@.len(), |i: int| Datum::Long(values@[i])));
    }
    v
}

/// The array for a list of 32-bit integers, in their order.
pub fn encode_ints(values: &Vec<i32>) -> (v: Value)
    ensures
        v@ == ints_datum(values@),
{
    let mut out: Vec<Value> = Vec::new();
    let mut i: usize = 0;
    while i < values.len()
        invariant
            i <= values.len(),
            out.len() == i,
            forall|j: int| 0 <= j < i ==> (#[trigger] out[j])@ == Datum::Int(values[j]),
        decreases values.len() - i,
    {
        out.push(Value::Int(values[i]));
        i += 1;
    }
    let v = Value::Array(out);
    proof {
        lemma_view_unfolds(v);
        assert(items_view(out@) =~= Seq::new(values@.len(), |i: int| Datum::Int(values@[i])));
    }
    v
}

/// The array of a list of 64-bit integers carries that list, in its order.
pub proof fn lemma_longs_round_trip(values: Seq<i64>)
    ensures
        longs_of(longs_datum(values)) == Ok::<Seq<i64>, Fault>(values),
{
    let items = Seq::new(values.len(), |i: int| Datum::Long(values[i]));
    lemma_each_succeeds(items, |x: Datum| long_of(x), values);
}

/// The array of a list of 32-bit integers carries that list, in its order.
pub proof fn lemma_ints_round_trip(values: Seq<i32>)
    ensures
        ints_of(ints_datum(values)) == Ok::<Seq<i32>, Fault>(values),
{
    let items = Seq::new(values.len(), |i: int| Datum::Int(values[i]));
    lemma_each_succeeds(items, |x: Datum| int_of(x), values);
}

} // verus!
