//! Reading a record: finding a member by its name, and taking a value as the
//! scalar or list that a schema declares.

use crate::fault::{lifted, placed, DecodeError, Fault, Step};
use crate::scalar::{
    bytes_of, flag_of, int_of, ints_of, long_of, longs_of, read_bytes, read_flag, read_int,
    read_ints, read_long, read_longs, read_text, text_of,
};
use crate::value::{fields_view, Datum, Field, Value};
use vstd::prelude::*;
use vstd::string::StringExecFns;

verus! {

/// Whether position `i` holds the first member of `fields` named `name`.
pub open spec fn is_first_named(fields: Seq<(Seq<char>, Datum)>, name: Seq<char>, i: int) -> bool {
    &&& 0 <= i < fields.len()
    &&& fields[i].0 == name
    &&& forall|j: int| 0 <= j < i ==> (#[trigger] fields[j]).0 != name
}

/// The value of the first member named `name`, if there is one. Members
/// under other names are passed over.
#[verifier::opaque]
pub open spec fn member(fields: Seq<(Seq<char>, Datum)>, name: Seq<char>) -> Option<Datum> {
    if exists|i: int| is_first_named(fields, name, i) {
        Some(fields[choose|i: int| is_first_named(fields, name, i)].1)
    } else {
        None
    }
}

/// The first member of a name is the one that `member` gives.
pub proof fn lemma_member_at(fields: Seq<(Seq<char>, Datum)>, name: Seq<char>, i: int)
    requires
        is_first_named(fields, name, i),
    ensures
        member(fields, name) == Some(fields[i].1),
{
    reveal(member);
    let k = choose|k: int| is_first_named(fields, name, k);
    assert(is_first_named(fields, name, k));
    if k < i {
        assert(fields[k].0 != name);
    } else if i < k {
        assert(fields[i].0 != name);
    }
}

/// Where no member has the name, `member` gives none.
pub proof fn lemma_member_absent(fields: Seq<(Seq<char>, Datum)>, name: Seq<char>)
    requires
        forall|j: int| 0 <= j < fields.len() ==> (#[trigger] fields[j]).0 != name,
    ensures
        member(fields, name) is None,
{
    reveal(member);
    if exists|i: int| is_first_named(fields, name, i) {
        let k = choose|k: int| is_first_named(fields, name, k);
        assert(fields[k].0 != name);
    }
}

/// What `member` gives is the value at the first position of the name, and
/// it gives none only where no member has the name.
pub proof fn lemma_member_is_first(fields: Seq<(Seq<char>, Datum)>, name: Seq<char>)
    ensures
        match member(fields, name) {
            Some(d) => exists|i: int| is_first_named(fields, name, i) && fields[i].1 == d,
            None => forall|j: int| 0 <= j < fields.len() ==> (#[trigger] fields[j]).0 != name,
        },
{
    reveal(member);
    if !(exists|i: int| is_first_named(fields, name, i)) {
        assert forall|j: int| 0 <= j < fields.len() implies (#[trigger] fields[j]).0 != name by {
            if fields[j].0 == name {
                lemma_has_first(fields, name, j);
            }
        }
    }
}

/// Where some member has the name, one is the first.
proof fn lemma_has_first(fields: Seq<(Seq<char>, Datum)>, name: Seq<char>, j: int)
    requires
        0 <= j < fields.len(),
        fields[j].0 == name,
    ensures
        exists|i: int| is_first_named(fields, name, i),
    decreases j,
{
    if exists|k: int| 0 <= k < j && (#[trigger] fields[k]).0 == name {
        let k = choose|k: int| 0 <= k < j && (#[trigger] fields[k]).0 == name;
        lemma_has_first(fields, name, k);
    } else {
        assert(is_first_named(fields, name, j));
    }
}

/// Whether a record says nothing under `name`: it has no member of that
/// name, or a null one.
pub open spec fn unset(fields: Seq<(Seq<char>, Datum)>, name: Seq<char>) -> bool {
    member(fields, name) is None || member(fields, name) == Some(Datum::Null)
}

/// The first member of `fields` named `name`.
pub fn find<'a>(fields: &'a Vec<Field>, name: &str) -> (r: Option<&'a Value>)
    ensures
        match r {
            Some(v) => member(fields_view(fields@), name@) == Some(v@),
            None => member(fields_view(fields@), name@) is None,
        },
{
    let key = String::from_str(name);
    let mut i: usize = 0;
    while i < fields.len()
        invariant
            i <= fields.len(),
            key@ == name@,
            forall|j: int| 0 <= j < i ==> (#[trigger] fields_view(fields@)[j]).0 != name@,
        decreases fields.len() - i,
    {
        if fields[i].name == key {
            proof {
                lemma_member_at(fields_view(fields@), name@, i as int);
            }
            return Some(&fields[i].value);
        }
        i += 1;
    }
    proof {
        lemma_member_absent(fields_view(fields@), name@);
    }
    None
}

/// A member that must be there: absent, it is a schema mismatch; present,
/// it is read by `read`, and a failure is placed under the member's name.
pub open spec fn required<T>(
    fields: Seq<(Seq<char>, Datum)>,
    name: Seq<char>,
    read: spec_fn(Datum) -> Result<T, Fault>,
) -> Result<T, Fault> {
    match member(fields, name) {
        None => Err(Fault::missing(name)),
        Some(d) => placed(read(d), Step::Member(name)),
    }
}

/// A member that may be unknown: absent or null, it is `None`; otherwise it
/// is read by `read`.
pub open spec fn optional<T>(
    fields: Seq<(Seq<char>, Datum)>,
    name: Seq<char>,
    read: spec_fn(Datum) -> Result<T, Fault>,
) -> Result<Option<T>, Fault> {
    match member(fields, name) {
        None => Ok(None),
        Some(Datum::Null) => Ok(None),
        Some(d) => match read(d) {
            Ok(t) => Ok(Some(t)),
            Err(e) => Err(e.within(Step::Member(name))),
        },
    }
}

/// A member that may be left out: absent, it is `default`; present, it is
/// read by `read`, a null like any other value.
pub open spec fn defaulted<T>(
    fields: Seq<(Seq<char>, Datum)>,
    name: Seq<char>,
    read: spec_fn(Datum) -> Result<T, Fault>,
    default: T,
) -> Result<T, Fault> {
    match member(fields, name) {
        None => Ok(default),
        Some(d) => placed(read(d), Step::Member(name)),
    }
}

/// A collection that null stands for when it is empty: absent or null, it
/// is `empty`; otherwise it is read by `read`.
pub open spec fn nullable<T>(
    fields: Seq<(Seq<char>, Datum)>,
    name: Seq<char>,
    read: spec_fn(Datum) -> Result<T, Fault>,
    empty: T,
) -> Result<T, Fault> {
    match member(fields, name) {
        None => Ok(empty),
        Some(Datum::Null) => Ok(empty),
        Some(d) => placed(read(d), Step::Member(name)),
    }
}

/// The outcome `r` of reading the member `name`, with a failure placed
/// under that name.
pub fn at_member<T>(r: Result<T, DecodeError>, name: &str) -> (out: Result<T, DecodeError>)
    ensures
        match r {
            Ok(t) => out == Ok::<T, DecodeError>(t),
            Err(e) => out is Err && out->Err_0@ == e@.within(Step::Member(name@)),
        },
{
    match r {
        Ok(t) => Ok(t),
        Err(e) => Err(e.within_member(name)),
    }
}

/// The member `name`, which must be there.
pub fn required_value<'a>(fields: &'a Vec<Field>, name: &str) -> (r: Result<
    &'a Value,
    DecodeError,
>)
    ensures
        lifted(r) == required(fields_view(fields@), name@, |d: Datum| Ok::<Datum, Fault>(d)),
{
    match find(fields, name) {
        None => Err(DecodeError::missing(name)),
        Some(v) => Ok(v),
    }
}

/// The member `name`, unless it is absent or null.
pub fn present<'a>(fields: &'a Vec<Field>, name: &str) -> (r: Option<&'a Value>)
    ensures
        match member(fields_view(fields@), name@) {
            None => r is None,
            Some(Datum::Null) => r is None,
            Some(d) => r is Some && r->Some_0@ == d,
        },
{
    match find(fields, name) {
        None => None,
        Some(v) => match v {
            Value::Null => None,
            _ => Some(v),
        },
    }
}

/// The 64-bit integer under the member `name`, which must be there.
pub fn required_long(fields: &Vec<Field>, name: &str) -> (r: Result<i64, DecodeError>)
    ensures
        lifted(r) == required(fields_view(fields@), name@, |d: Datum| long_of(d)),
{
    match find(fields, name) {
        None => Err(DecodeError::missing(name)),
        Some(v) => at_member(read_long(v), name),
    }
}

/// The 32-bit integer under the member `name`, which must be there.
pub fn required_int(fields: &Vec<Field>, name: &str) -> (r: Result<i32, DecodeError>)
    ensures
        lifted(r) == required(fields_view(fields@), name@, |d: Datum| int_of(d)),
{
    match find(fields, name) {
        None => Err(DecodeError::missing(name)),
        Some(v) => at_member(read_int(v), name),
    }
}

/// The flag under the member `name`, which must be there.
pub fn required_flag(fields: &Vec<Field>, name: &str) -> (r: Result<bool, DecodeError>)
    ensures
        lifted(r) == required(fields_view(fields@), name@, |d: Datum| flag_of(d)),
{
    match find(fields, name) {
        None => Err(DecodeError::missing(name)),
        Some(v) => at_member(read_flag(v), name),
    }
}

/// The text under the member `name`, which must be there.
pub fn required_text(fields: &Vec<Field>, name: &str) -> (r: Result<String, DecodeError>)
    ensures
        lifted(r) == required(fields_view(fields@), name@, |d: Datum| text_of(d)),
{
    match find(fields, name) {
        None => Err(DecodeError::missing(name)),
        Some(v) => at_member(read_text(v), name),
    }
}

/// The 64-bit integer under the member `name`; `None` where the member is
/// absent or null.
pub fn optional_long(fields: &Vec<Field>, name: &str) -> (r: Result<Option<i64>, DecodeError>)
    ensures
        lifted(r) == optional(fields_view(fields@), name@, |d: Datum| long_of(d)),
{
    match present(fields, name) {
        None => Ok(None),
        Some(v) => match read_long(v) {
            Ok(x) => Ok(Some(x)),
            Err(e) => Err(e.within_member(name)),
        },
    }
}

/// The 32-bit integer under the member `name`; `None` where the member is
/// absent or null.
pub fn optional_int(fields: &Vec<Field>, name: &str) -> (r: Result<Option<i32>, DecodeError>)
    ensures
        lifted(r) == optional(fields_view(fields@), name@, |d: Datum| int_of(d)),
{
    match present(fields, name) {
        None => Ok(None),
        Some(v) => match read_int(v) {
            Ok(x) => Ok(Some(x)),
            Err(e) => Err(e.within_member(name)),
        },
    }
}

/// The bytes under the member `name`; empty where the member is absent or
/// null.
pub fn nullable_bytes(fields: &Vec<Field>, name: &str) -> (r: Result<Vec<u8>, DecodeError>)
    ensures
        lifted(r) == nullable(
            fields_view(fields@),
            name@,
            |d: Datum| bytes_of(d),
            Seq::<u8>::empty(),
        ),
{
    match present(fields, name) {
        None => {
            let out: Vec<u8> = Vec::new();
            assert(out.deep_view() =~= Seq::<u8>::empty());
            Ok(out)
        },
        Some(v) => at_member(read_bytes(v), name),
    }
}

/// The list of 64-bit integers under the member `name`; empty where the
/// member is absent.
pub fn defaulted_longs(fields: &Vec<Field>, name: &str) -> (r: Result<Vec<i64>, DecodeError>)
    ensures
        lifted(r) == defaulted(
            fields_view(fields@),
            name@,
            |d: Datum| longs_of(d),
            Seq::<i64>::empty(),
        ),
{
    match find(fields, name) {
        None => {
            let out: Vec<i64> = Vec::new();
            assert(out.deep_view() =~= Seq::<i64>::empty());
            Ok(out)
        },
        Some(v) => at_member(read_longs(v), name),
    }
}

/// The list of 32-bit integers under the member `name`; empty where the
/// member is absent.
pub fn defaulted_ints(fields: &Vec<Field>, name: &str) -> (r: Result<Vec<i32>, DecodeError>)
    ensures
        lifted(r) == defaulted(
            fields_view(fields@),
            name@,
            |d: Datum| ints_of(d),
            Seq::<i32>::empty(),
        ),
{
    match find(fields, name) {
        None => {
            let out: Vec<i32> = Vec::new();
            assert(out.deep_view() =~= Seq::<i32>::empty());
            Ok(out)
        },
        Some(v) => at_member(read_ints(v), name),
    }
}

/// The text under the member `name`; empty where the member is absent.
pub fn defaulted_text(fields: &Vec<Field>, name: &str) -> (r: Result<String, DecodeError>)
    ensures
        lifted(r) == defaulted(
            fields_view(fields@),
            name@,
            |d: Datum| text_of(d),
            Seq::<char>::empty(),
        ),
{
    match find(fields, name) {
        None => Ok(String::new()),
        Some(v) => at_member(read_text(v), name),
    }
}

} // verus!
