//! The self-describing values that a container reader hands over, one per record.
//!
//! A [`Value`] is what runs; a [`Datum`] is what it means. Every contract in
//! this crate that speaks of a value speaks of its `Datum`.

use vstd::prelude::*;
use vstd::string::StringExecFns;

verus! {

/// A value as the container format types it.
#[derive(Debug, PartialEq, Eq)]
pub enum Value {
    Null,
    Boolean(bool),
    Int(i32),
    Long(i64),
    Bytes(Vec<u8>),
    Text(String),
    Array(Vec<Value>),
    Record(Vec<Field>),
}

/// One named member of a record.
#[derive(Debug, PartialEq, Eq)]
pub struct Field {
    pub name: String,
    pub value: Value,
}

/// The mathematical content of a [`Value`].
pub enum Datum {
    Null,
    Boolean(bool),
    Int(i32),
    Long(i64),
    Bytes(Seq<u8>),
    Text(Seq<char>),
    Array(Seq<Datum>),
    Record(Seq<(Seq<char>, Datum)>),
}

/// Which of its eight shapes a value has. An error reports the shape it met.
#[derive(Clone, Copy, Debug, PartialEq, Eq, Structural)]
pub enum ValueKind {
    Null,
    Boolean,
    Int,
    Long,
    Bytes,
    Text,
    Array,
    Record,
}

/// The shape of a datum.
pub open spec fn kind_of(d: Datum) -> ValueKind {
    match d {
        Datum::Null => ValueKind::Null,
        Datum::Boolean(_) => ValueKind::Boolean,
        Datum::Int(_) => ValueKind::Int,
        Datum::Long(_) => ValueKind::Long,
        Datum::Bytes(_) => ValueKind::Bytes,
        Datum::Text(_) => ValueKind::Text,
        Datum::Array(_) => ValueKind::Array,
        Datum::Record(_) => ValueKind::Record,
    }
}

impl View for Value {
    type V = Datum;

    open spec fn view(&self) -> Datum {
        self.content()
    }
}

impl DeepView for Value {
    type V = Datum;

    open spec fn deep_view(&self) -> Datum {
        self@
    }
}

impl Value {
    /// The content of a value, by recursion over its structure.
    pub open spec fn content(&self) -> Datum
        decreases self,
    {
        match self {
            Value::Null => Datum::Null,
            Value::Boolean(b) => Datum::Boolean(*b),
            Value::Int(v) => Datum::Int(*v),
            Value::Long(v) => Datum::Long(*v),
            Value::Bytes(b) => Datum::Bytes(b@),
            Value::Text(s) => Datum::Text(s@),
            Value::Array(items) => Datum::Array(
                Seq::new(
                    items@.len(),
                    |i: int|
                        if 0 <= i < items@.len() {
                            items@[i].content()
                        } else {
                            Datum::Null
                        },
                ),
            ),
            Value::Record(fields) => Datum::Record(
                Seq::new(
                    fields@.len(),
                    |i: int|
                        if 0 <= i < fields@.len() {
                            (fields@[i].name@, fields@[i].value.content())
                        } else {
                            (Seq::empty(), Datum::Null)
                        },
                ),
            ),
        }
    }

    /// The shape of this value.
    pub fn kind(&self) -> (k: ValueKind)
        ensures
            k == kind_of(self@),
    {
        match self {
            Value::Null => ValueKind::Null,
            Value::Boolean(_) => ValueKind::Boolean,
            Value::Int(_) => ValueKind::Int,
            Value::Long(_) => ValueKind::Long,
            Value::Bytes(_) => ValueKind::Bytes,
            Value::Text(_) => ValueKind::Text,
            Value::Array(_) => ValueKind::Array,
            Value::Record(_) => ValueKind::Record,
        }
    }
}

impl Field {
    /// The member of that name with that value.
    pub fn named(name: &str, value: Value) -> (f: Field)
        ensures
            f.name@ == name@,
            f.value == value,
    {
        Field { name: String::from_str(name), value }
    }
}

/// The content of a list of values, item by item.
pub open spec fn items_view(items: Seq<Value>) -> Seq<Datum> {
    Seq::new(items.len(), |i: int| items[i]@)
}

/// The content of a record's members, in their order.
pub open spec fn fields_view(fields: Seq<Field>) -> Seq<(Seq<char>, Datum)> {
    Seq::new(fields.len(), |i: int| (fields[i].name@, fields[i].value@))
}

/// An array's content is its items' contents; a record's, its members'.
pub proof fn lemma_view_unfolds(v: Value)
    ensures
        v matches Value::Array(items) ==> v@ == Datum::Array(items_view(items@)),
        v matches Value::Record(fields) ==> v@ == Datum::Record(fields_view(fields@)),
{
    match v {
        Value::Array(items) => {
            assert(v@->Array_0 =~= items_view(items@));
        },
        Value::Record(fields) => {
            assert(v@->Record_0 =~= fields_view(fields@));
        },
        _ => {},
    }
}

/// A deep copy of a list of values.
fn copy_items(items: &Vec<Value>) -> (r: Vec<Value>)
    ensures
        items_view(r@) == items_view(items@),
    decreases items,
{
    let mut out: Vec<Value> = Vec::new();
    let mut i: usize = 0;
    while i < items.len()
        invariant
            i <= items.len(),
            out.len() == i,
            forall|j: int| 0 <= j < i ==> out[j]@ == items[j]@,
        decreases items.len() - i,
    {
        out.push(items[i].clone());
        i += 1;
    }
    assert(items_view(out@) =~= items_view(items@));
    out
}

/// A deep copy of a record's members.
fn copy_fields(fields: &Vec<Field>) -> (r: Vec<Field>)
    ensures
        fields_view(r@) == fields_view(fields@),
    decreases fields,
{
    let mut out: Vec<Field> = Vec::new();
    let mut i: usize = 0;
    while i < fields.len()
        invariant
            i <= fields.len(),
            out.len() == i,
            forall|j: int|
                0 <= j < i ==> out[j].name@ == fields[j].name@ && out[j].value@
                    == fields[j].value@,
        decreases fields.len() - i,
    {
        let name = fields[i].name.clone();
        let value = fields[i].value.clone();
        out.push(Field { name, value });
        i += 1;
    }
    assert(fields_view(out@) =~= fields_view(fields@));
    out
}

impl Clone for Value {
    /// A deep copy: the result has the content of `self`.
    fn clone(&self) -> (r: Value)
        ensures
            r@ == self@,
        decreases self,
    {
        proof {
            lemma_view_unfolds(*self);
        }
        let r = match self {
            Value::Null => Value::Null,
            Value::Boolean(b) => Value::Boolean(*b),
            Value::Int(v) => Value::Int(*v),
            Value::Long(v) => Value::Long(*v),
            Value::Bytes(b) => Value::Bytes(b.clone()),
            Value::Text(s) => Value::Text(s.clone()),
            Value::Array(items) => Value::Array(copy_items(items)),
            Value::Record(fields) => Value::Record(copy_fields(fields)),
        };
        proof {
            lemma_view_unfolds(r);
        }
        r
    }
}

impl Clone for Field {
    /// A deep copy: the same name, a value of the same content.
    fn clone(&self) -> (r: Field)
        ensures
            r.name@ == self.name@,
            r.value@ == self.value@,
    {
        Field { name: self.name.clone(), value: self.value.clone() }
    }
}

} // verus!
