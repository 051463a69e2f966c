//! What a failed decode reports: the kind of failure and the place in the
//! record where it was met.

use crate::value::ValueKind;
use vstd::prelude::*;
use vstd::string::StringExecFns;

verus! {

/// One step on the way from a record down to the place of a failure.
#[derive(Clone, Debug, PartialEq, Eq)]
pub enum PathStep {
    /// Into the member of that name.
    Member(String),
    /// Into the item at that position of an array.
    Item(usize),
}

/// The content of a [`PathStep`].
pub enum Step {
    Member(Seq<char>),
    Item(int),
}

impl View for PathStep {
    type V = Step;

    open spec fn view(&self) -> Step {
        match self {
            PathStep::Member(name) => Step::Member(name@),
            PathStep::Item(index) => Step::Item(*index as int),
        }
    }
}

impl DeepView for PathStep {
    type V = Step;

    open spec fn deep_view(&self) -> Step {
        self@
    }
}

/// Why a record does not fit the schema.
#[derive(Clone, Copy, Debug, PartialEq, Eq, Structural)]
pub enum Mismatch {
    /// A required member is absent.
    Missing,
    /// An enumerated member holds a value outside its domain.
    OutOfDomain,
}

/// A failed decode. None is retried, and none but the documented defaults
/// is turned into a value.
#[derive(Clone, Debug, PartialEq, Eq)]
pub enum DecodeError {
    /// The reader could not deliver the record; the message is the reader's.
    ContainerRead { message: String },
    /// A member is present but has the wrong shape.
    FieldDecode { path: Vec<PathStep>, found: ValueKind },
    /// A required member is absent, or an enumerated member is outside its
    /// domain.
    SchemaMismatch { path: Vec<PathStep>, cause: Mismatch },
}

/// The content of a [`DecodeError`].
pub enum Fault {
    ContainerRead { message: Seq<char> },
    FieldDecode { path: Seq<Step>, found: ValueKind },
    SchemaMismatch { path: Seq<Step>, cause: Mismatch },
}

impl Fault {
    /// A value of shape `found` where another shape was called for.
    pub open spec fn wrong_shape(found: ValueKind) -> Fault {
        Fault::FieldDecode { path: Seq::empty(), found }
    }

    /// The required member `name` is absent.
    pub open spec fn missing(name: Seq<char>) -> Fault {
        Fault::SchemaMismatch { path: seq![Step::Member(name)], cause: Mismatch::Missing }
    }

    /// An enumerated value is outside its domain.
    pub open spec fn out_of_domain() -> Fault {
        Fault::SchemaMismatch { path: Seq::empty(), cause: Mismatch::OutOfDomain }
    }

    /// The same failure, seen from one step further out.
    pub open spec fn within(self, step: Step) -> Fault {
        match self {
            Fault::ContainerRead { message } => Fault::ContainerRead { message },
            Fault::FieldDecode { path, found } => Fault::FieldDecode {
                path: seq![step] + path,
                found,
            },
            Fault::SchemaMismatch { path, cause } => Fault::SchemaMismatch {
                path: seq![step] + path,
                cause,
            },
        }
    }
}

impl View for DecodeError {
    type V = Fault;

    open spec fn view(&self) -> Fault {
        match self {
            DecodeError::ContainerRead { message } => Fault::ContainerRead { message: message@ },
            DecodeError::FieldDecode { path, found } => Fault::FieldDecode {
                path: path.deep_view(),
                found: *found,
            },
            DecodeError::SchemaMismatch { path, cause } => Fault::SchemaMismatch {
                path: path.deep_view(),
                cause: *cause,
            },
        }
    }
}

impl DeepView for DecodeError {
    type V = Fault;

    open spec fn deep_view(&self) -> Fault {
        self@
    }
}

/// The content of a decode's outcome: of the value, or of the error.
pub open spec fn lifted<T: DeepView>(r: Result<T, DecodeError>) -> Result<T::V, Fault> {
    match r {
        Ok(t) => Ok(t.deep_view()),
        Err(e) => Err(e@),
    }
}

/// The outcome `r` as seen one step further out: a value stays, a failure
/// gets the step in front of its path.
pub open spec fn placed<T>(r: Result<T, Fault>, step: Step) -> Result<T, Fault> {
    match r {
        Ok(t) => Ok(t),
        Err(e) => Err(e.within(step)),
    }
}

impl DecodeError {
    /// The failure of a reader, with its message.
    pub fn container_read(message: String) -> (e: DecodeError)
        ensures
            e@ == (Fault::ContainerRead { message: message@ }),
    {
        DecodeError::ContainerRead { message }
    }

    /// A value of shape `found` where another shape was called for.
    pub fn wrong_shape(found: ValueKind) -> (e: DecodeError)
        ensures
            e@ == Fault::wrong_shape(found),
    {
        let path: Vec<PathStep> = Vec::new();
        let e = DecodeError::FieldDecode { path, found };
        assert(e@->FieldDecode_path =~= Seq::empty());
        e
    }

    /// The required member `name` is absent.
    pub fn missing(name: &str) -> (e: DecodeError)
        ensures
            e@ == Fault::missing(name@),
    {
        let mut path: Vec<PathStep> = Vec::new();
        path.push(PathStep::Member(String::from_str(name)));
        let e = DecodeError::SchemaMismatch { path, cause: Mismatch::Missing };
        assert(e@->SchemaMismatch_path =~= seq![Step::Member(name@)]);
        e
    }

    /// An enumerated value is outside its domain.
    pub fn out_of_domain() -> (e: DecodeError)
        ensures
            e@ == Fault::out_of_domain(),
    {
        let path: Vec<PathStep> = Vec::new();
        let e = DecodeError::SchemaMismatch { path, cause: Mismatch::OutOfDomain };
        assert(e@->SchemaMismatch_path =~= Seq::empty());
        e
    }

    /// The same failure, seen from one step further out.
    pub fn within(self, step: PathStep) -> (e: DecodeError)
        ensures
            e@ == self@.within(step@),
    {
        match self {
            DecodeError::ContainerRead { message } => DecodeError::ContainerRead { message },
            DecodeError::FieldDecode { path, found } => {
                let mut longer = path;
                longer.insert(0, step);
                assert(longer.deep_view() =~= seq![step@] + path.deep_view());
                DecodeError::FieldDecode { path: longer, found }
            },
            DecodeError::SchemaMismatch { path, cause } => {
                let mut longer = path;
                longer.insert(0, step);
                assert(longer.deep_view() =~= seq![step@] + path.deep_view());
                DecodeError::SchemaMismatch { path: longer, cause }
            },
        }
    }

    /// The same failure, seen from outside the member `name`.
    pub fn within_member(self, name: &str) -> (e: DecodeError)
        ensures
            e@ == self@.within(Step::Member(name@)),
    {
        self.within(PathStep::Member(String::from_str(name)))
    }

    /// The same failure, seen from outside the item at `index`.
    pub fn within_item(self, index: usize) -> (e: DecodeError)
        ensures
            e@ == self@.within(Step::Item(index as int)),
    {
        self.within(PathStep::Item(index))
    }
}

} // verus!
