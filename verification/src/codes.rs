//! The enumerations that manifest records carry as integers or names, each
//! with its domain.

use crate::fault::{lifted, DecodeError, Fault};
use crate::scalar::{int_of, read_int, read_text, text_of};
use crate::value::{Datum, Value};
use vstd::prelude::*;
use vstd::string::StrSliceExecFns;

verus! {

/// Whether a manifest entry's file was already there, was added, or was deleted.
#[derive(Clone, Copy, Debug, PartialEq, Eq, Structural)]
pub enum EntryStatus {
    Existing,
    Added,
    Deleted,
}

impl EntryStatus {
    /// The integer that stands for a status: 0, 1 or 2.
    pub open spec fn spec_code(self) -> i32 {
        match self {
            EntryStatus::Existing => 0i32,
            EntryStatus::Added => 1i32,
            EntryStatus::Deleted => 2i32,
        }
    }

    /// The status that an integer stands for, if it stands for one.
    pub open spec fn spec_from_code(code: i32) -> Option<EntryStatus> {
        if code == 0 {
            Some(EntryStatus::Existing)
        } else if code == 1 {
            Some(EntryStatus::Added)
        } else if code == 2 {
            Some(EntryStatus::Deleted)
        } else {
            None
        }
    }

    /// The integer that stands for this value in a record.
    #[verifier::when_used_as_spec(spec_code)]
    pub fn code(self) -> (c: i32)
        ensures
            c == self.spec_code(),
    {
        match self {
            EntryStatus::Existing => 0,
            EntryStatus::Added => 1,
            EntryStatus::Deleted => 2,
        }
    }

    /// The value that the integer `code` stands for; `None` for an integer
    /// outside the domain.
    #[verifier::when_used_as_spec(spec_from_code)]
    pub fn from_code(code: i32) -> (r: Option<EntryStatus>)
        ensures
            r == Self::spec_from_code(code),
    {
        if code == 0 {
            Some(EntryStatus::Existing)
        } else if code == 1 {
            Some(EntryStatus::Added)
        } else if code == 2 {
            Some(EntryStatus::Deleted)
        } else {
            None
        }
    }

    /// A code stands for a status exactly when it is 0, 1 or 2, and then for
    /// the one status that has this code.
    pub proof fn lemma_domain(code: i32)
        ensures
            Self::spec_from_code(code) is Some <==> 0 <= code <= 2,
            forall|s: EntryStatus|
                Self::spec_from_code(code) == Some(s) <==> #[trigger] s.spec_code() == code,
    {
    }
}

/// What the files of a manifest hold.
#[derive(Clone, Copy, Debug, PartialEq, Eq, Structural)]
pub enum ManifestContent {
    Data,
    Deletes,
}

impl ManifestContent {
    /// The integer that stands for a manifest's content: 0 or 1.
    pub open spec fn spec_code(self) -> i32 {
        match self {
            ManifestContent::Data => 0i32,
            ManifestContent::Deletes => 1i32,
        }
    }

    /// The content that an integer stands for, if it stands for one.
    pub open spec fn spec_from_code(code: i32) -> Option<ManifestContent> {
        if code == 0 {
            Some(ManifestContent::Data)
        } else if code == 1 {
            Some(ManifestContent::Deletes)
        } else {
            None
        }
    }

    /// The integer that stands for this value in a record.
    #[verifier::when_used_as_spec(spec_code)]
    pub fn code(self) -> (c: i32)
        ensures
            c == self.spec_code(),
    {
        match self {
            ManifestContent::Data => 0,
            ManifestContent::Deletes => 1,
        }
    }

    /// The value that the integer `code` stands for; `None` for an integer
    /// outside the domain.
    #[verifier::when_used_as_spec(spec_from_code)]
    pub fn from_code(code: i32) -> (r: Option<ManifestContent>)
        ensures
            r == Self::spec_from_code(code),
    {
        if code == 0 {
            Some(ManifestContent::Data)
        } else if code == 1 {
            Some(ManifestContent::Deletes)
        } else {
            None
        }
    }

    /// A code stands for a content exactly when it is 0 or 1, and then for
    /// the one content that has this code.
    pub proof fn lemma_domain(code: i32)
        ensures
            Self::spec_from_code(code) is Some <==> 0 <= code <= 1,
            forall|c: ManifestContent|
                Self::spec_from_code(code) == Some(c) <==> #[trigger] c.spec_code() == code,
    {
    }
}

/// What a file listed in a manifest holds.
#[derive(Clone, Copy, Debug, PartialEq, Eq, Structural)]
pub enum FileContent {
    Data,
    PositionDeletes,
    EqualityDeletes,
}

impl FileContent {
    /// The integer that stands for a file's content: 0, 1 or 2.
    pub open spec fn spec_code(self) -> i32 {
        match self {
            FileContent::Data => 0i32,
            FileContent::PositionDeletes => 1i32,
            FileContent::EqualityDeletes => 2i32,
        }
    }

    /// The content that an integer stands for, if it stands for one.
    pub open spec fn spec_from_code(code: i32) -> Option<FileContent> {
        if code == 0 {
            Some(FileContent::Data)
        } else if code == 1 {
            Some(FileContent::PositionDeletes)
        } else if code == 2 {
            Some(FileContent::EqualityDeletes)
        } else {
            None
        }
    }

    /// The integer that stands for this value in a record.
    #[verifier::when_used_as_spec(spec_code)]
    pub fn code(self) -> (c: i32)
        ensures
            c == self.spec_code(),
    {
        match self {
            FileContent::Data => 0,
            FileContent::PositionDeletes => 1,
            FileContent::EqualityDeletes => 2,
        }
    }

    /// The value that the integer `code` stands for; `None` for an integer
    /// outside the domain.
    #[verifier::when_used_as_spec(spec_from_code)]
    pub fn from_code(code: i32) -> (r: Option<FileContent>)
        ensures
            r == Self::spec_from_code(code),
    {
        if code == 0 {
            Some(FileContent::Data)
        } else if code == 1 {
            Some(FileContent::PositionDeletes)
        } else if code == 2 {
            Some(FileContent::EqualityDeletes)
        } else {
            None
        }
    }

    /// A code stands for a content exactly when it is 0, 1 or 2, and then for
    /// the one content that has this code.
    pub proof fn lemma_domain(code: i32)
        ensures
            Self::spec_from_code(code) is Some <==> 0 <= code <= 2,
            forall|c: FileContent|
                Self::spec_from_code(code) == Some(c) <==> #[trigger] c.spec_code() == code,
    {
    }
}

/// The format of a data file.
#[derive(Clone, Copy, Debug, PartialEq, Eq, Structural)]
pub enum FileFormat {
    Avro,
    Orc,
    Parquet,
}

/// Whether `c` is the lower-case letter `letter` or its upper-case form.
pub open spec fn same_letter(c: char, letter: char) -> bool {
    c == letter || c as u32 + 32 == letter as u32
}

/// Whether `text` is `name`, a word of lower-case letters, in any mix of
/// upper and lower case.
pub open spec fn spells(text: Seq<char>, name: Seq<char>) -> bool {
    &&& text.len() == name.len()
    &&& forall|i: int| 0 <= i < name.len() ==> same_letter(#[trigger] text[i], name[i])
}

/// Whether `text` is the lower-case word `name` in some mix of cases.
fn is_spelling(text: &str, name: &str) -> (b: bool)
    ensures
        b == spells(text@, name@),
{
    let n = name.unicode_len();
    if text.unicode_len() != n {
        return false;
    }
    let mut i: usize = 0;
    while i < n
        invariant
            i <= n,
            n == name@.len(),
            n == text@.len(),
            forall|j: int| 0 <= j < i ==> same_letter(#[trigger] text@[j], name@[j]),
        decreases n - i,
    {
        let c = text.get_char(i);
        let letter = name.get_char(i);
        let is_upper_form = letter as u32 >= 32 && c as u32 == letter as u32 - 32;
        if !(c == letter || is_upper_form) {
            assert(!same_letter(text@[i as int], name@[i as int]));
            return false;
        }
        i += 1;
    }
    true
}

impl FileFormat {
    /// The name of a format, in lower case.
    pub open spec fn spec_name(self) -> Seq<char> {
        match self {
            FileFormat::Avro => "avro"@,
            FileFormat::Orc => "orc"@,
            FileFormat::Parquet => "parquet"@,
        }
    }

    /// The format that a name stands for, in whatever case it is written, if
    /// it stands for one.
    pub open spec fn spec_from_name(text: Seq<char>) -> Option<FileFormat> {
        if spells(text, "avro"@) {
            Some(FileFormat::Avro)
        } else if spells(text, "orc"@) {
            Some(FileFormat::Orc)
        } else if spells(text, "parquet"@) {
            Some(FileFormat::Parquet)
        } else {
            None
        }
    }

    /// The name of this format, in lower case.
    pub fn name(self) -> (s: &'static str)
        ensures
            s@ == self.spec_name(),
    {
        match self {
            FileFormat::Avro => "avro",
            FileFormat::Orc => "orc",
            FileFormat::Parquet => "parquet",
        }
    }

    /// The format that `text` names, in whatever case it is written; `None`
    /// for a text that names no format.
    pub fn from_name(text: &str) -> (r: Option<FileFormat>)
        ensures
            r == Self::spec_from_name(text@),
    {
        if is_spelling(text, "avro") {
            Some(FileFormat::Avro)
        } else if is_spelling(text, "orc") {
            Some(FileFormat::Orc)
        } else if is_spelling(text, "parquet") {
            Some(FileFormat::Parquet)
        } else {
            None
        }
    }

    /// A format's own name stands for that format.
    pub proof fn lemma_name_round_trip(format: FileFormat)
        ensures
            Self::spec_from_name(format.spec_name()) == Some(format),
    {
        reveal_strlit("avro");
        reveal_strlit("orc");
        reveal_strlit("parquet");
    }
}

impl DeepView for EntryStatus {
    type V = EntryStatus;

    open spec fn deep_view(&self) -> EntryStatus {
        *self
    }
}

impl DeepView for ManifestContent {
    type V = ManifestContent;

    open spec fn deep_view(&self) -> ManifestContent {
        *self
    }
}

impl DeepView for FileContent {
    type V = FileContent;

    open spec fn deep_view(&self) -> FileContent {
        *self
    }
}

impl DeepView for FileFormat {
    type V = FileFormat;

    open spec fn deep_view(&self) -> FileFormat {
        *self
    }
}

/// A value as an entry's status: an integer, which must be 0, 1 or 2. An
/// integer outside this domain is a schema mismatch.
pub open spec fn status_of(d: Datum) -> Result<EntryStatus, Fault> {
    match int_of(d) {
        Err(e) => Err(e),
        Ok(code) => match EntryStatus::spec_from_code(code) {
            Some(status) => Ok(status),
            None => Err(Fault::out_of_domain()),
        },
    }
}

/// A value as a manifest's content: an integer, which must be 0 or 1. An
/// integer outside this domain is a schema mismatch.
pub open spec fn manifest_content_of(d: Datum) -> Result<ManifestContent, Fault> {
    match int_of(d) {
        Err(e) => Err(e),
        Ok(code) => match ManifestContent::spec_from_code(code) {
            Some(content) => Ok(content),
            None => Err(Fault::out_of_domain()),
        },
    }
}

/// A value as a file's content: an integer, which must be 0, 1 or 2. An
/// integer outside this domain is a schema mismatch.
pub open spec fn file_content_of(d: Datum) -> Result<FileContent, Fault> {
    match int_of(d) {
        Err(e) => Err(e),
        Ok(code) => match FileContent::spec_from_code(code) {
            Some(content) => Ok(content),
            None => Err(Fault::out_of_domain()),
        },
    }
}

/// A value as a file format: a text, which must name a format. Another text
/// is a schema mismatch.
pub open spec fn file_format_of(d: Datum) -> Result<FileFormat, Fault> {
    match text_of(d) {
        Err(e) => Err(e),
        Ok(name) => match FileFormat::spec_from_name(name) {
            Some(format) => Ok(format),
            None => Err(Fault::out_of_domain()),
        },
    }
}

/// Reads a value as an entry's status.
pub fn read_status(v: &Value) -> (r: Result<EntryStatus, DecodeError>)
    ensures
        lifted(r) == status_of(v@),
{
    let code = read_int(v)?;
    match EntryStatus::from_code(code) {
        Some(status) => Ok(status),
        None => Err(DecodeError::out_of_domain()),
    }
}

/// Reads a value as a manifest's content.
pub fn read_manifest_content(v: &Value) -> (r: Result<ManifestContent, DecodeError>)
    ensures
        lifted(r) == manifest_content_of(v@),
{
    let code = read_int(v)?;
    match ManifestContent::from_code(code) {
        Some(content) => Ok(content),
        None => Err(DecodeError::out_of_domain()),
    }
}

/// Reads a value as a file's content.
pub fn read_file_content(v: &Value) -> (r: Result<FileContent, DecodeError>)
    ensures
        lifted(r) == file_content_of(v@),
{
    let code = read_int(v)?;
    match FileContent::from_code(code) {
        Some(content) => Ok(content),
        None => Err(DecodeError::out_of_domain()),
    }
}

/// Reads a value as a file format.
pub fn read_file_format(v: &Value) -> (r: Result<FileFormat, DecodeError>)
    ensures
        lifted(r) == file_format_of(v@),
{
    let name = read_text(v)?;
    match FileFormat::from_name(name.as_str()) {
        Some(format) => Ok(format),
        None => Err(DecodeError::out_of_domain()),
    }
}

} // verus!
