//! Failure records: the immutable evidence that one expectation check
//! evaluated false, and the ordered collection of them produced by one run.

use vstd::prelude::*;

verus! {

/// The mathematical value of a [`Disappoint`]: its message and source
/// location, with the texts as character sequences.
pub struct DisappointData {
    pub message: Seq<char>,
    pub file: Seq<char>,
    pub line: u32,
    pub column: u32,
}

/// The ordered collection of [`Disappoint`]s produced by one run, in the
/// order the disappointed checks were observed. A snapshot: once handed to
/// the caller it only offers read access.
pub struct Disappoints {
    records: Vec<Disappoint>,
}

impl View for Disappoints {
    type V = Seq<DisappointData>;

    closed spec fn view(&self) -> Seq<DisappointData> {
        self.records@.map_values(|d: Disappoint| d@)
    }
}

impl Disappoints {
    /// Wrap the records accumulated by one run, keeping their order.
    pub fn from_records(records: Vec<Disappoint>) -> (r: Self)
        ensures
            r@ == records@.map_values(|d: Disappoint| d@),
    {
        Disappoints { records }
    }

    /// How many expectations were disappointed during the run.
    pub fn len(&self) -> (r: usize)
        ensures
            r == self@.len(),
    {
        self.records.len()
    }

    /// Whether every expectation of the run was satisfied.
    pub fn is_empty(&self) -> (r: bool)
        ensures
            r == (self@.len() == 0),
    {
        self.records.len() == 0
    }

    /// Read the record at `index`, counting from the first disappointment
    /// observed.
    pub fn get(&self, index: usize) -> (r: &Disappoint)
        requires
            index < self@.len(),
        ensures
            r@ == self@[index as int],
    {
        &self.records[index]
    }
}

/// A record of one disappointed expectation: a pre-formatted message and
/// the source location the check was made from. Immutable after
/// construction; consumers may only read the fields.
pub struct Disappoint {
    message: String,
    file: &'static str,
    line: u32,
    column: u32,
}

impl View for Disappoint {
    type V = DisappointData;

    closed spec fn view(&self) -> DisappointData {
        DisappointData {
            message: self.message@,
            file: self.file@,
            line: self.line,
            column: self.column,
        }
    }
}

impl Disappoint {
    /// Build a record from a message and a source location.
    pub fn new(message: String, file: &'static str, line: u32, column: u32) -> (r: Self)
        ensures
            r@ == (DisappointData { message: message@, file: file@, line, column }),
    {
        Disappoint { message, file, line, column }
    }

    /// The message carried by the record: the pre-formatted text describing
    /// the disappointed expectation.
    pub fn payload(&self) -> (r: &str)
        ensures
            r@ == self@.message,
    {
        self.message.as_str()
    }

    /// The name of the source file from which the disappointment originated.
    pub fn file(&self) -> (r: &str)
        ensures
            r@ == self@.file,
    {
        self.file
    }

    /// The line number from which the disappointment originated.
    pub fn line(&self) -> (r: u32)
        ensures
            r == self@.line,
    {
        self.line
    }

    /// The column from which the disappointment originated.
    pub fn column(&self) -> (r: u32)
        ensures
            r == self@.column,
    {
        self.column
    }
}

} // verus!
