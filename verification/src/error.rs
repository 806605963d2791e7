use vstd::prelude::*;

verus! {

/// The class an [`Error`] falls into.
#[derive(Clone, Copy, Debug, PartialEq, Eq, Structural)]
pub enum ErrorKind {
    /// Something that has to be there is not: no backing data source is
    /// configured, or a backing file does not exist.
    NotFound,
    /// A backing file was read but its contents are malformed.
    InvalidData,
    /// A backing file or process could not be read.
    Io,
}

/// A failure of a resolver, or of building one.
///
/// The absence of a match is never reported this way: an empty list or
/// `None` says "nothing found".
#[derive(Clone, Debug)]
pub struct Error {
    /// The class of the failure.
    pub kind: ErrorKind,
    /// A description for humans.
    pub message: String,
}

impl Error {
    /// Create an error of class `kind` that is described by `message`.
    pub fn new(kind: ErrorKind, message: &str) -> (err: Error)
        ensures
            err.kind == kind,
            err.message@ == message@,
    {
        Error { kind, message: message.to_owned() }
    }

    /// The class of the failure.
    pub fn kind(&self) -> (kind: ErrorKind)
        ensures
            kind == self.kind,
    {
        self.kind
    }

    /// The description of the failure.
    pub fn message(&self) -> (message: &str)
        ensures
            message@ == self.message@,
    {
        self.message.as_str()
    }
}

impl PartialEq for Error {
    fn eq(&self, other: &Error) -> (equal: bool) {
        self.kind == other.kind && self.message == other.message
    }
}

impl vstd::std_specs::cmp::PartialEqSpecImpl for Error {
    open spec fn obeys_eq_spec() -> bool {
        true
    }

    open spec fn eq_spec(&self, other: &Error) -> bool {
        self.kind == other.kind && self.message@ == other.message@
    }
}

} // verus!
