use vstd::prelude::*;
use vstd::string::StringExecFns;

verus! {

/// The ways an operation can fail, told apart by how a caller recovers.
#[derive(Clone, Copy, Debug, PartialEq, Eq, Structural)]
pub enum ErrorKind {
    /// The aggregate that a command or a read speaks of does not exist.
    NotFound,
    /// A payload could not be encoded or decoded.
    SerializationFailure,
    /// The stream moved on since the caller read it: reload and try again.
    ConcurrencyConflict,
    /// The storage underneath refused or failed.
    StoreFailure,
    /// The events are committed, but a dispatcher failed afterwards.
    DispatchFailure,
    /// The aggregate turned the command down; nothing was committed.
    Validation,
}

/// A failure: its kind and a message for people.
#[derive(Debug)]
pub struct StoreError {
    pub kind: ErrorKind,
    pub message: String,
}

/// A [`StoreError`] as contracts see it.
pub struct StoreErrorView {
    pub kind: ErrorKind,
    pub message: Seq<char>,
}

impl View for StoreError {
    type V = StoreErrorView;

    open spec fn view(&self) -> StoreErrorView {
        StoreErrorView { kind: self.kind, message: self.message@ }
    }
}

impl Clone for StoreError {
    fn clone(&self) -> (copy: Self)
        ensures
            copy@ == self@,
    {
        StoreError { kind: self.kind, message: self.message.clone() }
    }
}

impl StoreError {
    /// An error of the given kind with the given message.
    pub fn new(kind: ErrorKind, message: &str) -> (error: Self)
        ensures
            error@ == (StoreErrorView { kind, message: message@ }),
    {
        StoreError { kind, message: String::from_str(message) }
    }

    /// An error whose message is `context` followed by `cause`.
    pub fn with_cause(kind: ErrorKind, context: &str, cause: &str) -> (error: Self)
        ensures
            error@ == (StoreErrorView { kind, message: context@ + cause@ }),
    {
        StoreError { kind, message: String::from_str(context).concat(cause) }
    }

    /// The same message under another kind.
    pub fn recast(self, kind: ErrorKind) -> (error: Self)
        ensures
            error@ == (StoreErrorView { kind, message: self@.message }),
    {
        StoreError { kind, message: self.message }
    }

    /// The kind of this error.
    pub fn kind(&self) -> (kind: ErrorKind)
        ensures
            kind == self@.kind,
    {
        self.kind
    }

    /// The message of this error.
    pub fn message(&self) -> (message: &str)
        ensures
            message@ == self@.message,
    {
        self.message.as_str()
    }

    /// The message as an owned string.
    pub fn to_text(&self) -> (text: String)
        ensures
            text@ == self@.message,
    {
        self.message.clone()
    }
}

/// The answer of an operation that hands nothing back, as contracts see it.
pub open spec fn answer_view(outcome: Result<(), StoreError>) -> Result<(), StoreErrorView> {
    match outcome {
        Ok(()) => Ok(()),
        Err(error) => Err(error@),
    }
}

} // verus!
