//! The closed set of failures that a caller can be told of.

use vstd::prelude::*;

verus! {

/// The kind of a failure.
#[derive(Clone, Copy, Debug, PartialEq, Eq, Structural)]
pub enum ErrorKind {
    /// The script threw, or could not be loaded.
    ExecutionError,
    /// A value could not be put into the interchange format.
    ConversionError,
    /// The instance no longer takes commands.
    DeadRuntimeError,
    /// A pending value settled as rejected.
    PromiseRejection,
}

/// The mathematical content of an [`Error`].
pub struct ErrorView {
    pub message: Option<Seq<char>>,
    pub name: ErrorKind,
    pub value: Option<Seq<char>>,
}

/// A failure: its kind, the engine's diagnostic text where there is one, and
/// for a rejection the rejection value in the interchange format.
#[derive(Clone, Debug, PartialEq, Eq)]
pub struct Error {
    pub message: Option<String>,
    pub name: ErrorKind,
    pub value: Option<String>,
}

impl View for Error {
    type V = ErrorView;

    open spec fn view(&self) -> ErrorView {
        ErrorView {
            message: match self.message {
                Some(text) => Some(text@),
                None => None,
            },
            name: self.name,
            value: match self.value {
                Some(text) => Some(text@),
                None => None,
            },
        }
    }
}

impl ErrorView {
    /// A value is carried by rejections and by nothing else, and only a
    /// failed execution has a diagnostic text.
    pub open spec fn well_formed(self) -> bool {
        &&& self.value is Some <==> self.name == ErrorKind::PromiseRejection
        &&& self.message is Some ==> self.name == ErrorKind::ExecutionError
    }

    pub open spec fn execution_error(message: Option<Seq<char>>) -> ErrorView {
        ErrorView { message, name: ErrorKind::ExecutionError, value: None }
    }

    pub open spec fn conversion_error() -> ErrorView {
        ErrorView { message: None, name: ErrorKind::ConversionError, value: None }
    }

    pub open spec fn dead_runtime_error() -> ErrorView {
        ErrorView { message: None, name: ErrorKind::DeadRuntimeError, value: None }
    }

    pub open spec fn promise_rejection(value: Seq<char>) -> ErrorView {
        ErrorView { message: None, name: ErrorKind::PromiseRejection, value: Some(value) }
    }
}

impl ErrorKind {
    /// The name under which the kind is known to callers.
    pub fn atom(&self) -> (name: &'static str)
        ensures
            name@ == self.atom_text(),
    {
        match self {
            ErrorKind::ExecutionError => "execution_error",
            ErrorKind::ConversionError => "conversion_error",
            ErrorKind::DeadRuntimeError => "dead_runtime_error",
            ErrorKind::PromiseRejection => "promise_rejection",
        }
    }

    pub open spec fn atom_text(self) -> Seq<char> {
        match self {
            ErrorKind::ExecutionError => "execution_error"@,
            ErrorKind::ConversionError => "conversion_error"@,
            ErrorKind::DeadRuntimeError => "dead_runtime_error"@,
            ErrorKind::PromiseRejection => "promise_rejection"@,
        }
    }
}

impl Error {
    /// The script threw or failed to load; `message` is the engine's text.
    pub fn execution_error(message: Option<String>) -> (error: Error)
        ensures
            error@ == ErrorView::execution_error(
                match message {
                    Some(text) => Some(text@),
                    None => None,
                },
            ),
            error@.well_formed(),
    {
        Error { message, name: ErrorKind::ExecutionError, value: None }
    }

    /// A value had no rendering in the interchange format.
    pub fn conversion_error() -> (error: Error)
        ensures
            error@ == ErrorView::conversion_error(),
            error@.well_formed(),
    {
        Error { message: None, name: ErrorKind::ConversionError, value: None }
    }

    /// The instance is gone, or its queue is closed.
    pub fn dead_runtime_error() -> (error: Error)
        ensures
            error@ == ErrorView::dead_runtime_error(),
            error@.well_formed(),
    {
        Error { message: None, name: ErrorKind::DeadRuntimeError, value: None }
    }

    /// A pending value was rejected with `value`.
    pub fn promise_rejection(value: String) -> (error: Error)
        ensures
            error@ == ErrorView::promise_rejection(value@),
            error@.well_formed(),
    {
        Error { message: None, name: ErrorKind::PromiseRejection, value: Some(value) }
    }
}

} // verus!
