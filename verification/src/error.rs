//! The errors of the library.
use vstd::prelude::*;

verus! {

/// What went wrong, with a message for the user.
#[derive(Debug)]
pub enum FlutzError {
    InvalidInput(String),
    UnsupportedFormat(String),
    Runtime(String),
}

/// The kind of an error.
#[derive(Debug, Copy, Clone, PartialEq, Eq, Structural)]
pub enum ErrorKind {
    InvalidInput,
    UnsupportedFormat,
    Runtime,
}

impl View for FlutzError {
    type V = (ErrorKind, Seq<char>);

    open spec fn view(&self) -> (ErrorKind, Seq<char>) {
        match self {
            FlutzError::InvalidInput(message) => (ErrorKind::InvalidInput, message@),
            FlutzError::UnsupportedFormat(message) => (ErrorKind::UnsupportedFormat, message@),
            FlutzError::Runtime(message) => (ErrorKind::Runtime, message@),
        }
    }
}

impl FlutzError {
    /// The kind of the error.
    pub fn kind(&self) -> (kind: ErrorKind)
        ensures
            kind == self@.0,
    {
        match self {
            FlutzError::InvalidInput(_) => ErrorKind::InvalidInput,
            FlutzError::UnsupportedFormat(_) => ErrorKind::UnsupportedFormat,
            FlutzError::Runtime(_) => ErrorKind::Runtime,
        }
    }

    /// The message for the user.
    pub fn message(&self) -> (message: &str)
        ensures
            message@ == self@.1,
    {
        match self {
            FlutzError::InvalidInput(message) => message.as_str(),
            FlutzError::UnsupportedFormat(message) => message.as_str(),
            FlutzError::Runtime(message) => message.as_str(),
        }
    }
}

} // verus!
