//! The failures of the script worker.
use vstd::prelude::*;
use vstd::std_specs::convert::FromSpecImpl;

verus! {

/// A failure of the script worker.
#[derive(Debug)]
pub enum Error {
    /// The script for `target` failed, or handed back what is no payload.
    ScriptError { target: String, cause: String },
    /// Any other failure, with its message.
    UnexpectedError(String),
}

/// What an [`Error`] is in contracts.
pub enum ErrorModel {
    ScriptError { target: Seq<char>, cause: Seq<char> },
    UnexpectedError(Seq<char>),
}

impl View for Error {
    type V = ErrorModel;

    open spec fn view(&self) -> ErrorModel {
        match *self {
            Error::ScriptError { target, cause } => ErrorModel::ScriptError {
                target: target@,
                cause: cause@,
            },
            Error::UnexpectedError(m) => ErrorModel::UnexpectedError(m@),
        }
    }
}

impl From<String> for Error {
    fn from(err: String) -> (e: Error) {
        Error::UnexpectedError(err)
    }
}

impl FromSpecImpl<String> for Error {
    open spec fn obeys_from_spec() -> bool {
        true
    }

    open spec fn from_spec(err: String) -> Error {
        Error::UnexpectedError(err)
    }
}

/// The result of an operation of the script worker.
pub type Result<T> = std::result::Result<T, Error>;

} // verus!
