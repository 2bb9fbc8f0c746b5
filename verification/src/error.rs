//! The failures that the proxy's components report to each other.
use vstd::prelude::*;
use vstd::std_specs::convert::FromSpecImpl;
use crate::endpoint::Endpoint;

verus! {

/// A failure of one of the proxy's components.
#[derive(Debug)]
#[allow(inconsistent_fields)]
pub enum Error {
    /// The listener failed to accept a connection.
    AcceptingConnection(String),
    /// The peer of a channel is gone and nothing more can be received.
    ReceiveError,
    /// A message for the server could not be handed over.
    SendError,
    /// A request for the hook executor could not be handed over.
    HookExecutionError,
    /// A broadcast request could not be handed over.
    BroadcastError,
    /// A target refused the connection when the session started.
    ConnectionError { target: Endpoint, cause: String },
    /// A hook's script failed on a payload for `target`.
    ScriptError { target: String, cause: String },
    /// Any other failure, with its message.
    UnexpectedError(String),
}

/// What an [`Error`] is in contracts: its strings as sequences of characters.
#[allow(inconsistent_fields)]
pub enum ErrorModel {
    AcceptingConnection(Seq<char>),
    ReceiveError,
    SendError,
    HookExecutionError,
    BroadcastError,
    ConnectionError { target: Endpoint, cause: Seq<char> },
    ScriptError { target: Seq<char>, cause: Seq<char> },
    UnexpectedError(Seq<char>),
}

impl View for Error {
    type V = ErrorModel;

    open spec fn view(&self) -> ErrorModel {
        match *self {
            Error::AcceptingConnection(m) => ErrorModel::AcceptingConnection(m@),
            Error::ReceiveError => ErrorModel::ReceiveError,
            Error::SendError => ErrorModel::SendError,
            Error::HookExecutionError => ErrorModel::HookExecutionError,
            Error::BroadcastError => ErrorModel::BroadcastError,
            Error::ConnectionError { target, cause } => ErrorModel::ConnectionError {
                target,
                cause: cause@,
            },
            Error::ScriptError { target, cause } => ErrorModel::ScriptError {
                target: target@,
                cause: cause@,
            },
            Error::UnexpectedError(m) => ErrorModel::UnexpectedError(m@),
        }
    }
}

impl From<String> for Error {
    fn from(err: String) -> (e: Error) {
        Error::UnexpectedError(err)
    }
}

impl FromSpecImpl<String> for Error {
    open spec fn obeys_from_spec() -> bool {
        true
    }

    open spec fn from_spec(err: String) -> Error {
        Error::UnexpectedError(err)
    }
}

/// The result of an operation of the proxy.
pub type Result<T> = std::result::Result<T, Error>;

} // verus!
