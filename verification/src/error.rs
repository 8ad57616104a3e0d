use vstd::prelude::*;

verus! {

/// Errors produced by the writer side of a connection.
#[derive(Copy, Clone, Debug, PartialEq, Eq, Structural)]
pub enum ConnectionError {
    /// Connection is already closed.
    AlreadyClosed,
    /// Connection is already disconnected.
    AlreadyDisconnected,
    /// Connection was manually closed.
    Closed,
    /// Connection was dropped.
    ///
    /// A reconnection might be in process.
    Disconnected,
}

/// The human readable text of each error.
pub open spec fn error_text(e: ConnectionError) -> Seq<char> {
    match e {
        ConnectionError::AlreadyClosed => "Connection is already closed."@,
        ConnectionError::AlreadyDisconnected => "Connection is already disconnected."@,
        ConnectionError::Closed => "Connection was manually closed."@,
        ConnectionError::Disconnected => "Connection was dropped."@,
    }
}

impl ConnectionError {
    /// The text shown for this error.
    pub fn message(&self) -> (text: &'static str)
        ensures
            text@ == error_text(*self),
    {
        match self {
            ConnectionError::AlreadyClosed => "Connection is already closed.",
            ConnectionError::AlreadyDisconnected => "Connection is already disconnected.",
            ConnectionError::Closed => "Connection was manually closed.",
            ConnectionError::Disconnected => "Connection was dropped.",
        }
    }
}

} // verus!
