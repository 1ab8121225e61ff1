//! What can end a retrieval early.

use vstd::prelude::*;
use vstd::string::*;

verus! {

/// The ways in which a retrieval fails. None of them is retried, and
/// nothing that had been gathered before is handed out.
#[derive(Debug, Clone, PartialEq, Eq)]
pub enum FetchError {
    /// The request could not be carried out. Holds what the transport
    /// reported.
    Transport(String),
    /// The response body is not JSON of the expected shape. Holds what
    /// the decoder reported.
    Deserialization(String),
    /// A request for a further page was answered with a single item.
    SingleItemOnNext,
}

impl FetchError {
    /// The text that describes the error.
    pub open spec fn text(self) -> Seq<char> {
        match self {
            FetchError::Transport(message) => message@,
            FetchError::Deserialization(message) => message@,
            FetchError::SingleItemOnNext => "Single value on next of multi value query"@,
        }
    }

    /// A description of the error, for display.
    pub fn message(&self) -> (message: String)
        ensures
            message@ == self.text(),
    {
        match self {
            FetchError::Transport(message) => message.clone(),
            FetchError::Deserialization(message) => message.clone(),
            FetchError::SingleItemOnNext => String::from_str(
                "Single value on next of multi value query",
            ),
        }
    }
}

} // verus!
