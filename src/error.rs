//! The failures the launcher reports, and the reason text shown for each.
use vstd::prelude::*;

verus! {

/// A failure of one of the launcher's operations, with the detail its source gave.
pub enum ClientError {
    IoError(String),
    NetworkError(String),
    SerializeError(String),
    DeserializeError(String),
    RssError(String),
    OpenerError(String),
}

/// The reason shown for a failure: a fixed text for its kind, then the detail.
pub open spec fn client_error_message(e: ClientError) -> Seq<char> {
    match e {
        ClientError::IoError(d) => "IoError: "@ + d@,
        ClientError::NetworkError(d) => "A network error occured: "@ + d@,
        ClientError::SerializeError(d) => "FATAL: Failed to save state: "@ + d@,
        ClientError::DeserializeError(d) => "FATAL: Failed to load state: "@ + d@,
        ClientError::RssError(d) => "Failed to parse News: "@ + d@,
        ClientError::OpenerError(d) => "Failed to open browser: "@ + d@,
    }
}

impl ClientError {
    /// The reason text of this failure.
    pub fn message(&self) -> (r: String)
        ensures
            r@ == client_error_message(*self),
    {
        match self {
            ClientError::IoError(d) => String::from_str("IoError: ").concat(d.as_str()),
            ClientError::NetworkError(d) => String::from_str("A network error occured: ").concat(d.as_str()),
            ClientError::SerializeError(d) => String::from_str("FATAL: Failed to save state: ").concat(d.as_str()),
            ClientError::DeserializeError(d) => String::from_str("FATAL: Failed to load state: ").concat(d.as_str()),
            ClientError::RssError(d) => String::from_str("Failed to parse News: ").concat(d.as_str()),
            ClientError::OpenerError(d) => String::from_str("Failed to open browser: ").concat(d.as_str()),
        }
    }
}

} // verus!
