//! Error types.
use vstd::prelude::*;

verus! {

/// Errors that surface out of setup and operation.
///
/// Failures of a single request are answered to the client as a
/// [`McpError`](crate::protocol::McpError) and do not flow through this type.
#[derive(Debug, Clone)]
#[non_exhaustive]
pub enum Error {
    /// An operation on the underlying Taquba queue failed.
    Taquba(String),
    /// An object-store operation failed.
    ObjectStore(String),
    /// A required builder field was missing.
    Configuration(String),
    /// A payload or result blob could not be serialized or deserialized.
    Serde(String),
}

/// Convenience alias for a result with this library's error.
pub type Result<T> = std::result::Result<T, Error>;

impl Error {
    /// What the error says: where it comes from, and its message.
    pub open spec fn message(self) -> Seq<char> {
        match self {
            Error::Taquba(message) => "taquba: "@ + message@,
            Error::ObjectStore(message) => "object store: "@ + message@,
            Error::Configuration(message) => "configuration: "@ + message@,
            Error::Serde(message) => "serde: "@ + message@,
        }
    }

    /// The error as text.
    pub fn text(&self) -> (text: String)
        ensures
            text@ == self.message(),
    {
        match self {
            Error::Taquba(message) => crate::text::join("taquba: ", message.as_str()),
            Error::ObjectStore(message) => crate::text::join("object store: ", message.as_str()),
            Error::Configuration(message) => crate::text::join("configuration: ", message.as_str()),
            Error::Serde(message) => crate::text::join("serde: ", message.as_str()),
        }
    }
}

} // verus!
