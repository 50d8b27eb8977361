//! The errors that the library itself raises.
use vstd::prelude::*;
use vstd::string::StringExecFns;

verus! {

/// `bincode::ErrorKind`, what `bincode` reports when it cannot encode or
/// decode. The library hands it on and never looks inside.
#[verifier::external_type_specification]
#[verifier::external_body]
pub struct ExErrorKind(bincode::ErrorKind);

/// What can go wrong while a store is opened or used.
#[derive(Debug)]
pub enum CuttlestoreError {
    /// The connection string names no supported backend. The string inside
    /// is the scheme alone: what follows the scheme may hold a password or a
    /// path, and is never repeated.
    NoMatchingBackend(String),
    /// A value could not be encoded or decoded. This points at mismatched
    /// data types in the program, or at corrupted data.
    EncodingError(bincode::Error),
}

/// `ToString::to_string` on a `bincode::Error`: the words in which the error
/// describes itself. Nothing is said of the words: for a failure of the
/// operating system they come from the platform.
#[verifier::external_body]
fn describe(error: &bincode::Error) -> (words: String) {
    error.to_string()
}

impl CuttlestoreError {
    /// Whether `message` is a message of this error. For
    /// `NoMatchingBackend` it is the sentence that names the scheme. For
    /// `EncodingError` it begins with the fixed words, and goes on with
    /// what `bincode` says of the failure.
    pub open spec fn worded(self, message: Seq<char>) -> bool {
        match self {
            CuttlestoreError::NoMatchingBackend(scheme) => message == "No store matching "@
                + scheme@ + " is supported."@,
            CuttlestoreError::EncodingError(_) => "Failed to encode or decode data: "@.is_prefix_of(
                message,
            ),
        }
    }

    /// The message of the error, for those who read it. The message of
    /// `NoMatchingBackend` holds the scheme of the connection string and
    /// nothing else of it.
    pub fn message(&self) -> (message: String)
        ensures
            self.worded(message@),
    {
        match self {
            CuttlestoreError::NoMatchingBackend(scheme) => {
                let mut message = String::from_str("No store matching ");
                message.append(scheme.as_str());
                message.append(" is supported.");
                message
            },
            CuttlestoreError::EncodingError(error) => {
                let mut message = String::from_str("Failed to encode or decode data: ");
                message.append(describe(error).as_str());
                message
            },
        }
    }
}

} // verus!
