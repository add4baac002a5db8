//! Why a secret could not be resolved.

use crate::codec::DecodeError;
use vstd::prelude::*;

verus! {

/// Every way in which resolving a secret ends without one. Each is final
/// for the run.
#[derive(Clone, Copy, Debug, PartialEq, Eq, Structural)]
pub enum ResolveError {
    /// The secure storage gave no password, neither for the primary account
    /// nor for the fallback account.
    SecretUnavailable,
    /// The configuration could not be read, or is not a JSON document.
    ConfigReadError,
    /// The configuration is a JSON document without a text member
    /// `encryptedKey`.
    ConfigFieldMissing,
    /// The encrypted key did not open.
    Decode(DecodeError),
}

impl ResolveError {
    /// What the error says, in words.
    pub open spec fn message_text(self) -> Seq<char> {
        match self {
            ResolveError::SecretUnavailable => "No password in the secure storage"@,
            ResolveError::ConfigReadError => "Configuration cannot be read"@,
            ResolveError::ConfigFieldMissing => "Missing encryptedKey"@,
            ResolveError::Decode(e) => e.message_text(),
        }
    }

    /// A message for the user. It tells a missing password, a missing
    /// configuration and an encrypted key that does not open apart.
    pub fn message(&self) -> (text: String)
        ensures
            text@ == self.message_text(),
    {
        match self {
            ResolveError::SecretUnavailable => String::from_str("No password in the secure storage"),
            ResolveError::ConfigReadError => String::from_str("Configuration cannot be read"),
            ResolveError::ConfigFieldMissing => String::from_str("Missing encryptedKey"),
            ResolveError::Decode(e) => e.message(),
        }
    }
}

/// An outcome of resolving, with the text taken by its view.
pub open spec fn resolved_outcome(r: Result<String, ResolveError>) -> Result<
    Seq<char>,
    ResolveError,
> {
    match r {
        Ok(text) => Ok(text@),
        Err(e) => Err(e),
    }
}

/// The outcome of opening an envelope as an outcome of resolving.
pub open spec fn lifted(outcome: Result<Seq<char>, DecodeError>) -> Result<Seq<char>, ResolveError> {
    match outcome {
        Ok(text) => Ok(text),
        Err(e) => Err(ResolveError::Decode(e)),
    }
}

} // verus!
