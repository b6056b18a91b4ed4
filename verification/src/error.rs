//! The failures that the unlock operations report.

use vstd::prelude::*;

verus! {

/// Why an unlock operation failed.
#[derive(Clone, Copy, Debug, PartialEq, Eq, Structural)]
pub enum Error {
    /// The challenge is not the base64 text of exactly sixteen bytes.
    InvalidChallenge,
    /// The authorization service could not be reached or did not answer.
    ServiceUnavailable,
    /// No key material was supplied where the backend needs it.
    MissingKeyMaterial,
    /// The credential store holds no secret for the service and account.
    NotFound,
    /// The stored value is not a ciphertext container.
    MalformedStoredSecret,
    /// The ciphertext does not authenticate under the key.
    DecryptionFailed,
}

} // verus!
