//! The capability that callers hold.

use vstd::prelude::*;

verus! {

/// Biometric unlock through the platform's authorization service.
///
/// It has five operations: `available` and `prompt` turn to the
/// authorization service, `derive_key_material` derives the key, and
/// `set_biometric_secret` and `get_biometric_secret` keep a secret encrypted
/// in the credential store. None of them holds state between calls.
#[derive(Clone, Copy, Debug, PartialEq, Eq)]
pub struct Biometric {}

} // verus!
