//! Key derivation from a sixteen-byte challenge.
//!
//! A backend without a hardware-held key has nothing that only a biometric
//! proof unlocks. The key here is therefore a fixed, public function of the
//! challenge: its secrecy protects nothing, and only the authorization
//! prompt guards the secret. In return the caller keeps the challenge alone,
//! as the initialization vector, and derives the key again when it is needed.

use vstd::prelude::*;
use crate::biometric::Biometric;
use crate::error::Error;
use crate::primitives::{
    base64_bytes, base64_text, decode_base64, encode_base64, random_bytes, sha256,
    sha256_digest,
};

verus! {

/// The number of bytes in a challenge.
pub const CHALLENGE_LEN: usize = 16;

/// A key held by the caller, in two parts.
#[derive(Clone, Debug, PartialEq, Eq)]
pub struct KeyMaterial {
    /// The part that the operating-system backend derived, in base64.
    pub os_key_part_b64: String,
    /// The part that the client adds, in base64, if any.
    pub client_key_part_b64: Option<String>,
}

/// A derived key with the initialization vector it was derived from.
#[derive(Clone, Debug, PartialEq, Eq)]
pub struct OsDerivedKey {
    /// The SHA-256 digest of the challenge, in base64.
    pub key_b64: String,
    /// The challenge itself, in base64.
    pub iv_b64: String,
}

/// The two texts of a derived key.
pub struct DerivedKeyText {
    pub key: Seq<char>,
    pub iv: Seq<char>,
}

impl View for OsDerivedKey {
    type V = DerivedKeyText;

    open spec fn view(&self) -> DerivedKeyText {
        DerivedKeyText { key: self.key_b64@, iv: self.iv_b64@ }
    }
}

/// The key derived from `challenge`.
pub open spec fn derived_from(challenge: Seq<u8>) -> DerivedKeyText {
    DerivedKeyText { key: base64_text(sha256_digest(challenge)), iv: base64_text(challenge) }
}

/// The challenge that `text` encodes: its base64 decoding, where that has
/// exactly sixteen bytes.
pub open spec fn challenge_of(text: Seq<char>) -> Option<Seq<u8>> {
    match base64_bytes(text) {
        Some(bytes) => if bytes.len() == CHALLENGE_LEN {
            Some(bytes)
        } else {
            None
        },
        None => None,
    }
}

/// What deriving from the challenge text `text` gives.
pub open spec fn derivation_of(text: Seq<char>) -> Result<DerivedKeyText, Error> {
    match challenge_of(text) {
        Some(challenge) => Ok(derived_from(challenge)),
        None => Err(Error::InvalidChallenge),
    }
}

/// The texts of a derivation's result.
pub open spec fn outcome_text(outcome: Result<OsDerivedKey, Error>) -> Result<
    DerivedKeyText,
    Error,
> {
    match outcome {
        Ok(key) => Ok(key@),
        Err(error) => Err(error),
    }
}

/// The sixteen bytes of `bytes` as a challenge.
fn challenge_from(bytes: &Vec<u8>) -> (challenge: [u8; 16])
    requires
        bytes@.len() == CHALLENGE_LEN,
    ensures
        challenge@ == bytes@,
{
    let mut challenge = [0u8; 16];
    let mut i: usize = 0;
    while i < CHALLENGE_LEN
        invariant
            i <= CHALLENGE_LEN,
            bytes@.len() == CHALLENGE_LEN,
            forall|j: int| 0 <= j < i ==> challenge@[j] == bytes@[j],
        decreases CHALLENGE_LEN - i,
    {
        challenge.set(i, bytes[i]);
        i += 1;
    }
    assert(challenge@ =~= bytes@);
    challenge
}

/// Draws a fresh challenge from the process's secure random source.
pub fn random_challenge() -> (challenge: [u8; 16])
    ensures
        challenge@.len() == CHALLENGE_LEN,
{
    let bytes = random_bytes(CHALLENGE_LEN);
    challenge_from(&bytes)
}

/// Reads a challenge from its base64 text. A text that is not base64, or
/// that decodes to fewer or more than sixteen bytes, is refused: nothing is
/// padded or cut.
pub fn decode_challenge(text: &str) -> (challenge: Result<[u8; 16], Error>)
    ensures
        match challenge_of(text@) {
            Some(bytes) => challenge is Ok && challenge->Ok_0@ == bytes,
            None => challenge == Err::<[u8; 16], Error>(Error::InvalidChallenge),
        },
{
    match decode_base64(text) {
        Ok(bytes) => {
            if bytes.len() != CHALLENGE_LEN {
                return Err(Error::InvalidChallenge);
            }
            Ok(challenge_from(&bytes))
        },
        Err(_) => Err(Error::InvalidChallenge),
    }
}

/// Derives the key of a challenge: the digest of the challenge as the key,
/// the challenge itself as the initialization vector, both in base64.
pub fn derive_from_challenge(challenge: [u8; 16]) -> (key: OsDerivedKey)
    ensures
        key@ == derived_from(challenge@),
        derivation_of(key.iv_b64@) == Ok::<DerivedKeyText, Error>(key@),
{
    let digest = sha256(challenge.as_slice());
    let key_b64 = encode_base64(digest.as_slice());
    let iv_b64 = encode_base64(challenge.as_slice());
    OsDerivedKey { key_b64, iv_b64 }
}

impl Biometric {
    /// Derives key material from a challenge given in base64, or from a
    /// fresh random challenge where none is given.
    ///
    /// With a challenge the result is a function of its text alone. Without
    /// one, the only thing known of the challenge is its length. Either way
    /// the initialization vector that comes back is the challenge, so
    /// deriving again from it gives the same key.
    pub fn derive_key_material(challenge_str: Option<&str>) -> (outcome: Result<
        OsDerivedKey,
        Error,
    >)
        ensures
            challenge_str matches Some(text) ==> outcome_text(outcome) == derivation_of(text@),
            challenge_str is None ==> outcome is Ok,
            outcome matches Ok(key) ==> {
                &&& exists|challenge: Seq<u8>|
                    challenge.len() == CHALLENGE_LEN && key@ == #[trigger] derived_from(challenge)
                &&& derivation_of(key.iv_b64@) == Ok::<DerivedKeyText, Error>(key@)
            },
    {
        let challenge = match challenge_str {
            Some(text) => match decode_challenge(text) {
                Ok(challenge) => challenge,
                Err(error) => {
                    return Err(error);
                },
            },
            None => random_challenge(),
        };
        Ok(derive_from_challenge(challenge))
    }
}

/// Deriving twice from one challenge text gives the same outcome: both
/// fail, or both succeed with the same key and initialization vector.
pub proof fn lemma_derivation_is_deterministic(
    text: Seq<char>,
    first: Result<OsDerivedKey, Error>,
    second: Result<OsDerivedKey, Error>,
)
    requires
        outcome_text(first) == derivation_of(text),
        outcome_text(second) == derivation_of(text),
    ensures
        outcome_text(first) == outcome_text(second),
        first matches Ok(a) ==> second matches Ok(b) && a.key_b64@ == b.key_b64@ && a.iv_b64@
            == b.iv_b64@,
        first matches Err(e) ==> second == Err::<OsDerivedKey, Error>(e),
{
}

/// A key is derived again from its initialization vector: where a
/// derivation gave `first`, with or without a challenge, a second one from
/// the initialization vector of `first` succeeds and gives the same key and
/// the same initialization vector.
pub proof fn lemma_key_is_derived_again_from_its_iv(
    first: OsDerivedKey,
    second: Result<OsDerivedKey, Error>,
)
    requires
        derivation_of(first.iv_b64@) == Ok::<DerivedKeyText, Error>(first@),
        outcome_text(second) == derivation_of(first.iv_b64@),
    ensures
        second matches Ok(again) && again.key_b64@ == first.key_b64@ && again.iv_b64@
            == first.iv_b64@,
{
}

/// A text that decodes to fewer or more than sixteen bytes is no
/// challenge: deriving from it fails with `InvalidChallenge`. So does a text
/// that does not decode at all.
pub proof fn lemma_other_lengths_are_refused(text: Seq<char>)
    requires
        base64_bytes(text) matches Some(bytes) ==> bytes.len() != CHALLENGE_LEN,
    ensures
        derivation_of(text) == Err::<DerivedKeyText, Error>(Error::InvalidChallenge),
{
}

} // verus!
