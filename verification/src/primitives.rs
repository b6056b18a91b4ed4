//! The encodings, the digest and the random source that the crate rests on.
//!
//! Each function here hands its work to another crate. Its contract is taken
//! on trust: nothing in this crate proves it.

use base64::Engine;
use rand::RngCore;
use sha2::Digest;
use vstd::prelude::*;

verus! {

/// The padded base64 text, in the standard alphabet, of `bytes`.
pub uninterp spec fn base64_text(bytes: Seq<u8>) -> Seq<char>;

/// The bytes that `text` stands for in padded standard base64, or `None`
/// where `text` is no such encoding.
pub uninterp spec fn base64_bytes(text: Seq<char>) -> Option<Seq<u8>>;

/// The SHA-256 digest of `data`.
pub uninterp spec fn sha256_digest(data: Seq<u8>) -> Seq<u8>;

/// The text that the UTF-16 code units `units` stand for, with U+FFFD in
/// place of each unit that belongs to no valid pair.
pub uninterp spec fn utf16_lossy_text(units: Seq<u16>) -> Seq<char>;

/// Why `base64` refused a text.
#[verifier::external_type_specification]
#[verifier::external_body]
pub struct ExDecodeError(base64::DecodeError);

/// Calls `base64::Engine::encode` on the `STANDARD` engine.
///
/// Trusted: the text returned is the encoding of `bytes`, and the same
/// engine decodes it back to `bytes`, as the engine's documentation shows
/// for a text that it encoded. The encoder panics where the length of the
/// text would overflow `usize`; the precondition keeps such inputs out.
#[verifier::external_body]
pub(crate) fn encode_base64(bytes: &[u8]) -> (text: String)
    requires
        (bytes@.len() / 3) * 4 + 4 <= usize::MAX,
    ensures
        text@ == base64_text(bytes@),
        base64_bytes(text@) == Some(bytes@),
{
    base64::engine::general_purpose::STANDARD.encode(bytes)
}

/// Calls `base64::Engine::decode` on the `STANDARD` engine.
///
/// Trusted: the call succeeds exactly on the texts that `base64_bytes`
/// accepts, and then returns the bytes it names.
#[verifier::external_body]
pub(crate) fn decode_base64(text: &str) -> (decoded: Result<Vec<u8>, base64::DecodeError>)
    ensures
        decoded matches Ok(bytes) ==> base64_bytes(text@) == Some(bytes@),
        decoded is Err ==> base64_bytes(text@) is None,
{
    base64::engine::general_purpose::STANDARD.decode(text)
}

/// Calls `sha2::Sha256::digest`.
///
/// Trusted: the array returned holds the SHA-256 digest of `data`.
#[verifier::external_body]
pub(crate) fn sha256(data: &[u8]) -> (digest: [u8; 32])
    ensures
        digest@ == sha256_digest(data@),
{
    sha2::Sha256::digest(data).into()
}

/// Fills a buffer of `count` bytes from `rand::rng()` with
/// `RngCore::fill_bytes`.
///
/// Trusted: the buffer comes back with `count` bytes. Nothing is promised of
/// what they are: two calls may differ.
#[verifier::external_body]
pub(crate) fn random_bytes(count: usize) -> (bytes: Vec<u8>)
    ensures
        bytes@.len() == count,
{
    let mut bytes = vec![0u8; count];
    rand::rng().fill_bytes(&mut bytes);
    bytes
}

/// Calls `String::from_utf16_lossy`.
///
/// Trusted: the string returned is the lossy decoding of `units`.
#[verifier::external_body]
pub(crate) fn decode_utf16_lossy(units: &[u16]) -> (text: String)
    ensures
        text@ == utf16_lossy_text(units@),
{
    String::from_utf16_lossy(units)
}

} // verus!
