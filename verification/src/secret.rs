//! Keeping a secret encrypted in the credential store.
//!
//! The cipher and the store are the caller's. Each operation here is a
//! chain of two requests: the caller performs the one it is given and hands
//! the answer to the next step. A failure that the cipher or the store
//! reports of its own work ends the chain and is returned as it came.

use vstd::prelude::*;
use crate::biometric::Biometric;
use crate::error::Error;
use crate::key::KeyMaterial;

verus! {

/// A secret to encrypt, and where it goes afterwards.
#[derive(Clone, Debug, PartialEq, Eq)]
pub struct EncryptRequest {
    /// The service the secret is kept for.
    pub service: String,
    /// The account the secret is kept for.
    pub account: String,
    /// The plaintext.
    pub secret: String,
    /// The key to encrypt under.
    pub key_material: KeyMaterial,
    /// The initialization vector, in base64.
    pub iv_b64: String,
}

/// An encrypted secret to write to the credential store.
#[derive(Clone, Debug, PartialEq, Eq)]
pub struct StoreRequest {
    /// The service to write under.
    pub service: String,
    /// The account to write under.
    pub account: String,
    /// The ciphertext, as the cipher gave it.
    pub encrypted_secret: String,
}

/// An entry to read from the credential store.
#[derive(Clone, Debug, PartialEq, Eq)]
pub struct LoadRequest {
    /// The service to read under.
    pub service: String,
    /// The account to read under.
    pub account: String,
    /// The key that the entry will be decrypted under.
    pub key_material: KeyMaterial,
}

/// A stored value to parse and decrypt.
#[derive(Clone, Debug, PartialEq, Eq)]
pub struct DecryptRequest {
    /// The value, as the store gave it.
    pub encrypted_secret: String,
    /// The key to decrypt under.
    pub key_material: KeyMaterial,
}

/// What the cipher made of a stored value.
#[derive(Clone, Debug, PartialEq, Eq)]
pub enum Decryption {
    /// The value authenticated under the key; this is its plaintext.
    Plaintext(String),
    /// The value is no ciphertext container.
    Malformed,
    /// The value does not authenticate under the key: the key is another,
    /// or the value was changed.
    Rejected,
}

impl EncryptRequest {
    /// Whether this asks for `secret` under `key_material` and `iv_b64`,
    /// to be kept for `service` and `account`.
    pub open spec fn asks_for(
        &self,
        service: Seq<char>,
        account: Seq<char>,
        secret: Seq<char>,
        key_material: KeyMaterial,
        iv_b64: Seq<char>,
    ) -> bool {
        &&& self.service@ == service
        &&& self.account@ == account
        &&& self.secret@ == secret
        &&& self.key_material == key_material
        &&& self.iv_b64@ == iv_b64
    }

    /// What follows the cipher's answer `sealed`.
    pub open spec fn next(self, sealed: Result<String, Error>) -> Result<StoreRequest, Error> {
        match sealed {
            Ok(encrypted_secret) => Ok(
                StoreRequest { service: self.service, account: self.account, encrypted_secret },
            ),
            Err(error) => Err(error),
        }
    }

    /// Takes the cipher's answer. A ciphertext goes to the store, under the
    /// service and account it was asked for; a failure ends the operation
    /// before anything is written.
    pub fn encrypted(self, sealed: Result<String, Error>) -> (step: Result<StoreRequest, Error>)
        ensures
            step == self.next(sealed),
    {
        match sealed {
            Ok(encrypted_secret) => Ok(
                StoreRequest { service: self.service, account: self.account, encrypted_secret },
            ),
            Err(error) => Err(error),
        }
    }
}

impl StoreRequest {
    /// What follows the store's answer `written`.
    pub open spec fn next(self, written: Result<(), Error>) -> Result<String, Error> {
        match written {
            Ok(_) => Ok(self.encrypted_secret),
            Err(error) => Err(error),
        }
    }

    /// Takes the store's answer. Once the ciphertext is written it is
    /// returned, as it was stored.
    pub fn stored(self, written: Result<(), Error>) -> (outcome: Result<String, Error>)
        ensures
            outcome == self.next(written),
    {
        match written {
            Ok(_) => Ok(self.encrypted_secret),
            Err(error) => Err(error),
        }
    }
}

impl LoadRequest {
    /// Whether this asks for the entry of `service` and `account`, to be
    /// decrypted under `key_material`.
    pub open spec fn asks_for(
        &self,
        service: Seq<char>,
        account: Seq<char>,
        key_material: KeyMaterial,
    ) -> bool {
        &&& self.service@ == service
        &&& self.account@ == account
        &&& self.key_material == key_material
    }

    /// What follows the store's answer `stored`.
    pub open spec fn next(self, stored: Result<Option<String>, Error>) -> Result<
        DecryptRequest,
        Error,
    > {
        match stored {
            Ok(Some(encrypted_secret)) => Ok(
                DecryptRequest { encrypted_secret, key_material: self.key_material },
            ),
            Ok(None) => Err(Error::NotFound),
            Err(error) => Err(error),
        }
    }

    /// Takes the store's answer: the entry, or `None` where the store holds
    /// none for the service and account. An entry goes to the cipher with
    /// the key material given at the start. Without an entry the operation
    /// fails with `NotFound`, and the cipher is not asked. A failure of the
    /// store itself is returned as it came.
    pub fn loaded(self, stored: Result<Option<String>, Error>) -> (step: Result<
        DecryptRequest,
        Error,
    >)
        ensures
            step == self.next(stored),
    {
        match stored {
            Ok(Some(encrypted_secret)) => Ok(
                DecryptRequest { encrypted_secret, key_material: self.key_material },
            ),
            Ok(None) => Err(Error::NotFound),
            Err(error) => Err(error),
        }
    }
}

impl DecryptRequest {
    /// What follows the cipher's answer `opened`.
    pub open spec fn next(self, opened: Decryption) -> Result<String, Error> {
        match opened {
            Decryption::Plaintext(secret) => Ok(secret),
            Decryption::Malformed => Err(Error::MalformedStoredSecret),
            Decryption::Rejected => Err(Error::DecryptionFailed),
        }
    }

    /// Takes the cipher's answer. A plaintext is returned only if the cipher
    /// gave it, and then unchanged. A value that is no ciphertext container
    /// fails with `MalformedStoredSecret`; one that does not authenticate
    /// under the key fails with `DecryptionFailed`.
    pub fn decrypted(self, opened: Decryption) -> (outcome: Result<String, Error>)
        ensures
            outcome == self.next(opened),
    {
        match opened {
            Decryption::Plaintext(secret) => Ok(secret),
            Decryption::Malformed => Err(Error::MalformedStoredSecret),
            Decryption::Rejected => Err(Error::DecryptionFailed),
        }
    }
}

impl Biometric {
    /// Starts storing `secret` for `service` and `account`, encrypted under
    /// `key_material` with the initialization vector `iv_b64`.
    ///
    /// This backend holds no key of its own, so the key material has to be
    /// given: without it the operation fails at once, and neither the cipher
    /// nor the store is asked for anything.
    pub fn set_biometric_secret(
        service: &str,
        account: &str,
        secret: &str,
        key_material: Option<KeyMaterial>,
        iv_b64: &str,
    ) -> (step: Result<EncryptRequest, Error>)
        ensures
            match key_material {
                Some(material) => step matches Ok(request) && request.asks_for(
                    service@,
                    account@,
                    secret@,
                    material,
                    iv_b64@,
                ),
                None => step == Err::<EncryptRequest, Error>(Error::MissingKeyMaterial),
            },
    {
        match key_material {
            Some(key_material) => Ok(
                EncryptRequest {
                    service: service.to_owned(),
                    account: account.to_owned(),
                    secret: secret.to_owned(),
                    key_material,
                    iv_b64: iv_b64.to_owned(),
                },
            ),
            None => Err(Error::MissingKeyMaterial),
        }
    }

    /// Starts reading the secret kept for `service` and `account`, to be
    /// decrypted under `key_material`.
    ///
    /// Without key material the operation fails at once, and neither the
    /// store nor the cipher is asked for anything.
    pub fn get_biometric_secret(
        service: &str,
        account: &str,
        key_material: Option<KeyMaterial>,
    ) -> (step: Result<LoadRequest, Error>)
        ensures
            match key_material {
                Some(material) => step matches Ok(request) && request.asks_for(
                    service@,
                    account@,
                    material,
                ),
                None => step == Err::<LoadRequest, Error>(Error::MissingKeyMaterial),
            },
    {
        match key_material {
            Some(key_material) => Ok(
                LoadRequest { service: service.to_owned(), account: account.to_owned(), key_material },
            ),
            None => Err(Error::MissingKeyMaterial),
        }
    }
}

/// A secret that was set is the secret that is got.
///
/// Take a secret that was set and one that is got for the same service and
/// account under the same key material. The store is asked to keep the
/// ciphertext that the cipher gave, under that service and account, and
/// that ciphertext is what setting returns. Where the store gives it back,
/// the cipher is asked to open exactly that ciphertext under the key
/// material it was sealed with; and where the cipher opens to the secret
/// that it sealed, getting returns the secret as it was set.
pub proof fn lemma_set_then_get_returns_secret(
    set: EncryptRequest,
    get: LoadRequest,
    sealed: String,
)
    requires
        get.asks_for(set.service@, set.account@, set.key_material),
    ensures
        set.next(Ok(sealed)) matches Ok(store) && {
            &&& store.service@ == get.service@
            &&& store.account@ == get.account@
            &&& store.encrypted_secret == sealed
            &&& store.next(Ok(())) == Ok::<String, Error>(sealed)
        },
        get.next(Ok(Some(sealed))) matches Ok(decrypt) && {
            &&& decrypt.encrypted_secret == sealed
            &&& decrypt.key_material == set.key_material
            &&& decrypt.next(Decryption::Plaintext(set.secret)) == Ok::<String, Error>(set.secret)
        },
{
}

/// A secret that was never set is not found: where the store holds no
/// entry for the service and account, getting fails with `NotFound`, and no
/// request to the cipher comes of it.
pub proof fn lemma_get_without_entry_is_not_found(get: LoadRequest)
    ensures
        get.next(Ok(None)) == Err::<DecryptRequest, Error>(Error::NotFound),
{
}

/// What the cipher rejects is never returned as a plaintext: getting ends
/// in a secret only where the cipher opened the stored value, and then in
/// the plaintext that the cipher gave.
pub proof fn lemma_only_opened_secrets_are_returned(
    decrypt: DecryptRequest,
    opened: Decryption,
    secret: String,
)
    ensures
        decrypt.next(opened) == Ok::<String, Error>(secret) <==> opened == Decryption::Plaintext(
            secret,
        ),
        opened == Decryption::Rejected ==> decrypt.next(opened) == Err::<String, Error>(
            Error::DecryptionFailed,
        ),
{
}

} // verus!
