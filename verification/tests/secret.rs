use std::collections::HashMap;

use desktop_native::key::KeyMaterial;
use desktop_native::secret::{Decryption, DecryptRequest, EncryptRequest, LoadRequest, StoreRequest};
use desktop_native::{Biometric, Error};

fn material(os_key: &str) -> KeyMaterial {
    KeyMaterial { os_key_part_b64: os_key.to_string(), client_key_part_b64: None }
}

fn key_text(material: &KeyMaterial) -> String {
    match &material.client_key_part_b64 {
        Some(client) => format!("{}+{}", material.os_key_part_b64, client),
        None => material.os_key_part_b64.clone(),
    }
}

// A stand-in for the caller's cipher: the container names the key and the
// initialization vector, and opens only under the key it names.
fn seal(request: &EncryptRequest) -> Result<String, Error> {
    Ok(format!("0.{}|{}|{}", request.iv_b64, key_text(&request.key_material), request.secret))
}

fn open(request: &DecryptRequest) -> Decryption {
    let Some(body) = request.encrypted_secret.strip_prefix("0.") else {
        return Decryption::Malformed;
    };
    let parts: Vec<&str> = body.splitn(3, '|').collect();
    if parts.len() != 3 {
        return Decryption::Malformed;
    }
    if parts[1] != key_text(&request.key_material) {
        return Decryption::Rejected;
    }
    Decryption::Plaintext(parts[2].to_string())
}

type Store = HashMap<(String, String), String>;

fn set(
    store: &mut Store,
    service: &str,
    account: &str,
    secret: &str,
    key_material: Option<KeyMaterial>,
    iv_b64: &str,
) -> Result<String, Error> {
    let encrypt = Biometric::set_biometric_secret(service, account, secret, key_material, iv_b64)?;
    let sealed = seal(&encrypt);
    let write = encrypt.encrypted(sealed)?;
    store.insert((write.service.clone(), write.account.clone()), write.encrypted_secret.clone());
    write.stored(Ok(()))
}

fn get(
    store: &Store,
    service: &str,
    account: &str,
    key_material: Option<KeyMaterial>,
) -> Result<String, Error> {
    let load = Biometric::get_biometric_secret(service, account, key_material)?;
    let entry = store.get(&(load.service.clone(), load.account.clone())).cloned();
    let decrypt = load.loaded(Ok(entry))?;
    let opened = open(&decrypt);
    decrypt.decrypted(opened)
}

const IV: &str = "AAECAwQFBgcICQoLDA0ODw==";

#[test]
fn set_then_get_returns_the_secret() {
    let mut store = Store::new();
    let sealed = set(&mut store, "Bitwarden", "user-1", "hunter2", Some(material("k1")), IV);
    assert_eq!(sealed, Ok("0.AAECAwQFBgcICQoLDA0ODw==|k1|hunter2".to_string()));
    assert_eq!(store.len(), 1);
    assert_eq!(get(&store, "Bitwarden", "user-1", Some(material("k1"))), Ok("hunter2".to_string()));
}

#[test]
fn set_then_get_with_a_client_key_part() {
    let both = KeyMaterial {
        os_key_part_b64: "os".to_string(),
        client_key_part_b64: Some("client".to_string()),
    };
    let mut store = Store::new();
    set(&mut store, "Bitwarden", "user-1", "s3cr3t|with|bars", Some(both.clone()), IV).unwrap();
    assert_eq!(
        get(&store, "Bitwarden", "user-1", Some(both)),
        Ok("s3cr3t|with|bars".to_string())
    );
}

#[test]
fn get_without_set_is_not_found() {
    let store = Store::new();
    assert_eq!(get(&store, "Bitwarden", "user-1", Some(material("k1"))), Err(Error::NotFound));
}

#[test]
fn get_for_another_account_is_not_found() {
    let mut store = Store::new();
    set(&mut store, "Bitwarden", "user-1", "hunter2", Some(material("k1")), IV).unwrap();
    assert_eq!(get(&store, "Bitwarden", "user-2", Some(material("k1"))), Err(Error::NotFound));
    assert_eq!(get(&store, "Other", "user-1", Some(material("k1"))), Err(Error::NotFound));
}

#[test]
fn get_under_another_key_fails_to_decrypt() {
    let mut store = Store::new();
    set(&mut store, "Bitwarden", "user-1", "hunter2", Some(material("k1")), IV).unwrap();
    assert_eq!(
        get(&store, "Bitwarden", "user-1", Some(material("k2"))),
        Err(Error::DecryptionFailed)
    );
}

#[test]
fn get_of_a_damaged_entry_is_malformed() {
    let mut store = Store::new();
    store.insert(("Bitwarden".to_string(), "user-1".to_string()), "garbage".to_string());
    assert_eq!(
        get(&store, "Bitwarden", "user-1", Some(material("k1"))),
        Err(Error::MalformedStoredSecret)
    );
}

#[test]
fn set_without_key_material_fails_before_any_request() {
    let mut store = Store::new();
    assert_eq!(
        set(&mut store, "Bitwarden", "user-1", "hunter2", None, IV),
        Err(Error::MissingKeyMaterial)
    );
    assert!(store.is_empty());
    assert_eq!(
        Biometric::set_biometric_secret("Bitwarden", "user-1", "hunter2", None, IV),
        Err(Error::MissingKeyMaterial)
    );
}

#[test]
fn get_without_key_material_fails_before_any_request() {
    let mut store = Store::new();
    set(&mut store, "Bitwarden", "user-1", "hunter2", Some(material("k1")), IV).unwrap();
    assert_eq!(get(&store, "Bitwarden", "user-1", None), Err(Error::MissingKeyMaterial));
    assert_eq!(
        Biometric::get_biometric_secret("Bitwarden", "user-1", None),
        Err(Error::MissingKeyMaterial)
    );
}

#[test]
fn set_asks_the_cipher_for_what_was_given() {
    let request =
        Biometric::set_biometric_secret("Bitwarden", "user-1", "hunter2", Some(material("k1")), IV);
    assert_eq!(
        request,
        Ok(EncryptRequest {
            service: "Bitwarden".to_string(),
            account: "user-1".to_string(),
            secret: "hunter2".to_string(),
            key_material: material("k1"),
            iv_b64: IV.to_string(),
        })
    );
}

#[test]
fn set_stores_the_ciphertext_as_the_cipher_gave_it() {
    let request =
        Biometric::set_biometric_secret("Bitwarden", "user-1", "hunter2", Some(material("k1")), IV)
            .unwrap();
    let write = request.encrypted(Ok("2.iv|data|mac".to_string())).unwrap();
    assert_eq!(
        write,
        StoreRequest {
            service: "Bitwarden".to_string(),
            account: "user-1".to_string(),
            encrypted_secret: "2.iv|data|mac".to_string(),
        }
    );
    assert_eq!(write.stored(Ok(())), Ok("2.iv|data|mac".to_string()));
}

#[test]
fn set_returns_the_failure_of_the_cipher() {
    let request =
        Biometric::set_biometric_secret("Bitwarden", "user-1", "hunter2", Some(material("k1")), "")
            .unwrap();
    assert_eq!(request.encrypted(Err(Error::InvalidChallenge)), Err(Error::InvalidChallenge));
}

#[test]
fn set_returns_the_failure_of_the_store() {
    let write = StoreRequest {
        service: "Bitwarden".to_string(),
        account: "user-1".to_string(),
        encrypted_secret: "2.iv|data|mac".to_string(),
    };
    assert_eq!(write.stored(Err(Error::ServiceUnavailable)), Err(Error::ServiceUnavailable));
}

#[test]
fn get_asks_the_store_for_the_entry() {
    assert_eq!(
        Biometric::get_biometric_secret("Bitwarden", "user-1", Some(material("k1"))),
        Ok(LoadRequest {
            service: "Bitwarden".to_string(),
            account: "user-1".to_string(),
            key_material: material("k1"),
        })
    );
}

#[test]
fn get_hands_the_entry_to_the_cipher() {
    let load = Biometric::get_biometric_secret("Bitwarden", "user-1", Some(material("k1"))).unwrap();
    assert_eq!(
        load.loaded(Ok(Some("2.iv|data|mac".to_string()))),
        Ok(DecryptRequest {
            encrypted_secret: "2.iv|data|mac".to_string(),
            key_material: material("k1"),
        })
    );
}

#[test]
fn get_returns_the_failure_of_the_store() {
    let load = Biometric::get_biometric_secret("Bitwarden", "user-1", Some(material("k1"))).unwrap();
    assert_eq!(load.loaded(Err(Error::ServiceUnavailable)), Err(Error::ServiceUnavailable));
}

#[test]
fn decrypted_maps_each_answer() {
    let request = DecryptRequest {
        encrypted_secret: "2.iv|data|mac".to_string(),
        key_material: material("k1"),
    };
    assert_eq!(
        request.clone().decrypted(Decryption::Plaintext("hunter2".to_string())),
        Ok("hunter2".to_string())
    );
    assert_eq!(
        request.clone().decrypted(Decryption::Malformed),
        Err(Error::MalformedStoredSecret)
    );
    assert_eq!(request.decrypted(Decryption::Rejected), Err(Error::DecryptionFailed));
}
