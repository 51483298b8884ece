//! Sealing and opening under a key that the caller holds, and a slot for the
//! passphrase the key is derived from.

use vstd::prelude::*;
use vstd::string::*;
use crate::crypto::derived;
use crate::key::DerivedKey;
use crate::primitives::aead_error_text;
use crate::primitives::aes256gcm_decrypt;
use crate::primitives::aes256gcm_encrypt;
use crate::primitives::aes_gcm_decrypt;
use crate::primitives::aes_gcm_encrypt;
use crate::primitives::argon2_hash;
use crate::primitives::os_random_bytes;
use crate::primitives::sealable;
use crate::primitives::MAX_PLAINTEXT_LEN;
use crate::primitives::NONCE_LEN;
use crate::primitives::SALT_LEN;
use crate::primitives::TAG_LEN;
use crate::text::decimal;
use crate::text::decimal_string;
use crate::text::join;

verus! {

/// Why an operation of this module failed; each variant holds the detail.
#[derive(Debug, Clone, PartialEq, Eq)]
pub enum CryptoError {
    /// Argon2 refused the passphrase or the salt.
    KeyDerivation(String),
    /// AES-GCM refused the plaintext.
    Encryption(String),
    /// AES-GCM rejected the ciphertext.
    Decryption(String),
    /// The passphrase slot could not serve the request.
    State(String),
    /// The nonce has this many bytes, not twelve.
    InvalidNonce(usize),
}

impl CryptoError {
    /// The text shown for this error.
    pub open spec fn message(self) -> Seq<char> {
        match self {
            CryptoError::KeyDerivation(detail) => "Argon2 error: "@ + detail@,
            CryptoError::Encryption(detail) => "Encryption failed: "@ + detail@,
            CryptoError::Decryption(detail) => "Decryption failed: "@ + detail@,
            CryptoError::State(detail) => "State error: "@ + detail@,
            CryptoError::InvalidNonce(len) => "Invalid nonce length: expected 12 bytes, got "@
                + decimal(len as nat),
        }
    }

    /// Renders the error as text.
    pub fn to_string(&self) -> (text: String)
        ensures
            text@ == self.message(),
    {
        match self {
            CryptoError::KeyDerivation(detail) => join("Argon2 error: ", detail.as_str()),
            CryptoError::Encryption(detail) => join("Encryption failed: ", detail.as_str()),
            CryptoError::Decryption(detail) => join("Decryption failed: ", detail.as_str()),
            CryptoError::State(detail) => join("State error: ", detail.as_str()),
            CryptoError::InvalidNonce(len) => {
                let digits = decimal_string(*len);
                join("Invalid nonce length: expected 12 bytes, got ", digits.as_str())
            },
        }
    }
}

/// Holds at most one passphrase.
pub struct CryptoState {
    secret: Option<String>,
}

impl View for CryptoState {
    type V = Option<Seq<char>>;

    closed spec fn view(&self) -> Option<Seq<char>> {
        match self.secret {
            Some(s) => Some(s@),
            None => None,
        }
    }
}

impl Default for CryptoState {
    fn default() -> (state: Self)
        ensures
            state@ is None,
    {
        CryptoState { secret: None }
    }
}

impl CryptoState {
    /// Replaces whatever was held with `secret`.
    pub fn set_secret(&mut self, secret: String) -> (result: Result<(), CryptoError>)
        ensures
            result is Ok,
            final(self)@ == Some(secret@),
    {
        self.secret = Some(secret);
        Ok(())
    }

    /// A copy of the passphrase, or a `State` error when none is held.
    pub fn get_secret(&self) -> (result: Result<String, CryptoError>)
        ensures
            match self@ {
                Some(secret) => result matches Ok(s) && s@ == secret,
                None => result matches Err(CryptoError::State(detail)) && detail@
                    == "Secret not set"@,
            },
    {
        match &self.secret {
            Some(s) => Ok(s.clone()),
            None => Err(CryptoError::State(String::from_str("Secret not set"))),
        }
    }
}

/// The operations on salts, keys and ciphertexts.
pub struct CryptoManager;

impl CryptoManager {
    /// Sixteen fresh random bytes.
    pub fn generate_salt() -> (salt: Vec<u8>)
        ensures
            salt@.len() == SALT_LEN,
    {
        os_random_bytes(SALT_LEN)
    }

    /// Derives the 256-bit key of a passphrase and a salt. The same
    /// passphrase and salt always give the same key.
    pub fn derive_key(secret: &str, salt: &[u8]) -> (result: Result<DerivedKey, CryptoError>)
        ensures
            match derived(secret@, salt@) {
                Some(key) => result matches Ok(k) && k@ == key && k@.len() == 32,
                None => result matches Err(CryptoError::KeyDerivation(_)),
            },
    {
        match argon2_hash(secret.as_bytes(), salt) {
            Ok(bytes) => Ok(DerivedKey::from_bytes(bytes)),
            Err(e) => Err(CryptoError::KeyDerivation(e.to_string())),
        }
    }

    /// Seals `data` under `key` with the nonce given. A nonce that is not
    /// twelve bytes long is turned away before the cipher is reached. The
    /// ciphertext ends in the 16-byte tag, and opens under the same key and
    /// nonce to `data`. Data and tag must fit in one allocation.
    pub fn encrypt_with_nonce(key: &DerivedKey, nonce: &[u8], data: &[u8]) -> (result: Result<
        Vec<u8>,
        CryptoError,
    >)
        requires
            sealable(data@.len()),
        ensures
            nonce@.len() != NONCE_LEN ==> (result matches Err(CryptoError::InvalidNonce(len))
                && len == nonce@.len()),
            nonce@.len() == NONCE_LEN ==> match result {
                Ok(sealed) => {
                    &&& data@.len() <= MAX_PLAINTEXT_LEN
                    &&& sealed@ == aes256gcm_encrypt(key@, nonce@, data@)
                    &&& sealed@.len() == data@.len() + TAG_LEN
                    &&& aes256gcm_decrypt(key@, nonce@, sealed@) == Some(data@)
                },
                Err(e) => {
                    &&& data@.len() > MAX_PLAINTEXT_LEN
                    &&& e matches CryptoError::Encryption(detail)
                    &&& detail@ == "aead::Error"@
                },
            },
    {
        if nonce.len() != NONCE_LEN {
            return Err(CryptoError::InvalidNonce(nonce.len()));
        }
        match aes_gcm_encrypt(key.as_bytes(), nonce, data) {
            Ok(sealed) => Ok(sealed),
            Err(e) => Err(CryptoError::Encryption(aead_error_text(&e))),
        }
    }

    /// Seals `data` under `key` with a fresh random nonce. Returns the
    /// ciphertext, which ends in the 16-byte tag, and the nonce. Data and tag
    /// must fit in one allocation.
    pub fn encrypt(key: &DerivedKey, data: &[u8]) -> (result: Result<
        (Vec<u8>, Vec<u8>),
        CryptoError,
    >)
        requires
            sealable(data@.len()),
        ensures
            match result {
                Ok((sealed, nonce)) => {
                    &&& data@.len() <= MAX_PLAINTEXT_LEN
                    &&& nonce@.len() == NONCE_LEN
                    &&& sealed@ == aes256gcm_encrypt(key@, nonce@, data@)
                    &&& sealed@.len() == data@.len() + TAG_LEN
                    &&& aes256gcm_decrypt(key@, nonce@, sealed@) == Some(data@)
                },
                Err(e) => {
                    &&& data@.len() > MAX_PLAINTEXT_LEN
                    &&& e matches CryptoError::Encryption(detail)
                    &&& detail@ == "aead::Error"@
                },
            },
    {
        let nonce = os_random_bytes(NONCE_LEN);
        match CryptoManager::encrypt_with_nonce(key, nonce.as_slice(), data) {
            Ok(sealed) => Ok((sealed, nonce)),
            Err(e) => Err(e),
        }
    }

    /// Opens `ciphertext` under `key` and `nonce`. A nonce that is not twelve
    /// bytes long is turned away before the cipher is reached. What is opened
    /// is the ciphertext's length less the 16-byte tag.
    pub fn decrypt(key: &DerivedKey, ciphertext: &[u8], nonce: &[u8]) -> (result: Result<
        Vec<u8>,
        CryptoError,
    >)
        ensures
            nonce@.len() != NONCE_LEN ==> (result matches Err(CryptoError::InvalidNonce(len))
                && len == nonce@.len()),
            nonce@.len() == NONCE_LEN ==> match aes256gcm_decrypt(key@, nonce@, ciphertext@) {
                Some(plaintext) => result matches Ok(opened) && opened@ == plaintext,
                None => result matches Err(CryptoError::Decryption(detail)) && detail@
                    == "aead::Error"@,
            },
            nonce@.len() == NONCE_LEN && ciphertext@.len() < TAG_LEN ==> (result matches Err(
                CryptoError::Decryption(_),
            )),
            result matches Ok(opened) ==> nonce@.len() == NONCE_LEN && opened@.len() + TAG_LEN
                == ciphertext@.len(),
    {
        if nonce.len() != NONCE_LEN {
            return Err(CryptoError::InvalidNonce(nonce.len()));
        }
        match aes_gcm_decrypt(key.as_bytes(), nonce, ciphertext) {
            Ok(plaintext) => Ok(plaintext),
            Err(e) => Err(CryptoError::Decryption(aead_error_text(&e))),
        }
    }
}

} // verus!
