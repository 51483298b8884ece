//! Sealing and opening under a passphrase: a key is derived afresh from the
//! passphrase and a salt for every message, and the message is encrypted with
//! AES-256-GCM under that key and a nonce.

use vstd::prelude::*;
use vstd::string::*;
use vstd::utf8::encode_utf8;
use crate::failure::renders;
use crate::failure::Failure;
use crate::key::DerivedKey;
use crate::primitives::aead_error_text;
use crate::primitives::aes256gcm_decrypt;
use crate::primitives::aes256gcm_encrypt;
use crate::primitives::aes_gcm_decrypt;
use crate::primitives::aes_gcm_encrypt;
use crate::primitives::argon2_accepts;
use crate::primitives::argon2_hash;
use crate::primitives::argon2id_key;
use crate::primitives::os_random_bytes;
use crate::primitives::sealable;
use crate::primitives::MAX_PLAINTEXT_LEN;
use crate::primitives::NONCE_LEN;
use crate::primitives::SALT_LEN;
use crate::primitives::TAG_LEN;
use crate::text::decimal;
use crate::text::decimal_string;
use crate::text::join;
use crate::text::lemma_joined_has_prefix;

verus! {

/// Why a message could not be sealed or opened.
#[derive(Debug, Clone, PartialEq, Eq)]
pub enum EncryptionError {
    /// Argon2 refused the passphrase or the salt; its own words are held.
    KeyDerivation(String),
    /// AES-GCM refused the plaintext; its own words are held.
    Encryption(String),
    /// AES-GCM rejected the ciphertext; its own words are held.
    Decryption(String),
    /// The nonce has this many bytes, not twelve.
    InvalidNonce(usize),
}

impl EncryptionError {
    /// The cause, without the words held.
    pub open spec fn kind(self) -> Failure {
        match self {
            EncryptionError::KeyDerivation(_) => Failure::KeyDerivation,
            EncryptionError::Encryption(_) => Failure::Encryption,
            EncryptionError::Decryption(_) => Failure::Decryption,
            EncryptionError::InvalidNonce(len) => Failure::InvalidNonce(len as nat),
        }
    }

    /// The text shown for this error.
    pub open spec fn message(self) -> Seq<char> {
        match self {
            EncryptionError::KeyDerivation(detail) => "key derivation failed: "@ + detail@,
            EncryptionError::Encryption(detail) => "encryption failed: "@ + detail@,
            EncryptionError::Decryption(detail) => "decryption failed: "@ + detail@,
            EncryptionError::InvalidNonce(len) => "invalid nonce length: expected 12 bytes, got "@
                + decimal(len as nat),
        }
    }

    /// Whether the words held are those that the cause calls for.
    pub open spec fn well_worded(self) -> bool {
        renders(self.kind(), self.message())
    }

    /// Renders the error as text.
    pub fn to_string(&self) -> (text: String)
        ensures
            text@ == self.message(),
    {
        match self {
            EncryptionError::KeyDerivation(detail) => join(
                "key derivation failed: ",
                detail.as_str(),
            ),
            EncryptionError::Encryption(detail) => join("encryption failed: ", detail.as_str()),
            EncryptionError::Decryption(detail) => join("decryption failed: ", detail.as_str()),
            EncryptionError::InvalidNonce(len) => {
                let digits = decimal_string(*len);
                join("invalid nonce length: expected 12 bytes, got ", digits.as_str())
            },
        }
    }
}

/// The key that a passphrase and a salt derive; `None` where Argon2 refuses
/// them.
pub open spec fn derived(secret: Seq<char>, salt: Seq<u8>) -> Option<Seq<u8>> {
    if argon2_accepts(encode_utf8(secret).len(), salt.len()) {
        Some(argon2id_key(encode_utf8(secret), salt))
    } else {
        None
    }
}

/// What sealing `plaintext` under a passphrase, a salt and a nonce comes to:
/// the ciphertext, or the cause of failure.
pub open spec fn encrypt_outcome(
    secret: Seq<char>,
    salt: Seq<u8>,
    nonce: Seq<u8>,
    plaintext: Seq<u8>,
) -> Result<Seq<u8>, Failure> {
    if nonce.len() != NONCE_LEN {
        Err(Failure::InvalidNonce(nonce.len()))
    } else {
        match derived(secret, salt) {
            None => Err(Failure::KeyDerivation),
            Some(key) => if plaintext.len() > MAX_PLAINTEXT_LEN {
                Err(Failure::Encryption)
            } else {
                Ok(aes256gcm_encrypt(key, nonce, plaintext))
            },
        }
    }
}

/// What opening `ciphertext` under a passphrase, a salt and a nonce comes to:
/// the plaintext, or the cause of failure.
pub open spec fn decrypt_outcome(
    secret: Seq<char>,
    salt: Seq<u8>,
    ciphertext: Seq<u8>,
    nonce: Seq<u8>,
) -> Result<Seq<u8>, Failure> {
    if nonce.len() != NONCE_LEN {
        Err(Failure::InvalidNonce(nonce.len()))
    } else {
        match derived(secret, salt) {
            None => Err(Failure::KeyDerivation),
            Some(key) => match aes256gcm_decrypt(key, nonce, ciphertext) {
                Some(plaintext) => Ok(plaintext),
                None => Err(Failure::Decryption),
            },
        }
    }
}

/// Whether `result` is what `outcome` calls for: the same bytes, or an error
/// of the same cause, worded as that cause is.
pub open spec fn agrees(result: Result<Vec<u8>, EncryptionError>, outcome: Result<Seq<u8>, Failure>) -> bool {
    match outcome {
        Ok(bytes) => result matches Ok(v) && v@ == bytes,
        Err(kind) => result matches Err(e) && e.kind() == kind && e.well_worded(),
    }
}

/// Sixteen fresh random bytes.
pub fn generate_salt() -> (salt: Vec<u8>)
    ensures
        salt@.len() == SALT_LEN,
{
    os_random_bytes(SALT_LEN)
}

/// Twelve fresh random bytes.
pub fn generate_nonce() -> (nonce: Vec<u8>)
    ensures
        nonce@.len() == NONCE_LEN,
{
    os_random_bytes(NONCE_LEN)
}

/// Derives the 256-bit key of a passphrase and a salt. The same passphrase
/// and salt always give the same key.
pub fn derive_key(secret: &str, salt: &[u8]) -> (result: Result<DerivedKey, EncryptionError>)
    ensures
        match derived(secret@, salt@) {
            Some(key) => result matches Ok(k) && k@ == key && k@.len() == 32,
            None => result matches Err(e) && e.kind() == Failure::KeyDerivation
                && e.well_worded(),
        },
{
    match argon2_hash(secret.as_bytes(), salt) {
        Ok(bytes) => Ok(DerivedKey::from_bytes(bytes)),
        Err(e) => {
            let detail = e.to_string();
            proof {
                lemma_joined_has_prefix("key derivation failed: "@, detail@);
            }
            Err(EncryptionError::KeyDerivation(detail))
        },
    }
}

/// Seals `plaintext` under a key and a nonce, then wipes the key.
fn seal_under(mut key: DerivedKey, nonce: &[u8], plaintext: &[u8]) -> (result: Result<
    Vec<u8>,
    EncryptionError,
>)
    requires
        nonce@.len() == NONCE_LEN,
        sealable(plaintext@.len()),
    ensures
        match result {
            Ok(sealed) => {
                &&& plaintext@.len() <= MAX_PLAINTEXT_LEN
                &&& sealed@ == aes256gcm_encrypt(key@, nonce@, plaintext@)
                &&& sealed@.len() == plaintext@.len() + TAG_LEN
                &&& aes256gcm_decrypt(key@, nonce@, sealed@) == Some(plaintext@)
            },
            Err(e) => {
                &&& plaintext@.len() > MAX_PLAINTEXT_LEN
                &&& e.kind() == Failure::Encryption
                &&& e.well_worded()
            },
        },
{
    let sealed = aes_gcm_encrypt(key.as_bytes(), nonce, plaintext);
    key.wipe();
    match sealed {
        Ok(ciphertext) => Ok(ciphertext),
        Err(e) => Err(EncryptionError::Encryption(aead_error_text(&e))),
    }
}

/// Seals `plaintext` under the key of `secret` and `salt`, with the nonce
/// given. The ciphertext ends in the 16-byte tag. Plaintext and tag must fit
/// in one allocation.
pub fn encrypt_with_nonce(secret: &str, salt: &[u8], nonce: &[u8], plaintext: &[u8]) -> (result:
    Result<Vec<u8>, EncryptionError>)
    requires
        sealable(plaintext@.len()),
    ensures
        agrees(result, encrypt_outcome(secret@, salt@, nonce@, plaintext@)),
        result matches Ok(sealed) ==> sealed@.len() == plaintext@.len() + TAG_LEN,
        result matches Ok(sealed) ==> decrypt_outcome(secret@, salt@, sealed@, nonce@) == Ok::<
            Seq<u8>,
            Failure,
        >(plaintext@),
{
    if nonce.len() != NONCE_LEN {
        return Err(EncryptionError::InvalidNonce(nonce.len()));
    }
    match derive_key(secret, salt) {
        Ok(key) => seal_under(key, nonce, plaintext),
        Err(e) => Err(e),
    }
}

/// Seals `plaintext` under the key of `secret` and `salt`, with a fresh
/// random nonce. Returns the ciphertext, which ends in the 16-byte tag, and
/// the nonce. Plaintext and tag must fit in one allocation.
pub fn encrypt(secret: &str, salt: &[u8], plaintext: &[u8]) -> (result: Result<
    (Vec<u8>, Vec<u8>),
    EncryptionError,
>)
    requires
        sealable(plaintext@.len()),
    ensures
        match result {
            Ok((sealed, nonce)) => {
                &&& nonce@.len() == NONCE_LEN
                &&& encrypt_outcome(secret@, salt@, nonce@, plaintext@) == Ok::<Seq<u8>, Failure>(
                    sealed@,
                )
                &&& sealed@.len() == plaintext@.len() + TAG_LEN
                &&& decrypt_outcome(secret@, salt@, sealed@, nonce@) == Ok::<Seq<u8>, Failure>(
                    plaintext@,
                )
            },
            Err(e) => {
                &&& e.well_worded()
                &&& e.kind() == if derived(secret@, salt@) is None {
                    Failure::KeyDerivation
                } else {
                    Failure::Encryption
                }
            },
        },
        result is Ok <==> derived(secret@, salt@) is Some && plaintext@.len()
            <= MAX_PLAINTEXT_LEN,
{
    let key = match derive_key(secret, salt) {
        Ok(key) => key,
        Err(e) => {
            return Err(e);
        },
    };
    let nonce = generate_nonce();
    match seal_under(key, nonce.as_slice(), plaintext) {
        Ok(sealed) => Ok((sealed, nonce)),
        Err(e) => Err(e),
    }
}

/// Opens `ciphertext` under the key of `secret` and `salt`, with the nonce
/// given. A nonce that is not twelve bytes long is turned away before any
/// key is derived. What is opened is the ciphertext's length less the
/// 16-byte tag.
pub fn decrypt(secret: &str, salt: &[u8], ciphertext: &[u8], nonce: &[u8]) -> (result: Result<
    Vec<u8>,
    EncryptionError,
>)
    ensures
        agrees(result, decrypt_outcome(secret@, salt@, ciphertext@, nonce@)),
        nonce@.len() == NONCE_LEN && derived(secret@, salt@) is Some && ciphertext@.len()
            < TAG_LEN ==> (result matches Err(e) && e.kind() == Failure::Decryption),
        result matches Ok(opened) ==> nonce@.len() == NONCE_LEN && opened@.len() + TAG_LEN
            == ciphertext@.len(),
{
    if nonce.len() != NONCE_LEN {
        return Err(EncryptionError::InvalidNonce(nonce.len()));
    }
    let mut key = match derive_key(secret, salt) {
        Ok(key) => key,
        Err(e) => {
            return Err(e);
        },
    };
    let opened = aes_gcm_decrypt(key.as_bytes(), nonce, ciphertext);
    key.wipe();
    match opened {
        Ok(plaintext) => Ok(plaintext),
        Err(e) => Err(EncryptionError::Decryption(aead_error_text(&e))),
    }
}

} // verus!
