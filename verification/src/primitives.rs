//! The outside primitives the library stands on: Argon2id, AES-256-GCM, the
//! operating system's random source, standard base64, UTF-8 decoding and
//! Unicode lowercasing.
//!
//! Nothing in this file is proved. Each function below makes one outside call
//! and carries a contract that the rest of the library takes on trust; each
//! bodiless spec function names what one outside call returns.

use vstd::prelude::*;
use vstd::utf8::*;
use aes_gcm::aead::Aead;
use aes_gcm::aead::KeyInit;
use aes_gcm::Aes256Gcm;
use aes_gcm::Key;
use aes_gcm::Nonce;
use argon2::password_hash::rand_core::OsRng;
use argon2::password_hash::rand_core::RngCore;
use argon2::Argon2;
use base64::engine::general_purpose::STANDARD;
use base64::Engine;

verus! {

/// Length of a salt that the library generates, in bytes.
pub const SALT_LEN: usize = 16;

/// Length of an AES-GCM nonce in bytes.
pub const NONCE_LEN: usize = 12;

/// Length of the authentication tag that closes every ciphertext, in bytes.
pub const TAG_LEN: usize = 16;

/// Shortest salt that Argon2 takes, in bytes.
pub const MIN_SALT_LEN: usize = 8;

/// Longest password and longest salt that Argon2 takes, in bytes.
pub const MAX_ARGON2_INPUT_LEN: u64 = 0xFFFF_FFFF;

/// Longest plaintext that AES-GCM seals, in bytes.
pub const MAX_PLAINTEXT_LEN: u64 = 0x10_0000_0000;

/// `argon2::Error`, carried through as an opaque value.
#[verifier::external_type_specification]
#[verifier::external_body]
pub struct ExArgon2Error(argon2::Error);

/// `aead::Error`, carried through as an opaque value.
#[verifier::external_type_specification]
#[verifier::external_body]
pub struct ExAeadError(aes_gcm::Error);

/// `base64::DecodeError`, carried through as an opaque value.
#[verifier::external_type_specification]
#[verifier::external_body]
pub struct ExDecodeError(base64::DecodeError);

/// The 32 bytes that Argon2id (version 0x13, 19 MiB of memory, two passes, one
/// lane, no secret key, no associated data) derives from a password and a
/// salt.
pub uninterp spec fn argon2id_key(password: Seq<u8>, salt: Seq<u8>) -> Seq<u8>;

/// The ciphertext, tag included, that AES-256-GCM gives for a plaintext under
/// a key and a 96-bit nonce, with no associated data.
pub uninterp spec fn aes256gcm_encrypt(key: Seq<u8>, nonce: Seq<u8>, plaintext: Seq<u8>) -> Seq<
    u8,
>;

/// The plaintext that AES-256-GCM recovers from a ciphertext under a key and
/// a 96-bit nonce, with no associated data; `None` where it rejects the
/// ciphertext.
pub uninterp spec fn aes256gcm_decrypt(key: Seq<u8>, nonce: Seq<u8>, ciphertext: Seq<u8>) -> Option<
    Seq<u8>,
>;

/// The standard-alphabet, padded base64 text of some bytes.
pub uninterp spec fn base64_encode(data: Seq<u8>) -> Seq<char>;

/// The bytes that a standard-alphabet, canonically padded base64 text stands
/// for; `None` where the text is not such an encoding.
pub uninterp spec fn base64_decode(text: Seq<char>) -> Option<Seq<u8>>;

/// The lowercase form of a text under Unicode's `Lowercase` property.
pub uninterp spec fn lowercase(text: Seq<char>) -> Seq<char>;

/// Whether Argon2 takes a password and a salt of these lengths.
pub open spec fn argon2_accepts(password_len: nat, salt_len: nat) -> bool {
    &&& password_len <= MAX_ARGON2_INPUT_LEN
    &&& MIN_SALT_LEN <= salt_len <= MAX_ARGON2_INPUT_LEN
}

/// Whether a plaintext of `len` bytes and its tag fit in one allocation on
/// this machine.
pub open spec fn sealable(len: nat) -> bool {
    len + TAG_LEN <= isize::MAX
}

/// Number of characters in the padded base64 text of `len` bytes.
pub open spec fn base64_len(len: nat) -> nat {
    4 * ((len + 2) / 3)
}

/// Whether the base64 text of `len` bytes can be allocated on this machine.
pub open spec fn base64_encodable(len: nat) -> bool {
    base64_len(len) <= isize::MAX
}

/// Calls `Argon2::default().hash_password_into` with a 32-byte output buffer.
///
/// Claimed: the call succeeds exactly when the password is at most
/// 0xFFFFFFFF bytes long and the salt between 8 and 0xFFFFFFFF bytes, which
/// are the only checks that can fail under the default parameters; and the
/// bytes it writes depend on password and salt alone.
#[verifier::external_body]
pub(crate) fn argon2_hash(password: &[u8], salt: &[u8]) -> (result: Result<
    [u8; 32],
    argon2::Error,
>)
    ensures
        result is Ok <==> argon2_accepts(password@.len(), salt@.len()),
        result matches Ok(key) ==> key@ == argon2id_key(password@, salt@),
{
    let mut key = [0u8; 32];
    match Argon2::default().hash_password_into(password, salt, &mut key) {
        Ok(()) => Ok(key),
        Err(e) => Err(e),
    }
}

/// Calls `Aead::encrypt` of `Aes256Gcm` with an empty associated data.
///
/// Claimed: the call fails exactly when the plaintext is longer than 2^36
/// bytes; the ciphertext depends on key, nonce and plaintext alone and is 16
/// bytes, the tag, longer than the plaintext; and decrypting it under the same
/// key and nonce gives the plaintext back, since decryption recomputes the
/// same tag and applies the same keystream. The call first allocates room
/// for plaintext and tag, so the two together must fit in one allocation.
#[verifier::external_body]
pub(crate) fn aes_gcm_encrypt(key: &[u8; 32], nonce: &[u8], plaintext: &[u8]) -> (result: Result<
    Vec<u8>,
    aes_gcm::Error,
>)
    requires
        nonce@.len() == NONCE_LEN,
        sealable(plaintext@.len()),
    ensures
        result is Ok <==> plaintext@.len() <= MAX_PLAINTEXT_LEN,
        result matches Ok(sealed) ==> sealed@ == aes256gcm_encrypt(key@, nonce@, plaintext@),
        result matches Ok(sealed) ==> sealed@.len() == plaintext@.len() + TAG_LEN,
        result matches Ok(sealed) ==> aes256gcm_decrypt(key@, nonce@, sealed@) == Some(
            plaintext@,
        ),
{
    Aes256Gcm::new(Key::<Aes256Gcm>::from_slice(key)).encrypt(Nonce::from_slice(nonce), plaintext)
}

/// Calls `Aead::decrypt` of `Aes256Gcm` with an empty associated data.
///
/// Claimed: whether the call succeeds, and with which plaintext, depends on
/// key, nonce and ciphertext alone; a ciphertext shorter than the 16-byte tag
/// is rejected; and the plaintext is the ciphertext's length less the tag's,
/// since the call cuts the tag off the end and decrypts the rest in place.
#[verifier::external_body]
pub(crate) fn aes_gcm_decrypt(key: &[u8; 32], nonce: &[u8], ciphertext: &[u8]) -> (result: Result<
    Vec<u8>,
    aes_gcm::Error,
>)
    requires
        nonce@.len() == NONCE_LEN,
    ensures
        match result {
            Ok(plaintext) => aes256gcm_decrypt(key@, nonce@, ciphertext@) == Some(plaintext@),
            Err(_) => aes256gcm_decrypt(key@, nonce@, ciphertext@) is None,
        },
        ciphertext@.len() < TAG_LEN ==> result is Err,
        result matches Ok(plaintext) ==> plaintext@.len() + TAG_LEN == ciphertext@.len(),
{
    Aes256Gcm::new(Key::<Aes256Gcm>::from_slice(key)).decrypt(Nonce::from_slice(nonce), ciphertext)
}

/// Calls `Display` of `aead::Error`.
///
/// Claimed: the text is always `aead::Error`; the type holds no detail.
#[verifier::external_body]
pub(crate) fn aead_error_text(error: &aes_gcm::Error) -> (text: String)
    ensures
        text@ == "aead::Error"@,
{
    error.to_string()
}

/// Calls `RngCore::fill_bytes` of `OsRng` on a fresh buffer of `len` bytes.
///
/// Claimed: only the length; which bytes come is the operating system's
/// choice. The call panics if the operating system's random source fails,
/// and nothing that the caller passes decides whether it does.
#[verifier::external_body]
pub(crate) fn os_random_bytes(len: usize) -> (bytes: Vec<u8>)
    requires
        len <= isize::MAX,
    ensures
        bytes@.len() == len,
{
    let mut bytes = vec![0u8; len];
    OsRng.fill_bytes(&mut bytes);
    bytes
}

/// Calls `Engine::encode` of base64's `STANDARD` engine.
///
/// Claimed: the text depends on the bytes alone, has four characters for
/// every three bytes begun, and decodes back to the bytes.
#[verifier::external_body]
pub(crate) fn base64_encode_standard(data: &[u8]) -> (text: String)
    requires
        base64_encodable(data@.len()),
    ensures
        text@ == base64_encode(data@),
        text@.len() == base64_len(data@.len()),
        base64_decode(text@) == Some(data@),
{
    STANDARD.encode(data)
}

/// Calls `Engine::decode` of base64's `STANDARD` engine.
///
/// Claimed: whether the call succeeds, and with which bytes, depends on the
/// text alone.
#[verifier::external_body]
pub(crate) fn base64_decode_standard(text: &str) -> (result: Result<Vec<u8>, base64::DecodeError>)
    ensures
        match result {
            Ok(data) => base64_decode(text@) == Some(data@),
            Err(_) => base64_decode(text@) is None,
        },
{
    STANDARD.decode(text)
}

/// Calls `String::from_utf8`.
///
/// Claimed: the call succeeds exactly on valid UTF-8, and the string then
/// holds the characters that the bytes encode.
#[verifier::external_body]
pub(crate) fn string_from_utf8(bytes: Vec<u8>) -> (result: Option<String>)
    ensures
        match result {
            Some(text) => valid_utf8(bytes@) && text@ == decode_utf8(bytes@),
            None => !valid_utf8(bytes@),
        },
{
    match String::from_utf8(bytes) {
        Ok(text) => Some(text),
        Err(_) => None,
    }
}

/// Calls `str::to_lowercase`.
///
/// Claimed: the result depends on the text alone.
#[verifier::external_body]
pub(crate) fn str_to_lowercase(text: &str) -> (lowered: String)
    ensures
        lowered@ == lowercase(text@),
{
    text.to_lowercase()
}

} // verus!
