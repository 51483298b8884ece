//! Sealing a text into an envelope and opening an envelope into a text, under
//! the session's passphrase.

use vstd::prelude::*;
use vstd::string::*;
use vstd::utf8::decode_utf8;
use vstd::utf8::decode_utf8_encode_utf8;
use vstd::utf8::encode_utf8;
use vstd::utf8::encode_utf8_decode_utf8;
use vstd::utf8::encode_utf8_valid_utf8;
use vstd::utf8::valid_utf8;
use crate::crypto::decrypt;
use crate::crypto::decrypt_outcome;
use crate::crypto::encrypt;
use crate::crypto::encrypt_outcome;
use crate::crypto::generate_salt;
use crate::failure::renders;
use crate::failure::Failure;
use crate::primitives::base64_decode;
use crate::primitives::base64_decode_standard;
use crate::primitives::base64_encodable;
use crate::primitives::base64_encode;
use crate::primitives::base64_encode_standard;
use crate::primitives::base64_len;
use crate::primitives::sealable;
use crate::primitives::string_from_utf8;
use crate::primitives::MAX_ARGON2_INPUT_LEN;
use crate::primitives::MAX_PLAINTEXT_LEN;
use crate::primitives::NONCE_LEN;
use crate::primitives::SALT_LEN;
use crate::primitives::TAG_LEN;
use crate::states::AppState;
use crate::text::decimal;
use crate::text::decimal_string;
use crate::text::join;
use crate::text::lemma_joined_has_prefix;

verus! {

/// Why an envelope could not be read.
#[derive(Debug, Clone, PartialEq, Eq)]
pub enum CryptoCommandError {
    /// A field is not base64; the decoder's own words are held.
    Base64Decode(String),
    /// The decrypted bytes are not UTF-8.
    Utf8,
    /// A failure of the cipher, in words.
    Crypto(String),
}

impl CryptoCommandError {
    /// The text shown for this error.
    pub open spec fn message(self) -> Seq<char> {
        match self {
            CryptoCommandError::Base64Decode(detail) => "invalid base64: "@ + detail@,
            CryptoCommandError::Utf8 => "invalid utf8"@,
            CryptoCommandError::Crypto(detail) => "crypto error: "@ + detail@,
        }
    }

    /// Renders the error as text.
    pub fn to_string(&self) -> (text: String)
        ensures
            text@ == self.message(),
    {
        match self {
            CryptoCommandError::Base64Decode(detail) => join("invalid base64: ", detail.as_str()),
            CryptoCommandError::Utf8 => String::from_str("invalid utf8"),
            CryptoCommandError::Crypto(detail) => join("crypto error: ", detail.as_str()),
        }
    }
}

/// One sealed message as it travels: nonce, ciphertext and salt, each in
/// standard base64.
#[derive(Debug, Clone, PartialEq, Eq)]
pub struct EncryptedPayload {
    /// The 12-byte nonce.
    pub iv: String,
    /// The ciphertext, which ends in the 16-byte tag.
    pub ciphertext: String,
    /// The 16-byte salt.
    pub salt: String,
}

impl EncryptedPayload {
    /// Whether the three fields are the base64 texts of these bytes.
    pub open spec fn carries(self, iv: Seq<u8>, ciphertext: Seq<u8>, salt: Seq<u8>) -> bool {
        &&& self.iv@ == base64_encode(iv)
        &&& self.ciphertext@ == base64_encode(ciphertext)
        &&& self.salt@ == base64_encode(salt)
        &&& base64_decode(self.iv@) == Some(iv)
        &&& base64_decode(self.ciphertext@) == Some(ciphertext)
        &&& base64_decode(self.salt@) == Some(salt)
        &&& self.iv@.len() == base64_len(iv.len())
        &&& self.ciphertext@.len() == base64_len(ciphertext.len())
        &&& self.salt@.len() == base64_len(salt.len())
    }

    /// The envelope of a nonce, a ciphertext and a salt; `None` where the
    /// text of one of them would be too long to allocate on this machine.
    pub fn encode(iv: &[u8], ciphertext: &[u8], salt: &[u8]) -> (payload: Option<Self>)
        ensures
            payload is Some <==> base64_encodable(iv@.len()) && base64_encodable(
                ciphertext@.len(),
            ) && base64_encodable(salt@.len()),
            payload matches Some(payload) ==> payload.carries(iv@, ciphertext@, salt@),
    {
        if encodable(iv.len()) && encodable(ciphertext.len()) && encodable(salt.len()) {
            Some(
                EncryptedPayload {
                    iv: base64_encode_standard(iv),
                    ciphertext: base64_encode_standard(ciphertext),
                    salt: base64_encode_standard(salt),
                },
            )
        } else {
            None
        }
    }
}

/// Whether the base64 text of `len` bytes can be allocated on this machine.
fn encodable(len: usize) -> (fits: bool)
    ensures
        fits == base64_encodable(len as nat),
{
    if len > usize::MAX - 2 {
        false
    } else {
        (len + 2) / 3 <= (isize::MAX as usize) / 4
    }
}

/// Why sealing `plaintext` under the passphrase held fails, if it does. The
/// salt and the nonce are the library's own, so they decide nothing. An
/// envelope too large to allocate is a limit of the machine, not of the
/// cipher: where addresses are 64 bits wide, no text that fits in memory
/// meets it.
pub open spec fn seal_failure(secret: Option<Seq<char>>, plaintext: Seq<char>) -> Option<Failure> {
    match secret {
        None => Some(Failure::SecretNotSet),
        Some(secret) => if !base64_encodable(encode_utf8(plaintext).len() + TAG_LEN as nat) {
            Some(Failure::EnvelopeTooLarge)
        } else if encode_utf8(secret).len() > MAX_ARGON2_INPUT_LEN {
            Some(Failure::KeyDerivation)
        } else if encode_utf8(plaintext).len() > MAX_PLAINTEXT_LEN {
            Some(Failure::Encryption)
        } else {
            None
        },
    }
}

/// What opening `payload` under the passphrase held comes to: the text, or
/// the cause of failure. The three fields must decode and the salt must be
/// sixteen bytes long before the nonce is looked at or a key is derived.
pub open spec fn open_outcome(secret: Option<Seq<char>>, payload: EncryptedPayload) -> Result<
    Seq<char>,
    Failure,
> {
    match (
        secret,
        base64_decode(payload.salt@),
        base64_decode(payload.iv@),
        base64_decode(payload.ciphertext@),
    ) {
        (None, _, _, _) => Err(Failure::SecretNotSet),
        (Some(secret), Some(salt), Some(iv), Some(ciphertext)) => if salt.len() != SALT_LEN {
            Err(Failure::InvalidEncoding)
        } else {
            match decrypt_outcome(secret, salt, ciphertext, iv) {
                Err(kind) => Err(kind),
                Ok(bytes) => if valid_utf8(bytes) {
                    Ok(decode_utf8(bytes))
                } else {
                    Err(Failure::InvalidUtf8)
                },
            }
        },
        _ => Err(Failure::InvalidEncoding),
    }
}

/// The message for a salt of `len` bytes where sixteen are needed.
pub open spec fn wrong_salt_message(len: nat) -> Seq<char> {
    "invalid base64: "@ + ("invalid salt length: expected 16 bytes, got "@ + decimal(len))
}

/// Whether a plaintext of `len` bytes, once sealed, can be written as base64
/// on this machine.
fn fits_envelope(len: usize) -> (fits: bool)
    ensures
        fits == base64_encodable((len + TAG_LEN) as nat),
        fits ==> sealable(len as nat),
{
    len <= usize::MAX - TAG_LEN && encodable(len + TAG_LEN)
}

/// The message for an envelope that cannot be allocated.
fn envelope_too_large() -> (text: String)
    ensures
        renders(Failure::EnvelopeTooLarge, text@),
{
    CryptoCommandError::Crypto(String::from_str("envelope too large")).to_string()
}

/// Decodes one field of an envelope.
pub fn decode_field(text: &str) -> (result: Result<Vec<u8>, CryptoCommandError>)
    ensures
        match base64_decode(text@) {
            Some(bytes) => result matches Ok(v) && v@ == bytes,
            None => result matches Err(CryptoCommandError::Base64Decode(_)),
        },
{
    match base64_decode_standard(text) {
        Ok(bytes) => Ok(bytes),
        Err(e) => Err(CryptoCommandError::Base64Decode(e.to_string())),
    }
}

/// Seals `plaintext` under the session's passphrase, with a fresh salt and a
/// fresh nonce. The envelope that comes back opens, under the same
/// passphrase, to `plaintext`.
pub fn encrypt_message(plaintext: String, state: &AppState) -> (result: Result<
    EncryptedPayload,
    String,
>)
    ensures
        state@ is None ==> (result matches Err(text) && text@ == "secret not set"@),
        match seal_failure(state@, plaintext@) {
            Some(kind) => result matches Err(text) && renders(kind, text@),
            None => result is Ok,
        },
        result matches Ok(payload) ==> state@ is Some && exists|salt: Seq<u8>, iv: Seq<u8>|
            {
                &&& salt.len() == SALT_LEN
                &&& iv.len() == NONCE_LEN
                &&& #[trigger] encrypt_outcome(state@->0, salt, iv, encode_utf8(plaintext@))
                    matches Ok(sealed)
                &&& sealed.len() == encode_utf8(plaintext@).len() + TAG_LEN
                &&& payload.carries(iv, sealed, salt)
            },
        result matches Ok(payload) ==> {
            &&& payload.salt@.len() == base64_len(SALT_LEN as nat)
            &&& payload.iv@.len() == base64_len(NONCE_LEN as nat)
            &&& payload.ciphertext@.len() == base64_len(
                (encode_utf8(plaintext@).len() + TAG_LEN) as nat,
            )
        },
        result matches Ok(payload) ==> open_outcome(state@, payload) == Ok::<Seq<char>, Failure>(
            plaintext@,
        ),
{
    let secret = match state.get_secret() {
        Ok(secret) => secret,
        Err(e) => {
            return Err(e.to_string());
        },
    };
    let text = plaintext.as_str().as_bytes();
    if !fits_envelope(text.len()) {
        return Err(envelope_too_large());
    }
    let salt = generate_salt();
    let (sealed, iv) = match encrypt(secret.as_str(), salt.as_slice(), text) {
        Ok(pair) => pair,
        Err(e) => {
            return Err(e.to_string());
        },
    };
    let payload = match EncryptedPayload::encode(iv.as_slice(), sealed.as_slice(), salt.as_slice()) {
        Some(payload) => payload,
        None => {
            return Err(envelope_too_large());
        },
    };
    proof {
        encode_utf8_valid_utf8(plaintext@);
        encode_utf8_decode_utf8(plaintext@);
        assert(encrypt_outcome(state@->0, salt@, iv@, encode_utf8(plaintext@)) == Ok::<
            Seq<u8>,
            Failure,
        >(sealed@));
    }
    Ok(payload)
}

/// Decodes one field of an envelope, or words why it does not decode.
fn decode_or_message(text: &str) -> (result: Result<Vec<u8>, String>)
    ensures
        match base64_decode(text@) {
            Some(bytes) => result matches Ok(v) && v@ == bytes,
            None => result matches Err(message) && renders(Failure::InvalidEncoding, message@),
        },
{
    match decode_field(text) {
        Ok(bytes) => Ok(bytes),
        Err(e) => {
            proof {
                lemma_joined_has_prefix("invalid base64: "@, e->Base64Decode_0@);
            }
            Err(e.to_string())
        },
    }
}

/// The message for a salt of `len` bytes where sixteen are needed.
fn wrong_salt(len: usize) -> (message: String)
    ensures
        message@ == wrong_salt_message(len as nat),
        renders(Failure::InvalidEncoding, message@),
{
    let digits = decimal_string(len);
    let detail = join("invalid salt length: expected 16 bytes, got ", digits.as_str());
    proof {
        lemma_joined_has_prefix("invalid base64: "@, detail@);
    }
    CryptoCommandError::Base64Decode(detail).to_string()
}

/// Opens `payload` under the session's passphrase. The fields are decoded,
/// the salt is checked to be sixteen bytes and the nonce twelve, the key is
/// derived from the passphrase and the salt, the ciphertext is authenticated
/// and decrypted, and the bytes are read as UTF-8.
pub fn decrypt_message(payload: EncryptedPayload, state: &AppState) -> (result: Result<
    String,
    String,
>)
    ensures
        state@ is None ==> (result matches Err(text) && text@ == "secret not set"@),
        match open_outcome(state@, payload) {
            Ok(plaintext) => result matches Ok(text) && text@ == plaintext,
            Err(kind) => result matches Err(text) && renders(kind, text@),
        },
        match (
            state@,
            base64_decode(payload.salt@),
            base64_decode(payload.iv@),
            base64_decode(payload.ciphertext@),
        ) {
            (Some(_), Some(salt), Some(_), Some(_)) => salt.len() != SALT_LEN ==> (
            result matches Err(text) && text@ == wrong_salt_message(salt.len())),
            _ => true,
        },
        result matches Ok(text) ==> {
            &&& base64_decode(payload.salt@) matches Some(salt) && salt.len() == SALT_LEN
            &&& base64_decode(payload.iv@) matches Some(iv) && iv.len() == NONCE_LEN
            &&& base64_decode(payload.ciphertext@) matches Some(sealed) && sealed.len()
                == encode_utf8(text@).len() + TAG_LEN
        },
{
    let secret = match state.get_secret() {
        Ok(secret) => secret,
        Err(e) => {
            return Err(e.to_string());
        },
    };
    let salt = match decode_or_message(payload.salt.as_str()) {
        Ok(bytes) => bytes,
        Err(message) => {
            return Err(message);
        },
    };
    let iv = match decode_or_message(payload.iv.as_str()) {
        Ok(bytes) => bytes,
        Err(message) => {
            return Err(message);
        },
    };
    let ciphertext = match decode_or_message(payload.ciphertext.as_str()) {
        Ok(bytes) => bytes,
        Err(message) => {
            return Err(message);
        },
    };
    if salt.len() != SALT_LEN {
        return Err(wrong_salt(salt.len()));
    }
    let plaintext = match decrypt(
        secret.as_str(),
        salt.as_slice(),
        ciphertext.as_slice(),
        iv.as_slice(),
    ) {
        Ok(bytes) => bytes,
        Err(e) => {
            return Err(e.to_string());
        },
    };
    proof {
        if valid_utf8(plaintext@) {
            decode_utf8_encode_utf8(plaintext@);
        }
    }
    match string_from_utf8(plaintext) {
        Some(text) => Ok(text),
        None => Err(CryptoCommandError::Utf8.to_string()),
    }
}

} // verus!
