//! The ways in which sealing and opening can fail, and the text of each.

use vstd::prelude::*;
use crate::text::decimal;
use crate::text::has_prefix;

verus! {

/// One cause of failure, without the detail that an outside primitive may
/// add to it.
pub enum Failure {
    /// No passphrase is held.
    SecretNotSet,
    /// The lock round the passphrase could not be taken.
    LockFailed,
    /// A field of an envelope is not base64, or the salt it holds is not
    /// sixteen bytes long.
    InvalidEncoding,
    /// A nonce of this many bytes was given where twelve are needed.
    InvalidNonce(nat),
    /// Argon2 refused the passphrase or the salt.
    KeyDerivation,
    /// AES-GCM refused the plaintext.
    Encryption,
    /// AES-GCM rejected the ciphertext: it was changed, or the key is not the
    /// one it was sealed under.
    Decryption,
    /// The decrypted bytes are not UTF-8.
    InvalidUtf8,
    /// The envelope would be too long to allocate on this machine.
    EnvelopeTooLarge,
}

/// Whether `text` is a message for a failure of this kind. Where an outside
/// primitive words the detail, only the opening is fixed. An envelope whose
/// salt has the wrong size is counted with those whose fields do not decode,
/// and its message opens as theirs does.
pub open spec fn renders(kind: Failure, text: Seq<char>) -> bool {
    match kind {
        Failure::SecretNotSet => text == "secret not set"@,
        Failure::LockFailed => text == "lock acquisition failed"@,
        Failure::InvalidEncoding => has_prefix(text, "invalid base64: "@),
        Failure::InvalidNonce(len) => text == "invalid nonce length: expected 12 bytes, got "@
            + decimal(len),
        Failure::KeyDerivation => has_prefix(text, "key derivation failed: "@),
        Failure::Encryption => text == "encryption failed: "@ + "aead::Error"@,
        Failure::Decryption => text == "decryption failed: "@ + "aead::Error"@,
        Failure::InvalidUtf8 => text == "invalid utf8"@,
        Failure::EnvelopeTooLarge => text == "crypto error: "@ + "envelope too large"@,
    }
}

} // verus!
