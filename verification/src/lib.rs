//! Envelope encryption for clipboard contents, and the lifecycle of the
//! passphrase that keys it.
//!
//! A message is sealed under a key that Argon2id derives from the session's
//! passphrase and a salt drawn for that message alone, with AES-256-GCM and a
//! nonce drawn for that message alone. Salt, nonce and ciphertext travel
//! together, each in base64, and open again only under the same passphrase.
//!
//! - [`states`] holds the passphrase.
//! - [`commands`] seals and opens envelopes under the passphrase held.
//! - [`crypto`] seals and opens bytes under a passphrase given.
//! - [`manager`] seals and opens bytes under a key given.
//! - [`failure`] names the ways in which any of this fails.
//! - [`primitives`] states what is taken on trust of the ciphers and codecs.
//! - [`logging`] reads the shell's log level.

pub mod commands;
pub mod crypto;
pub mod failure;
pub mod key;
pub mod logging;
pub mod manager;
pub mod primitives;
pub mod states;
pub mod text;
