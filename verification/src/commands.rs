//! The operations offered to the front end.

pub mod crypto;
pub mod secret;
