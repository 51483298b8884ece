//! The session's passphrase slot.

use vstd::prelude::*;
use vstd::string::*;

verus! {

/// Why the passphrase could not be handed out or changed.
#[derive(Debug, Clone, Copy, PartialEq, Eq)]
pub enum AppStateError {
    /// No passphrase is held.
    SecretNotSet,
    /// The lock round the slot could not be taken.
    LockFailed,
}

impl AppStateError {
    /// The text shown for this error.
    pub open spec fn message(self) -> Seq<char> {
        match self {
            AppStateError::SecretNotSet => "secret not set"@,
            AppStateError::LockFailed => "lock acquisition failed"@,
        }
    }

    /// Renders the error as text.
    pub fn to_string(&self) -> (text: String)
        ensures
            text@ == self.message(),
    {
        match self {
            AppStateError::SecretNotSet => String::from_str("secret not set"),
            AppStateError::LockFailed => String::from_str("lock acquisition failed"),
        }
    }
}

/// Holds at most one passphrase for the session. Whoever holds the state
/// exclusively may change it; a lock, where the state is shared, belongs to
/// the caller.
#[derive(Clone)]
pub struct AppState {
    secret: Option<String>,
}

impl View for AppState {
    type V = Option<Seq<char>>;

    closed spec fn view(&self) -> Option<Seq<char>> {
        match self.secret {
            Some(s) => Some(s@),
            None => None,
        }
    }
}

impl Default for AppState {
    fn default() -> (state: Self)
        ensures
            state@ is None,
    {
        AppState { secret: None }
    }
}

impl AppState {
    /// A copy of the passphrase, or `SecretNotSet` when none is held.
    pub fn get_secret(&self) -> (result: Result<String, AppStateError>)
        ensures
            match self@ {
                Some(secret) => result matches Ok(s) && s@ == secret,
                None => result == Err::<String, AppStateError>(AppStateError::SecretNotSet),
            },
    {
        match &self.secret {
            Some(s) => Ok(s.clone()),
            None => Err(AppStateError::SecretNotSet),
        }
    }

    /// Replaces whatever was held with `value`.
    pub fn set_secret(&mut self, value: String) -> (result: Result<(), AppStateError>)
        ensures
            result is Ok,
            final(self)@ == Some(value@),
    {
        self.secret = Some(value);
        Ok(())
    }

    /// Empties the slot; clearing an empty slot is not an error.
    pub fn clear_secret(&mut self) -> (result: Result<(), AppStateError>)
        ensures
            result is Ok,
            final(self)@ is None,
    {
        self.secret = None;
        Ok(())
    }
}

} // verus!
