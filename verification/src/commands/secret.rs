//! Setting and clearing the session's passphrase.

use vstd::prelude::*;
use crate::states::AppState;

verus! {

/// Makes `secret` the session's passphrase, in place of any other.
pub fn set_secret(secret: String, state: &mut AppState) -> (result: Result<(), String>)
    ensures
        result is Ok,
        final(state)@ == Some(secret@),
{
    match state.set_secret(secret) {
        Ok(()) => Ok(()),
        Err(e) => Err(e.to_string()),
    }
}

/// Forgets the session's passphrase, if there is one.
pub fn unset_secret(state: &mut AppState) -> (result: Result<(), String>)
    ensures
        result is Ok,
        final(state)@ is None,
{
    match state.clear_secret() {
        Ok(()) => Ok(()),
        Err(e) => Err(e.to_string()),
    }
}

} // verus!
