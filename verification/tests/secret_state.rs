use clipboard_sync::commands::secret::set_secret;
use clipboard_sync::commands::secret::unset_secret;
use clipboard_sync::manager::CryptoError;
use clipboard_sync::manager::CryptoState;
use clipboard_sync::states::AppState;
use clipboard_sync::states::AppStateError;

#[test]
fn fresh_state_holds_no_secret() {
    let state = AppState::default();
    assert_eq!(state.get_secret(), Err(AppStateError::SecretNotSet));
}

#[test]
fn set_then_get_returns_the_secret() {
    let mut state = AppState::default();
    assert_eq!(state.set_secret("correct horse battery staple".to_string()), Ok(()));
    assert_eq!(state.get_secret(), Ok("correct horse battery staple".to_string()));
}

#[test]
fn get_does_not_consume_the_secret() {
    let mut state = AppState::default();
    state.set_secret("s".to_string()).unwrap();
    assert_eq!(state.get_secret(), Ok("s".to_string()));
    assert_eq!(state.get_secret(), Ok("s".to_string()));
}

#[test]
fn set_replaces_the_old_secret() {
    let mut state = AppState::default();
    state.set_secret("first".to_string()).unwrap();
    state.set_secret("second".to_string()).unwrap();
    assert_eq!(state.get_secret(), Ok("second".to_string()));
}

#[test]
fn empty_secret_counts_as_set() {
    let mut state = AppState::default();
    state.set_secret(String::new()).unwrap();
    assert_eq!(state.get_secret(), Ok(String::new()));
}

#[test]
fn clear_removes_the_secret() {
    let mut state = AppState::default();
    state.set_secret("s".to_string()).unwrap();
    assert_eq!(state.clear_secret(), Ok(()));
    assert_eq!(state.get_secret(), Err(AppStateError::SecretNotSet));
}

#[test]
fn clear_is_idempotent() {
    let mut state = AppState::default();
    assert_eq!(state.clear_secret(), Ok(()));
    assert_eq!(state.clear_secret(), Ok(()));
    assert_eq!(state.get_secret(), Err(AppStateError::SecretNotSet));
}

#[test]
fn app_state_error_texts() {
    assert_eq!(AppStateError::SecretNotSet.to_string(), "secret not set");
    assert_eq!(AppStateError::LockFailed.to_string(), "lock acquisition failed");
}

#[test]
fn set_secret_command_fills_the_slot() {
    let mut state = AppState::default();
    assert_eq!(set_secret("pw".to_string(), &mut state), Ok(()));
    assert_eq!(state.get_secret(), Ok("pw".to_string()));
}

#[test]
fn unset_secret_command_empties_the_slot() {
    let mut state = AppState::default();
    set_secret("pw".to_string(), &mut state).unwrap();
    assert_eq!(unset_secret(&mut state), Ok(()));
    assert_eq!(state.get_secret(), Err(AppStateError::SecretNotSet));
    assert_eq!(unset_secret(&mut state), Ok(()));
}

#[test]
fn crypto_state_starts_empty() {
    let state = CryptoState::default();
    assert_eq!(state.get_secret(), Err(CryptoError::State("Secret not set".to_string())));
}

#[test]
fn crypto_state_set_then_get() {
    let mut state = CryptoState::default();
    assert_eq!(state.set_secret("one".to_string()), Ok(()));
    assert_eq!(state.get_secret(), Ok("one".to_string()));
    assert_eq!(state.set_secret("two".to_string()), Ok(()));
    assert_eq!(state.get_secret(), Ok("two".to_string()));
}

#[test]
fn crypto_error_texts() {
    assert_eq!(
        CryptoError::KeyDerivation("salt is too short".to_string()).to_string(),
        "Argon2 error: salt is too short"
    );
    assert_eq!(
        CryptoError::Encryption("aead::Error".to_string()).to_string(),
        "Encryption failed: aead::Error"
    );
    assert_eq!(
        CryptoError::Decryption("aead::Error".to_string()).to_string(),
        "Decryption failed: aead::Error"
    );
    assert_eq!(
        CryptoError::State("Secret not set".to_string()).to_string(),
        "State error: Secret not set"
    );
}

#[test]
fn state_shared_behind_a_lock() {
    let shared = std::sync::Mutex::new(AppState::default());
    {
        let mut held = shared.lock().unwrap();
        assert_eq!(set_secret("pw".to_string(), &mut held), Ok(()));
    }
    let copy = shared.lock().unwrap().clone();
    assert_eq!(copy.get_secret(), Ok("pw".to_string()));
    {
        let mut held = shared.lock().unwrap();
        assert_eq!(unset_secret(&mut held), Ok(()));
    }
    assert_eq!(copy.get_secret(), Ok("pw".to_string()));
    assert_eq!(
        shared.lock().unwrap().get_secret(),
        Err(AppStateError::SecretNotSet)
    );
}

#[test]
fn crypto_state_shared_behind_a_lock() {
    let shared = std::sync::Mutex::new(CryptoState::default());
    assert_eq!(
        shared.lock().unwrap().get_secret(),
        Err(CryptoError::State("Secret not set".to_string()))
    );
    assert_eq!(shared.lock().unwrap().set_secret("pw".to_string()), Ok(()));
    assert_eq!(shared.lock().unwrap().get_secret(), Ok("pw".to_string()));
}
