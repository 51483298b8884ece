use clipboard_sync::commands::crypto::decode_field;
use clipboard_sync::commands::crypto::decrypt_message;
use clipboard_sync::commands::crypto::encrypt_message;
use clipboard_sync::commands::crypto::CryptoCommandError;
use clipboard_sync::commands::crypto::EncryptedPayload;
use clipboard_sync::crypto::encrypt_with_nonce;
use clipboard_sync::states::AppState;

fn state_with(secret: &str) -> AppState {
    let mut state = AppState::default();
    state.set_secret(secret.to_string()).unwrap();
    state
}

fn is_base64(text: &str) -> bool {
    text.len() % 4 == 0
        && text
            .bytes()
            .all(|c| c.is_ascii_alphanumeric() || c == b'+' || c == b'/' || c == b'=')
}

fn flip(text: &str, bit: usize) -> String {
    let mut bytes = decode_field(text).unwrap();
    bytes[bit / 8] ^= 1 << (bit % 8);
    EncryptedPayload::encode(&bytes, &[], &[]).unwrap().iv
}

const SALT: [u8; 16] = [0, 1, 2, 3, 4, 5, 6, 7, 8, 9, 10, 11, 12, 13, 14, 15];
const NONCE: [u8; 12] = [9, 8, 7, 6, 5, 4, 3, 2, 1, 0, 1, 2];

#[test]
fn encode_writes_standard_base64() {
    let payload = EncryptedPayload::encode(b"f", b"fo", b"foo").unwrap();
    assert_eq!(payload.iv, "Zg==");
    assert_eq!(payload.ciphertext, "Zm8=");
    assert_eq!(payload.salt, "Zm9v");
    let payload = EncryptedPayload::encode(b"foob", b"fooba", b"foobar").unwrap();
    assert_eq!(payload.iv, "Zm9vYg==");
    assert_eq!(payload.ciphertext, "Zm9vYmE=");
    assert_eq!(payload.salt, "Zm9vYmFy");
    let payload = EncryptedPayload::encode(&[0xfb, 0xff], &[0xff, 0xec, 0x20, 0x55, 0], b"").unwrap();
    assert_eq!(payload.iv, "+/8=");
    assert_eq!(payload.ciphertext, "/+wgVQA=");
    assert_eq!(payload.salt, "");
}

#[test]
fn decode_field_reads_standard_base64() {
    assert_eq!(decode_field(""), Ok(Vec::new()));
    assert_eq!(decode_field("Zg=="), Ok(b"f".to_vec()));
    assert_eq!(decode_field("Zm8="), Ok(b"fo".to_vec()));
    assert_eq!(decode_field("Zm9vYmFy"), Ok(b"foobar".to_vec()));
    assert_eq!(decode_field("+uwgVQA="), Ok(vec![0xfa, 0xec, 0x20, 0x55, 0]));
}

#[test]
fn decode_field_rejects_what_is_not_standard_base64() {
    assert_eq!(
        decode_field("Zm9v!mFy"),
        Err(CryptoCommandError::Base64Decode("Invalid symbol 33, offset 4.".to_string()))
    );
    assert!(matches!(decode_field("Zg"), Err(CryptoCommandError::Base64Decode(_))));
    assert!(matches!(decode_field("Zg="), Err(CryptoCommandError::Base64Decode(_))));
    assert!(matches!(decode_field("Zh=="), Err(CryptoCommandError::Base64Decode(_))));
    assert!(matches!(decode_field("Zm9v\n"), Err(CryptoCommandError::Base64Decode(_))));
    assert!(matches!(decode_field("-_-_"), Err(CryptoCommandError::Base64Decode(_))));
    assert!(matches!(decode_field("Z"), Err(CryptoCommandError::Base64Decode(_))));
}

#[test]
fn command_error_texts() {
    assert_eq!(
        CryptoCommandError::Base64Decode("Invalid padding".to_string()).to_string(),
        "invalid base64: Invalid padding"
    );
    assert_eq!(CryptoCommandError::Utf8.to_string(), "invalid utf8");
    assert_eq!(
        CryptoCommandError::Crypto("envelope too large".to_string()).to_string(),
        "crypto error: envelope too large"
    );
}

#[test]
fn hello_round_trip() {
    let state = state_with("correct horse battery staple");
    let envelope = encrypt_message("hello".to_string(), &state).unwrap();
    assert!(!envelope.iv.is_empty());
    assert!(!envelope.ciphertext.is_empty());
    assert!(!envelope.salt.is_empty());
    assert!(is_base64(&envelope.iv));
    assert!(is_base64(&envelope.ciphertext));
    assert!(is_base64(&envelope.salt));
    assert_eq!(decrypt_message(envelope, &state), Ok("hello".to_string()));
}

#[test]
fn envelope_fields_have_the_stated_sizes() {
    let state = state_with("correct horse battery staple");
    let envelope = encrypt_message("hello".to_string(), &state).unwrap();
    assert_eq!(decode_field(&envelope.salt).unwrap().len(), 16);
    assert_eq!(decode_field(&envelope.iv).unwrap().len(), 12);
    assert_eq!(decode_field(&envelope.ciphertext).unwrap().len(), 5 + 16);
    assert_eq!(envelope.salt.len(), 24);
    assert_eq!(envelope.iv.len(), 16);
    assert_eq!(envelope.ciphertext.len(), 28);
}

#[test]
fn envelope_is_the_sealing_of_its_own_salt_and_nonce() {
    let state = state_with("correct horse battery staple");
    let envelope = encrypt_message("hello".to_string(), &state).unwrap();
    let salt = decode_field(&envelope.salt).unwrap();
    let iv = decode_field(&envelope.iv).unwrap();
    let sealed = encrypt_with_nonce("correct horse battery staple", &salt, &iv, b"hello").unwrap();
    assert_eq!(decode_field(&envelope.ciphertext), Ok(sealed));
}

#[test]
fn round_trip_of_texts_of_many_shapes() {
    let state = state_with("pässwörd");
    for text in ["", "x", "hello world", "línea\nsegunda\t€", "日本語のテキスト", "🦀🦀🦀", "\0\u{7f}"] {
        let envelope = encrypt_message(text.to_string(), &state).unwrap();
        assert_eq!(decrypt_message(envelope, &state), Ok(text.to_string()));
    }
}

#[test]
fn round_trip_of_a_long_text() {
    let state = state_with("s");
    let text = "0123456789abcdef".repeat(4096);
    let envelope = encrypt_message(text.clone(), &state).unwrap();
    assert_eq!(decrypt_message(envelope, &state), Ok(text));
}

#[test]
fn round_trip_under_an_empty_passphrase() {
    let state = state_with("");
    let envelope = encrypt_message("hello".to_string(), &state).unwrap();
    assert_eq!(decrypt_message(envelope, &state), Ok("hello".to_string()));
}

#[test]
fn two_seals_of_one_text_differ() {
    let state = state_with("correct horse battery staple");
    let a = encrypt_message("hello".to_string(), &state).unwrap();
    let b = encrypt_message("hello".to_string(), &state).unwrap();
    assert_ne!(a.salt, b.salt);
    assert_ne!(a.iv, b.iv);
    assert_ne!(a.ciphertext, b.ciphertext);
    assert_eq!(decrypt_message(a, &state), Ok("hello".to_string()));
    assert_eq!(decrypt_message(b, &state), Ok("hello".to_string()));
}

#[test]
fn flipped_ciphertext_bits_are_rejected() {
    let state = state_with("correct horse battery staple");
    let envelope = encrypt_message("hello".to_string(), &state).unwrap();
    for bit in [0usize, 1, 39, 40, 41, 100, 167] {
        let mut changed = envelope.clone();
        changed.ciphertext = flip(&envelope.ciphertext, bit);
        assert_eq!(
            decrypt_message(changed, &state),
            Err("decryption failed: aead::Error".to_string())
        );
    }
}

#[test]
fn flipped_nonce_bits_are_rejected() {
    let state = state_with("correct horse battery staple");
    let envelope = encrypt_message("hello".to_string(), &state).unwrap();
    for bit in [0usize, 31, 64, 95] {
        let mut changed = envelope.clone();
        changed.iv = flip(&envelope.iv, bit);
        assert_eq!(
            decrypt_message(changed, &state),
            Err("decryption failed: aead::Error".to_string())
        );
    }
}

#[test]
fn flipped_salt_bits_are_rejected() {
    let state = state_with("correct horse battery staple");
    let envelope = encrypt_message("hello".to_string(), &state).unwrap();
    for bit in [0usize, 63, 64, 127] {
        let mut changed = envelope.clone();
        changed.salt = flip(&envelope.salt, bit);
        assert_eq!(
            decrypt_message(changed, &state),
            Err("decryption failed: aead::Error".to_string())
        );
    }
}

#[test]
fn another_passphrase_is_rejected() {
    let state = state_with("correct horse battery staple");
    let envelope = encrypt_message("hello".to_string(), &state).unwrap();
    for other in ["correct horse battery stapl", "Correct horse battery staple", "", "x"] {
        assert_eq!(
            decrypt_message(envelope.clone(), &state_with(other)),
            Err("decryption failed: aead::Error".to_string())
        );
    }
    assert_eq!(decrypt_message(envelope, &state), Ok("hello".to_string()));
}

#[test]
fn replaced_passphrase_no_longer_opens_old_envelopes() {
    let mut state = state_with("first");
    let envelope = encrypt_message("hello".to_string(), &state).unwrap();
    state.set_secret("second".to_string()).unwrap();
    assert_eq!(
        decrypt_message(envelope.clone(), &state),
        Err("decryption failed: aead::Error".to_string())
    );
    state.set_secret("first".to_string()).unwrap();
    assert_eq!(decrypt_message(envelope, &state), Ok("hello".to_string()));
}

#[test]
fn encrypt_without_secret_fails() {
    let state = AppState::default();
    assert_eq!(
        encrypt_message("hello".to_string(), &state),
        Err("secret not set".to_string())
    );
}

#[test]
fn decrypt_without_secret_fails() {
    let envelope = encrypt_message("hello".to_string(), &state_with("s")).unwrap();
    assert_eq!(
        decrypt_message(envelope, &AppState::default()),
        Err("secret not set".to_string())
    );
}

#[test]
fn decrypt_without_secret_fails_before_decoding() {
    let envelope = EncryptedPayload {
        iv: "!".to_string(),
        ciphertext: "!".to_string(),
        salt: "!".to_string(),
    };
    assert_eq!(
        decrypt_message(envelope, &AppState::default()),
        Err("secret not set".to_string())
    );
}

#[test]
fn encrypt_after_clear_fails() {
    let mut state = state_with("correct horse battery staple");
    state.clear_secret().unwrap();
    assert_eq!(
        encrypt_message("x".to_string(), &state),
        Err("secret not set".to_string())
    );
}

#[test]
fn nonce_of_eleven_bytes_is_rejected() {
    let state = state_with("correct horse battery staple");
    let good = encrypt_message("hello".to_string(), &state).unwrap();
    let iv = decode_field(&good.iv).unwrap();
    let mut envelope = good.clone();
    envelope.iv = EncryptedPayload::encode(&iv[..11], &[], &[]).unwrap().iv;
    assert_eq!(
        decrypt_message(envelope, &state),
        Err("invalid nonce length: expected 12 bytes, got 11".to_string())
    );
}

#[test]
fn nonce_length_is_checked_before_the_cipher_is_reached() {
    let state = state_with("correct horse battery staple");
    let envelope = EncryptedPayload::encode(&[0u8; 11], &[], &SALT).unwrap();
    assert_eq!(
        decrypt_message(envelope, &state),
        Err("invalid nonce length: expected 12 bytes, got 11".to_string())
    );
}

#[test]
fn salt_size_is_checked_before_the_nonce() {
    let state = state_with("correct horse battery staple");
    let envelope = EncryptedPayload::encode(&[0u8; 11], &[0u8; 32], &[]).unwrap();
    assert_eq!(
        decrypt_message(envelope, &state),
        Err("invalid base64: invalid salt length: expected 16 bytes, got 0".to_string())
    );
}

#[test]
fn fields_are_decoded_before_the_salt_is_measured() {
    let state = state_with("correct horse battery staple");
    let mut envelope = EncryptedPayload::encode(&NONCE, &[0u8; 32], &SALT[..8]).unwrap();
    envelope.ciphertext = "#".to_string();
    assert_eq!(
        decrypt_message(envelope, &state),
        Err("invalid base64: Invalid symbol 35, offset 0.".to_string())
    );
}

#[test]
fn empty_nonce_is_rejected() {
    let state = state_with("correct horse battery staple");
    let envelope = EncryptedPayload::encode(&[], &[0u8; 32], &SALT).unwrap();
    assert_eq!(
        decrypt_message(envelope, &state),
        Err("invalid nonce length: expected 12 bytes, got 0".to_string())
    );
}

#[test]
fn malformed_fields_are_rejected() {
    let state = state_with("correct horse battery staple");
    let good = encrypt_message("hello".to_string(), &state).unwrap();
    let mut envelope = good.clone();
    envelope.salt = "not base64".to_string();
    assert_eq!(
        decrypt_message(envelope, &state),
        Err("invalid base64: Invalid symbol 32, offset 3.".to_string())
    );
    let mut envelope = good.clone();
    envelope.iv = "AAAA====".to_string();
    let text = decrypt_message(envelope, &state).unwrap_err();
    assert!(text.starts_with("invalid base64: "));
    let mut envelope = good.clone();
    envelope.ciphertext.push('=');
    let text = decrypt_message(envelope, &state).unwrap_err();
    assert!(text.starts_with("invalid base64: "));
}

#[test]
fn first_malformed_field_is_the_salt() {
    let state = state_with("correct horse battery staple");
    let envelope = EncryptedPayload {
        iv: "?".to_string(),
        ciphertext: "#".to_string(),
        salt: "!".to_string(),
    };
    assert_eq!(
        decrypt_message(envelope, &state),
        Err("invalid base64: Invalid symbol 33, offset 0.".to_string())
    );
}

#[test]
fn salt_of_seven_bytes_is_rejected() {
    let state = state_with("correct horse battery staple");
    let envelope = EncryptedPayload::encode(&NONCE, &[0u8; 32], &SALT[..7]).unwrap();
    assert_eq!(
        decrypt_message(envelope, &state),
        Err("invalid base64: invalid salt length: expected 16 bytes, got 7".to_string())
    );
}

#[test]
fn salt_of_fifteen_or_seventeen_bytes_is_rejected() {
    let state = state_with("correct horse battery staple");
    let envelope = EncryptedPayload::encode(&NONCE, &[0u8; 32], &SALT[..15]).unwrap();
    assert_eq!(
        decrypt_message(envelope, &state),
        Err("invalid base64: invalid salt length: expected 16 bytes, got 15".to_string())
    );
    let envelope = EncryptedPayload::encode(&NONCE, &[0u8; 32], &[7u8; 17]).unwrap();
    assert_eq!(
        decrypt_message(envelope, &state),
        Err("invalid base64: invalid salt length: expected 16 bytes, got 17".to_string())
    );
}

#[test]
fn empty_ciphertext_is_rejected() {
    let state = state_with("correct horse battery staple");
    let envelope = EncryptedPayload::encode(&NONCE, &[], &SALT).unwrap();
    assert_eq!(
        decrypt_message(envelope, &state),
        Err("decryption failed: aead::Error".to_string())
    );
}

#[test]
fn bytes_that_are_not_utf8_are_rejected() {
    let state = state_with("correct horse battery staple");
    let sealed =
        encrypt_with_nonce("correct horse battery staple", &SALT, &NONCE, &[0xff, 0xfe, 0x80])
            .unwrap();
    let envelope = EncryptedPayload::encode(&NONCE, &sealed, &SALT).unwrap();
    assert_eq!(decrypt_message(envelope, &state), Err("invalid utf8".to_string()));
}

#[test]
fn overlong_and_surrogate_encodings_are_rejected() {
    let state = state_with("s");
    for bytes in [&[0xc0u8, 0x80][..], &[0xed, 0xa0, 0x80][..], &[0xf4, 0x90, 0x80, 0x80][..], &[0xe2, 0x82][..]] {
        let sealed = encrypt_with_nonce("s", &SALT, &NONCE, bytes).unwrap();
        let envelope = EncryptedPayload::encode(&NONCE, &sealed, &SALT).unwrap();
        assert_eq!(decrypt_message(envelope, &state), Err("invalid utf8".to_string()));
    }
}

#[test]
fn envelope_built_by_hand_opens() {
    let state = state_with("correct horse battery staple");
    let sealed = encrypt_with_nonce(
        "correct horse battery staple",
        &SALT,
        &NONCE,
        "grüße".as_bytes(),
    )
    .unwrap();
    let envelope = EncryptedPayload::encode(&NONCE, &sealed, &SALT).unwrap();
    assert_eq!(envelope.salt, "AAECAwQFBgcICQoLDA0ODw==");
    assert_eq!(envelope.iv, "CQgHBgUEAwIBAAEC");
    assert_eq!(decrypt_message(envelope, &state), Ok("grüße".to_string()));
}

#[test]
fn envelope_sealed_under_a_salt_of_another_size_does_not_open() {
    let state = state_with("s");
    let sealed = encrypt_with_nonce("s", &SALT[..8], &NONCE, b"hello").unwrap();
    let envelope = EncryptedPayload::encode(&NONCE, &sealed, &SALT[..8]).unwrap();
    assert_eq!(
        decrypt_message(envelope, &state),
        Err("invalid base64: invalid salt length: expected 16 bytes, got 8".to_string())
    );
    let sealed = encrypt_with_nonce("s", &[5u8; 20], &NONCE, b"hello").unwrap();
    let envelope = EncryptedPayload::encode(&NONCE, &sealed, &[5u8; 20]).unwrap();
    assert_eq!(
        decrypt_message(envelope, &state),
        Err("invalid base64: invalid salt length: expected 16 bytes, got 20".to_string())
    );
}

#[test]
fn envelope_known_answer_opens() {
    let state = state_with("correct horse battery staple");
    let envelope = EncryptedPayload {
        iv: "YWJjZGVmZ2hpamts".to_string(),
        ciphertext: "vO6YmmlDbKS5e+gGaVlX89Q23npI".to_string(),
        salt: "MDEyMzQ1Njc4OWFiY2RlZg==".to_string(),
    };
    assert_eq!(decrypt_message(envelope, &state), Ok("hello".to_string()));
}

#[test]
fn every_byte_value_survives_encoding() {
    let all: Vec<u8> = (0..=255u8).collect();
    for len in [0usize, 1, 2, 3, 4, 5, 254, 255, 256] {
        let payload = EncryptedPayload::encode(&all[..len], &all[256 - len..], &[]).unwrap();
        assert_eq!(payload.iv.len(), 4 * ((len + 2) / 3));
        assert_eq!(decode_field(&payload.iv), Ok(all[..len].to_vec()));
        assert_eq!(decode_field(&payload.ciphertext), Ok(all[256 - len..].to_vec()));
    }
}
