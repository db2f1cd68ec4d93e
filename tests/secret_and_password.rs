use catalog_auth::password::{decrypt_password, encrypt_password, DecryptError};
use catalog_auth::secret::{get_secret_key, ConfigError, SecretKey};

const SECRET: &str = "QUFBQUFBQUFBQUFBQUFBQUFBQUFBQUFBQUFBQUFBQUE=";
const OTHER_SECRET: &str = "AAECAwQFBgcICQoLDA0ODxAREhMUFRYXGBkaGxwdHh8=";
const IV: [u8; 16] = [7u8; 16];

fn key(config: &str) -> SecretKey {
    get_secret_key(Some(config)).unwrap()
}

#[test]
fn secret_absent_is_not_set() {
    assert_eq!(get_secret_key(None).err(), Some(ConfigError::SecretNotSet));
}

#[test]
fn secret_not_base64_is_malformed() {
    assert_eq!(get_secret_key(Some("not base64 !!")).err(), Some(ConfigError::SecretMalformed));
}

#[test]
fn secret_of_sixteen_bytes_has_wrong_length() {
    assert_eq!(
        get_secret_key(Some("AAAAAAAAAAAAAAAAAAAAAA==")).err(),
        Some(ConfigError::SecretWrongLength)
    );
}

#[test]
fn secret_of_thirty_three_bytes_has_wrong_length() {
    let text = "QUFBQUFBQUFBQUFBQUFBQUFBQUFBQUFBQUFBQUFBQUFB";
    assert_eq!(get_secret_key(Some(text)).err(), Some(ConfigError::SecretWrongLength));
}

#[test]
fn secret_of_thirty_two_bytes_is_accepted() {
    let k = key(SECRET);
    assert_eq!(k.as_bytes(), &[0x41u8; 32][..]);
}

#[test]
fn password_round_trip() {
    let sealed = encrypt_password("s3cr3t", Some(SECRET), &IV).unwrap();
    assert_ne!(sealed, "s3cr3t");
    assert_eq!(decrypt_password(&sealed, &key(SECRET)), Ok("s3cr3t".to_string()));
}

#[test]
fn password_round_trip_of_unicode_and_empty_text() {
    for p in ["", "pässwörd ✓", "a much longer password that spans several cipher blocks"] {
        let sealed = encrypt_password(p, Some(SECRET), &IV).unwrap();
        assert_eq!(decrypt_password(&sealed, &key(SECRET)), Ok(p.to_string()));
    }
}

#[test]
fn sealed_password_carries_the_iv() {
    let sealed = encrypt_password("s3cr3t", Some(SECRET), &IV).unwrap();
    // 16 bytes of IV and one block of ciphertext: 32 bytes, 44 base64 characters.
    assert_eq!(sealed.len(), 44);
    assert!(sealed.starts_with("BwcHBwcHBwcHBwcHBwcHB"));
}

#[test]
fn different_iv_gives_different_text() {
    let a = encrypt_password("s3cr3t", Some(SECRET), &IV).unwrap();
    let b = encrypt_password("s3cr3t", Some(SECRET), &[9u8; 16]).unwrap();
    assert_ne!(a, b);
    assert_eq!(decrypt_password(&b, &key(SECRET)), Ok("s3cr3t".to_string()));
}

#[test]
fn encrypt_without_secret_fails() {
    assert_eq!(
        encrypt_password("s3cr3t", None, &IV),
        Err(ConfigError::SecretNotSet)
    );
    assert_eq!(
        encrypt_password("s3cr3t", Some("AAAAAAAAAAAAAAAAAAAAAA=="), &IV),
        Err(ConfigError::SecretWrongLength)
    );
}

#[test]
fn decrypt_of_malformed_base64_fails() {
    assert_eq!(decrypt_password("%%% not base64", &key(SECRET)), Err(DecryptError::Cipher));
}

#[test]
fn decrypt_of_text_shorter_than_iv_fails() {
    assert_eq!(decrypt_password("AAAA", &key(SECRET)), Err(DecryptError::Cipher));
}

#[test]
fn decrypt_with_other_key_does_not_give_the_password() {
    let sealed = encrypt_password("s3cr3t", Some(SECRET), &IV).unwrap();
    assert_ne!(decrypt_password(&sealed, &key(OTHER_SECRET)), Ok("s3cr3t".to_string()));
}

#[test]
fn sealed_length_follows_padding() {
    for (p, blocks) in [("", 1usize), ("fifteen chars!!", 1), ("sixteen chars!!!", 2), ("s3cr3t", 1)] {
        let sealed = encrypt_password(p, Some(SECRET), &IV).unwrap();
        let bytes = base64::Engine::decode(&base64::engine::general_purpose::STANDARD, &sealed).unwrap();
        assert_eq!(bytes.len(), 16 + 16 * blocks);
    }
}

#[test]
fn decrypt_of_partial_block_fails() {
    // 16 bytes of IV followed by 5 bytes: not a whole block.
    let text = base64::Engine::encode(&base64::engine::general_purpose::STANDARD, [1u8; 21]);
    assert_eq!(decrypt_password(&text, &key(SECRET)), Err(DecryptError::Cipher));
    // IV alone: no ciphertext at all.
    let text = base64::Engine::encode(&base64::engine::general_purpose::STANDARD, [1u8; 16]);
    assert_eq!(decrypt_password(&text, &key(SECRET)), Err(DecryptError::Cipher));
}

#[test]
fn decrypt_to_invalid_utf8_fails() {
    let k = [0x41u8; 32];
    let iv = [5u8; 16];
    let c = openssl::symm::encrypt(openssl::symm::Cipher::aes_256_cbc(), &k, Some(&iv), &[0xff, 0xfe, 0x80]).unwrap();
    let mut bytes = iv.to_vec();
    bytes.extend_from_slice(&c);
    let text = base64::Engine::encode(&base64::engine::general_purpose::STANDARD, &bytes);
    assert_eq!(decrypt_password(&text, &key(SECRET)), Err(DecryptError::Utf8));
}
