use catalog_auth::claims::{decode_claims, encode_claims, Claims, ClaimsError};
use catalog_auth::gateway::{admin_access, member_access, verify, Access, AppError};
use catalog_auth::secret::{get_secret_key, ConfigError, SecretKey};

const SECRET: &str = "QUFBQUFBQUFBQUFBQUFBQUFBQUFBQUFBQUFBQUFBQUE=";
const OTHER_SECRET: &str = "AAECAwQFBgcICQoLDA0ODxAREhMUFRYXGBkaGxwdHh8=";

fn key(config: &str) -> SecretKey {
    get_secret_key(Some(config)).unwrap()
}

fn claims(sub: &str, exp: u64, is_admin: bool) -> Claims {
    Claims { sub: sub.to_string(), exp, is_admin }
}

#[test]
fn claims_round_trip() {
    for c in [claims("ana@example.com", 1_900_000_000, true), claims("", 0, false), claims("bob", u64::MAX, false)] {
        let token = encode_claims(&c, &key(SECRET));
        let back = decode_claims(&token, &key(SECRET)).unwrap();
        assert_eq!(back.sub, c.sub);
        assert_eq!(back.exp, c.exp);
        assert_eq!(back.is_admin, c.is_admin);
    }
}

#[test]
fn token_is_compact_three_part_form() {
    let token = encode_claims(&claims("ana@example.com", 1_000_000_000, false), &key(SECRET));
    assert_eq!(token.split('.').count(), 3);
}

#[test]
fn any_changed_character_fails_verification() {
    let token = encode_claims(&claims("ana@example.com", 1_900_000_000, true), &key(SECRET));
    let chars: Vec<char> = token.chars().collect();
    for i in 0..chars.len() {
        let mut changed = chars.clone();
        changed[i] = if chars[i] == 'A' { 'B' } else { 'A' };
        let tampered: String = changed.into_iter().collect();
        assert_eq!(
            decode_claims(&tampered, &key(SECRET)).err(),
            Some(ClaimsError::Verification),
            "position {}",
            i
        );
    }
}

#[test]
fn other_key_fails_verification() {
    let token = encode_claims(&claims("ana@example.com", 1, true), &key(SECRET));
    assert_eq!(decode_claims(&token, &key(OTHER_SECRET)).err(), Some(ClaimsError::Verification));
}

#[test]
fn garbage_fails_verification() {
    assert_eq!(decode_claims("not a token", &key(SECRET)).err(), Some(ClaimsError::Verification));
}

#[test]
fn verify_without_token() {
    assert_eq!(verify(None, None, Some(SECRET)).err(), Some(AppError::TokenNotFound));
    assert_eq!(verify(Some("theme=dark"), None, Some(SECRET)).err(), Some(AppError::TokenNotFound));
}

#[test]
fn verify_without_secret() {
    assert_eq!(
        verify(Some("token=abc"), None, None).err(),
        Some(AppError::SecretUnavailable(ConfigError::SecretNotSet))
    );
    assert_eq!(
        verify(None, Some("Bearer abc"), Some("AAAAAAAAAAAAAAAAAAAAAA==")).err(),
        Some(AppError::SecretUnavailable(ConfigError::SecretWrongLength))
    );
}

#[test]
fn verify_with_bad_token() {
    assert_eq!(verify(Some("token=abc"), None, Some(SECRET)).err(), Some(AppError::InvalidToken));
}

#[test]
fn verify_reads_cookie_and_header_tokens() {
    let token = encode_claims(&claims("ana@example.com", 5, true), &key(SECRET));
    let cookie = format!("theme=dark; token={}", token);
    let c = verify(Some(&cookie), Some("Bearer junk"), Some(SECRET)).unwrap();
    assert_eq!(c.sub, "ana@example.com");
    assert_eq!(c.exp, 5);
    assert!(c.is_admin);
    let header = format!("Bearer {}", token);
    let h = verify(None, Some(&header), Some(SECRET)).unwrap();
    assert_eq!(h.sub, "ana@example.com");
}

#[test]
fn access_decisions() {
    let admin: Result<Claims, AppError> = Ok(claims("a", 1, true));
    let member: Result<Claims, AppError> = Ok(claims("b", 1, false));
    let anonymous: Result<Claims, AppError> = Err(AppError::TokenNotFound);
    assert_eq!(admin_access(&admin), Access::Granted);
    assert_eq!(admin_access(&member), Access::Forbidden);
    assert_eq!(admin_access(&anonymous), Access::Unauthorized);
    assert_eq!(member_access(&member), Access::Granted);
    assert_eq!(member_access(&anonymous), Access::Unauthorized);
}

#[test]
fn verify_does_not_decide_roles() {
    let token = encode_claims(&claims("bob@example.com", 9, false), &key(SECRET));
    let cookie = format!("token={}", token);
    let first = verify(Some(&cookie), None, Some(SECRET)).unwrap();
    let second = verify(Some(&cookie), None, Some(SECRET)).unwrap();
    assert!(!first.is_admin);
    assert_eq!(first.sub, second.sub);
    assert_eq!(first.exp, second.exp);
}
