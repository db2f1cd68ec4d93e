use catalog_auth::token::{get_jwt_token, get_token_from_auth_header, get_token_from_cookie};

fn some(s: &str) -> Option<String> {
    Some(s.to_string())
}

#[test]
fn cookie_alone() {
    assert_eq!(get_token_from_cookie(Some("token=abc")), some("abc"));
}

#[test]
fn cookie_among_others() {
    assert_eq!(get_token_from_cookie(Some("theme=dark; token=xyz; lang=en")), some("xyz"));
}

#[test]
fn cookie_first_match_wins() {
    assert_eq!(get_token_from_cookie(Some("token=one;token=two")), some("one"));
}

#[test]
fn cookie_value_stops_at_equals_sign() {
    assert_eq!(get_token_from_cookie(Some("token=a=b")), some("a"));
}

#[test]
fn cookie_with_empty_value() {
    assert_eq!(get_token_from_cookie(Some("token=")), some(""));
}

#[test]
fn cookie_without_value_is_skipped() {
    assert_eq!(get_token_from_cookie(Some("token; token=later")), some("later"));
    assert_eq!(get_token_from_cookie(Some("token")), None);
}

#[test]
fn cookie_pairs_are_trimmed() {
    assert_eq!(get_token_from_cookie(Some("a=1;\t token=xyz \u{a0}")), some("xyz"));
}

#[test]
fn cookie_name_must_match_exactly() {
    assert_eq!(get_token_from_cookie(Some("tokens=abc; Token=def; token =ghi")), None);
}

#[test]
fn cookie_header_absent_or_empty() {
    assert_eq!(get_token_from_cookie(None), None);
    assert_eq!(get_token_from_cookie(Some("")), None);
}

#[test]
fn header_second_field() {
    assert_eq!(get_token_from_auth_header(Some("Bearer abc.def.ghi")), some("abc.def.ghi"));
    assert_eq!(get_token_from_auth_header(Some("Bearer a b")), some("a"));
    assert_eq!(get_token_from_auth_header(Some("Bearer ")), some(""));
}

#[test]
fn header_without_second_field() {
    assert_eq!(get_token_from_auth_header(Some("Bearer")), None);
    assert_eq!(get_token_from_auth_header(None), None);
}

#[test]
fn cookie_takes_precedence_over_header() {
    assert_eq!(get_jwt_token(Some("token=from-cookie"), Some("Bearer from-header")), some("from-cookie"));
}

#[test]
fn header_used_when_cookie_has_no_token() {
    assert_eq!(get_jwt_token(Some("theme=dark"), Some("Bearer from-header")), some("from-header"));
    assert_eq!(get_jwt_token(None, Some("Bearer from-header")), some("from-header"));
}

#[test]
fn no_source_yields_none() {
    assert_eq!(get_jwt_token(None, None), None);
}
