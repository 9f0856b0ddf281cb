use axum_extra::headers::Header;
use bearer_api::models::bearer::{authorize, authorize_at, extract_bearer};
use bearer_api::models::claim::{issue, issue_at, AuthError, Keys, TOKEN_TTL};

fn keys() -> Keys {
    Keys::new(b"an example secret")
}

#[test]
fn bearer_token_is_what_follows_the_scheme() {
    assert_eq!(extract_bearer("Bearer abc.def.ghi"), Some("abc.def.ghi".to_string()));
    assert_eq!(extract_bearer("Bearer x"), Some("x".to_string()));
}

#[test]
fn scheme_is_read_in_any_case() {
    assert_eq!(extract_bearer("bearer abc"), Some("abc".to_string()));
    assert_eq!(extract_bearer("BEARER abc"), Some("abc".to_string()));
    assert_eq!(extract_bearer("bEaReR abc"), Some("abc".to_string()));
}

#[test]
fn blanks_before_the_token_are_dropped() {
    assert_eq!(extract_bearer("Bearer    abc"), Some("abc".to_string()));
    assert_eq!(extract_bearer("Bearer \t abc"), Some("abc".to_string()));
    assert_eq!(extract_bearer("Bearer abc "), Some("abc ".to_string()));
    assert_eq!(extract_bearer("Bearer a b"), Some("a b".to_string()));
}

#[test]
fn scheme_alone_presents_an_empty_token() {
    assert_eq!(extract_bearer("Bearer "), Some(String::new()));
    assert_eq!(extract_bearer("Bearer    "), Some(String::new()));
}

#[test]
fn other_values_present_no_token() {
    assert_eq!(extract_bearer(""), None);
    assert_eq!(extract_bearer("Bearer"), None);
    assert_eq!(extract_bearer("Bearerabc"), None);
    assert_eq!(extract_bearer("Bearer\tabc"), None);
    assert_eq!(extract_bearer("Basic dXNlcjpwdw=="), None);
    assert_eq!(extract_bearer(" Bearer abc"), None);
    assert_eq!(extract_bearer("Beare abc"), None);
    assert_eq!(extract_bearer("Bearers abc"), None);
    assert_eq!(extract_bearer("abc"), None);
    assert_eq!(extract_bearer("Bdarer abc"), None);
    assert_eq!(extract_bearer("\"EARER abc"), None);
}

#[test]
fn values_that_are_not_header_text_present_no_token() {
    assert_eq!(extract_bearer("Bearer abc\n"), None);
    assert_eq!(extract_bearer("Bearer a\u{7f}c"), None);
    assert_eq!(extract_bearer("Bearer トークン"), None);
    assert_eq!(extract_bearer("Bearer a\u{0}c"), None);
    assert_eq!(extract_bearer("Bearer a\u{fffd}c"), None);
}

#[test]
fn request_without_a_header_misses_its_token() {
    assert_eq!(authorize_at(None, &keys(), 0), Err(AuthError::MissingToken));
    assert_eq!(authorize(None, &keys()), Err(AuthError::MissingToken));
}

#[test]
fn request_with_another_scheme_misses_its_token() {
    assert_eq!(authorize_at(Some("Basic dXNlcjpwdw=="), &keys(), 0), Err(AuthError::MissingToken));
    assert_eq!(authorize(Some("token"), &keys()), Err(AuthError::MissingToken));
}

#[test]
fn missing_and_corrupted_tokens_are_told_apart() {
    let missing = authorize(None, &keys()).unwrap_err();
    let token = issue("u1".to_string(), "a@b.c".to_string(), &keys()).unwrap();
    let corrupted = format!("Bearer {}x", token);
    let invalid = authorize(Some(&corrupted), &keys()).unwrap_err();
    assert_eq!(missing, AuthError::MissingToken);
    assert_eq!(invalid, AuthError::InvalidToken);
    assert_ne!(missing, invalid);
    assert_eq!(missing.into_response().code, 400);
    assert_eq!(invalid.into_response().code, 401);
    assert_ne!(missing.into_response().error, invalid.into_response().error);
}

#[test]
fn request_with_a_good_token_is_admitted() {
    let now = 1_700_000_000;
    let token = issue_at("u1".to_string(), "a@b.c".to_string(), &keys(), now).unwrap();
    let header = format!("Bearer {}", token);
    let claims = authorize_at(Some(&header), &keys(), now + 5).unwrap();
    assert_eq!(claims.user_id, "u1");
    assert_eq!(claims.email, "a@b.c");
    assert_eq!(claims.exp, now + TOKEN_TTL);
    let lower = format!("bearer   {}", token);
    assert!(authorize_at(Some(&lower), &keys(), now + 5).is_ok());
}

#[test]
fn request_with_an_expired_or_forged_token_is_refused() {
    let now = 1_700_000_000;
    let token = issue_at("u1".to_string(), "a@b.c".to_string(), &keys(), now).unwrap();
    let header = format!("Bearer {}", token);
    assert_eq!(
        authorize_at(Some(&header), &keys(), now + TOKEN_TTL),
        Err(AuthError::InvalidToken)
    );
    assert_eq!(
        authorize_at(Some(&header), &Keys::new(b"other"), now),
        Err(AuthError::InvalidToken)
    );
    assert_eq!(authorize_at(Some("Bearer "), &keys(), now), Err(AuthError::InvalidToken));
    assert_eq!(authorize_at(Some("Bearer garbage"), &keys(), now), Err(AuthError::InvalidToken));
}

#[test]
fn request_is_admitted_by_the_clock() {
    let token = issue("u1".to_string(), "a@b.c".to_string(), &keys()).unwrap();
    let header = format!("Bearer {}", token);
    let claims = authorize(Some(&header), &keys()).unwrap();
    assert_eq!(claims.user_id, "u1");
    let old = issue_at("u1".to_string(), "a@b.c".to_string(), &keys(), 0).unwrap();
    let header = format!("Bearer {}", old);
    assert_eq!(authorize(Some(&header), &keys()), Err(AuthError::InvalidToken));
}

fn typed_header_token(value: &str) -> Option<String> {
    let value = axum::http::HeaderValue::from_bytes(value.as_bytes()).ok()?;
    let decoded = axum_extra::headers::Authorization::<
        axum_extra::headers::authorization::Bearer,
    >::decode(&mut std::iter::once(&value))
    .ok()?;
    Some(decoded.token().to_string())
}

#[test]
fn extraction_agrees_with_the_typed_header() {
    let values = [
        "",
        "B",
        "Bearer",
        "Bearer ",
        "Bearer  ",
        "Bearer x",
        "bearer x",
        "BEARER x",
        "bEARER x",
        "Bearer\tx",
        "Bearer \tx",
        "Bearer \t \t x y ",
        "Bearerx",
        "Bearers x",
        "Beare x",
        " Bearer x",
        "Basic dXNlcjpwdw==",
        "Bearer a.b.c",
        "Bearer a\u{7f}",
        "Bearer a\u{1}",
        "Bearer a\n",
        "Bearer \u{e9}",
        "Bearer \u{3042}",
        "\u{e9}earer x",
        "Bearer~~ x",
        "BEARER~x",
        "Bearer eyJ0eXAiOiJKV1QiLCJhbGciOiJIUzI1NiJ9.e30.c2ln",
        "@EARER x",
        "`earer x",
        "Bearer x\t",
        "token",
    ];
    for value in values {
        assert_eq!(extract_bearer(value), typed_header_token(value), "for {:?}", value);
    }
    for byte in 0u8..=127 {
        let c = byte as char;
        let inside = format!("Bearer a{}b", c);
        assert_eq!(extract_bearer(&inside), typed_header_token(&inside), "for {:?}", inside);
        let leading = format!("Bearer {}b", c);
        assert_eq!(extract_bearer(&leading), typed_header_token(&leading), "for {:?}", leading);
        let first = format!("{}earer b", c);
        assert_eq!(extract_bearer(&first), typed_header_token(&first), "for {:?}", first);
        let gap = format!("Bearer{}b", c);
        assert_eq!(extract_bearer(&gap), typed_header_token(&gap), "for {:?}", gap);
    }
}
