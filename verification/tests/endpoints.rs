use bearer_api::api::initial::{private_health, private_health_at, public_health};
use bearer_api::api::user::{signin, signin_found, signin_found_at, signup, signup_stored, token_reply, Step};
use bearer_api::api::utils::{
    internal_error, kanji_len, response_handler, Envelope, Payload, Status,
};
use bearer_api::models::claim::{issue_at, verify, verify_at, Claims, Keys};
use bearer_api::models::user::User;
use bearer_api::models::utils::{hash_password, verify_password};

fn keys() -> Keys {
    Keys::new(b"an example secret")
}

fn user(password: &str) -> User {
    User { user_id: "u1".to_string(), email: "a@b.c".to_string(), password: password.to_string() }
}

fn token_of(envelope: &Envelope) -> String {
    match &envelope.data {
        Some(Payload::Token { token, token_type }) => {
            assert_eq!(token_type, "bearer");
            token.clone()
        }
        other => panic!("no token: {:?}", other),
    }
}

#[test]
fn statuses_have_their_numbers() {
    assert_eq!(Status::Success.code(), 200);
    assert_eq!(Status::BadRequest.code(), 400);
    assert_eq!(Status::Unauthorized.code(), 401);
    assert_eq!(Status::NotFound.code(), 404);
    assert_eq!(Status::InternalServerError.code(), 500);
}

#[test]
fn envelope_carries_data_or_an_error() {
    let data = Payload::Health { health: "ok".to_string() };
    let ok = response_handler(Status::Success, "m".to_string(), Some(data.clone()), None);
    assert_eq!(
        ok,
        Envelope { code: Status::Success, message: "m".to_string(), data: Some(data.clone()), error: None }
    );
    let none = response_handler(Status::Success, "m".to_string(), None, None);
    assert_eq!(none.data, None);
    assert_eq!(none.error, None);
    let failed = response_handler(
        Status::InternalServerError,
        "error".to_string(),
        Some(data),
        Some("boom".to_string()),
    );
    assert_eq!(failed.code, Status::InternalServerError);
    assert_eq!(failed.message, "error");
    assert_eq!(failed.data, None);
    assert_eq!(failed.error, Some("boom".to_string()));
}

#[test]
fn kanji_are_counted() {
    assert_eq!(kanji_len(""), 0);
    assert_eq!(kanji_len("hello"), 0);
    assert_eq!(kanji_len("漢字"), 2);
    assert_eq!(kanji_len("漢字かな交じり文"), 4);
    assert_eq!(kanji_len("カタカナ ひらがな abc 123"), 0);
    assert_eq!(kanji_len("日本語 is 楽しい"), 4);
    assert_eq!(kanji_len("々"), 1);
}

#[test]
fn public_health_is_ok() {
    let envelope = public_health();
    assert_eq!(envelope.code, Status::Success);
    assert_eq!(envelope.message, "success");
    assert_eq!(envelope.data, Some(Payload::Health { health: "ok".to_string() }));
    assert_eq!(envelope.error, None);
}

#[test]
fn private_health_tells_the_time() {
    let claims = Claims { user_id: "u".to_string(), email: "e".to_string(), exp: 1 };
    let envelope = private_health_at(&claims, "2023-12-31T23:59:59+00:00".to_string());
    assert_eq!(envelope.code, Status::Success);
    assert_eq!(envelope.message, "success");
    assert_eq!(
        envelope.data,
        Some(Payload::HealthAt {
            health: "ok".to_string(),
            server_time: "2023-12-31T23:59:59+00:00".to_string()
        })
    );
    let envelope = private_health(&claims);
    match envelope.data {
        Some(Payload::HealthAt { health, server_time }) => {
            assert_eq!(health, "ok");
            assert!(server_time.ends_with("+00:00"));
            assert!(server_time.contains('T'));
        }
        other => panic!("unexpected data: {:?}", other),
    }
}

#[test]
fn signup_with_a_malformed_payload_is_a_400() {
    match signup(Err("missing field `email`".to_string())) {
        Step::Reply(envelope) => {
            assert_eq!(envelope.code, Status::BadRequest);
            assert_eq!(envelope.message, "error");
            assert_eq!(envelope.data, None);
            assert_eq!(envelope.error, Some("missing field `email`".to_string()));
        }
        other => panic!("unexpected step: {:?}", other),
    }
}

#[test]
fn signup_stores_a_digest_under_the_user_id() {
    match signup(Ok(user("pw"))) {
        Step::Store { collection, key, user } => {
            assert_eq!(collection, "user");
            assert_eq!(key, "u1");
            assert_eq!(user.user_id, "u1");
            assert_eq!(user.email, "a@b.c");
            assert_ne!(user.password, "pw");
            assert!(user.password.starts_with("$argon2id$v=19$m=19456,t=2,p=1$"));
            assert!(verify_password(&user.password, "pw"));
            assert!(!verify_password(&user.password, "pW"));
        }
        other => panic!("unexpected step: {:?}", other),
    }
}

#[test]
fn signup_answers_what_the_store_said() {
    let created = signup_stored(Ok(()));
    assert_eq!(created.code, Status::Success);
    assert_eq!(created.message, "success");
    assert_eq!(created.data, None);
    assert_eq!(created.error, None);
    let failed = signup_stored(Err("AlreadyExists".to_string()));
    assert_eq!(failed.code, Status::InternalServerError);
    assert_eq!(failed.message, "error");
    assert_eq!(failed.data, None);
    assert_eq!(failed.error, Some("internal server error".to_string()));
    assert_eq!(signup_stored(Err("Unavailable".to_string())), failed);
}

#[test]
fn signin_with_a_malformed_payload_is_a_400() {
    match signin(Err("expected a map".to_string())) {
        Step::Reply(envelope) => {
            assert_eq!(envelope.code, Status::BadRequest);
            assert_eq!(envelope.error, Some("expected a map".to_string()));
        }
        other => panic!("unexpected step: {:?}", other),
    }
}

#[test]
fn signin_reads_the_account_by_its_user_id() {
    match signin(Ok(user("pw"))) {
        Step::Store { collection, key, user: asked } => {
            assert_eq!(collection, "user");
            assert_eq!(key, "u1");
            assert_eq!(asked, user("pw"));
        }
        other => panic!("unexpected step: {:?}", other),
    }
}

#[test]
fn signup_then_signin_returns_a_token_for_the_user() {
    let stored = match signup(Ok(user("pw"))) {
        Step::Store { user, .. } => user,
        other => panic!("unexpected step: {:?}", other),
    };
    assert_eq!(signup_stored(Ok(())).code, Status::Success);
    let asked = match signin(Ok(user("pw"))) {
        Step::Store { user, .. } => user,
        other => panic!("unexpected step: {:?}", other),
    };
    let envelope = signin_found(asked, Ok(Some(stored)), &keys());
    assert_eq!(envelope.code, Status::Success);
    assert_eq!(envelope.message, "success");
    assert_eq!(envelope.error, None);
    let claims = verify(&token_of(&envelope), &keys()).unwrap();
    assert_eq!(claims.user_id, "u1");
    assert_eq!(claims.email, "a@b.c");
}

#[test]
fn signin_with_a_wrong_password_is_unauthorized() {
    let stored = User {
        user_id: "u1".to_string(),
        email: "a@b.c".to_string(),
        password: hash_password("pw"),
    };
    let envelope = signin_found(user("not pw"), Ok(Some(stored.clone())), &keys());
    assert_eq!(envelope.code, Status::Unauthorized);
    assert_eq!(envelope.code.code(), 401);
    assert_eq!(envelope.message, "error");
    assert_eq!(envelope.data, None);
    assert_eq!(envelope.error, Some("wrong password".to_string()));
    let envelope = signin_found_at(user(""), Ok(Some(stored)), &keys(), 0);
    assert_eq!(envelope.code, Status::Unauthorized);
    assert_eq!(envelope.data, None);
}

#[test]
fn signin_against_a_corrupt_digest_is_unauthorized() {
    let stored = User {
        user_id: "u1".to_string(),
        email: "a@b.c".to_string(),
        password: "pw".to_string(),
    };
    let envelope = signin_found(user("pw"), Ok(Some(stored)), &keys());
    assert_eq!(envelope.code, Status::Unauthorized);
    assert_eq!(envelope.error, Some("wrong password".to_string()));
}

#[test]
fn signin_of_an_unknown_user_is_unauthorized() {
    let envelope = signin_found(user("pw"), Ok(None), &keys());
    assert_eq!(envelope.code, Status::Unauthorized);
    assert_eq!(envelope.message, "error");
    assert_eq!(envelope.data, None);
    assert_eq!(envelope.error, Some("not found user".to_string()));
}

#[test]
fn signin_with_a_failed_store_is_a_500() {
    let envelope = signin_found(user("pw"), Err("Unavailable".to_string()), &keys());
    assert_eq!(envelope.code, Status::InternalServerError);
    assert_eq!(envelope.message, "error");
    assert_eq!(envelope.data, None);
    assert_eq!(envelope.error, Some("internal server error".to_string()));
    let other = signin_found(user("pw"), Err("DeadlineExceeded".to_string()), &keys());
    assert_eq!(other, envelope);
}

#[test]
fn signin_issues_the_token_of_its_moment() {
    let now = 1_700_000_000;
    let stored = User {
        user_id: "u1".to_string(),
        email: "stored@b.c".to_string(),
        password: hash_password("pw"),
    };
    let envelope = signin_found_at(user("pw"), Ok(Some(stored)), &keys(), now);
    let expected = issue_at("u1".to_string(), "a@b.c".to_string(), &keys(), now).unwrap();
    assert_eq!(token_of(&envelope), expected);
    let claims = verify_at(&expected, &keys(), now).unwrap();
    assert_eq!(claims.email, "a@b.c");
}

#[test]
fn token_reply_reports_a_failed_issue() {
    let envelope = token_reply(Err("InvalidAlgorithm".to_string()));
    assert_eq!(envelope.code, Status::InternalServerError);
    assert_eq!(envelope.message, "error");
    assert_eq!(envelope.data, None);
    assert_eq!(envelope.error, Some("internal server error".to_string()));
    let envelope = token_reply(Ok("a.b.c".to_string()));
    assert_eq!(envelope.code, Status::Success);
    assert_eq!(token_of(&envelope), "a.b.c");
}

#[test]
fn internal_failures_are_answered_alike() {
    let envelope = internal_error();
    assert_eq!(envelope.code, Status::InternalServerError);
    assert_eq!(envelope.message, "error");
    assert_eq!(envelope.data, None);
    assert_eq!(envelope.error, Some("internal server error".to_string()));
}
