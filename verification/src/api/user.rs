//! Signup and signin: what to ask of the store, and what to answer.

use vstd::prelude::*;
use crate::api::utils::{
    failure, internal_error, internal_error_text, response_handler, success, Envelope,
    EnvelopeView, Payload, PayloadView, Status,
};
use crate::models::claim::{
    issue, issue_at, issued, jwt_encoded, text_result, Keys, CLOCK_BOUND, TOKEN_TTL,
};
use crate::models::user::{User, UserView};
use crate::models::utils::{
    fresh_form, hash_password, password_matches, verify_password, MAX_PASSWORD_CHARS,
};

verus! {

/// The collection that holds the accounts.
pub open spec fn user_collection() -> Seq<char> {
    "user"@
}

/// What a request leads to before the store is involved.
#[derive(Clone, Debug, PartialEq, Eq)]
pub enum Step {
    /// The request is answered at once.
    Reply(Envelope),
    /// The store is asked about the account `user`, kept under `key` in
    /// `collection`; what it says decides the answer.
    Store { collection: String, key: String, user: User },
}

/// The answer to a payload that did not parse.
pub open spec fn malformed(text: Seq<char>) -> EnvelopeView {
    failure(Status::BadRequest, "error"@, text)
}

/// The first step of signup. A payload that did not parse is answered with
/// 400 and the parser's words. Otherwise the account is to be created under
/// its `user_id`, with its password replaced by a digest of it: a fresh
/// digest, which accepts the password and which no password equals that is
/// not itself written as a digest.
pub fn signup(payload: Result<User, String>) -> (step: Step)
    requires
        payload matches Ok(user) ==> user.password@.len() <= MAX_PASSWORD_CHARS,
    ensures
        match payload {
            Err(text) => step matches Step::Reply(envelope) && envelope@ == malformed(text@),
            Ok(asked) => step matches Step::Store { collection, key, user } && {
                &&& collection@ == user_collection()
                &&& key@ == asked.user_id@
                &&& user.user_id@ == asked.user_id@
                &&& user.email@ == asked.email@
                &&& fresh_form(user.password@)
                &&& !fresh_form(asked.password@) ==> user.password@ != asked.password@
                &&& password_matches(user.password@, asked.password@)
            },
        },
{
    match payload {
        Err(text) => Step::Reply(
            response_handler(Status::BadRequest, "error".to_string(), None, Some(text)),
        ),
        Ok(user) => {
            let digest = hash_password(user.password.as_str());
            let key = user.user_id.clone();
            Step::Store {
                collection: "user".to_string(),
                key,
                user: User { user_id: user.user_id, email: user.email, password: digest },
            }
        },
    }
}

/// The last step of signup: 200 where the store created the account; where
/// it did not, 500 with the words of every internal failure, whatever the
/// store said.
pub fn signup_stored(created: Result<(), String>) -> (envelope: Envelope)
    ensures
        envelope@ == (match created {
            Ok(()) => success(Status::Success, "success"@, None),
            Err(_) => failure(Status::InternalServerError, "error"@, internal_error_text()),
        }),
{
    match created {
        Ok(()) => response_handler(Status::Success, "success".to_string(), None, None),
        Err(_) => internal_error(),
    }
}

/// The first step of signin. A payload that did not parse is answered with
/// 400 and the parser's words. Otherwise the account is to be read from the
/// store under the `user_id` of the payload.
pub fn signin(payload: Result<User, String>) -> (step: Step)
    ensures
        match payload {
            Err(text) => step matches Step::Reply(envelope) && envelope@ == malformed(text@),
            Ok(asked) => step matches Step::Store { collection, key, user } && collection@
                == user_collection() && key@ == asked.user_id@ && user == asked,
        },
{
    match payload {
        Err(text) => Step::Reply(
            response_handler(Status::BadRequest, "error".to_string(), None, Some(text)),
        ),
        Ok(user) => {
            let key = user.user_id.clone();
            Step::Store { collection: "user".to_string(), key, user }
        },
    }
}

/// The answer that carries a freshly issued token, or reports, in the words
/// of every internal failure, that none could be made.
pub open spec fn token_answer(token: Result<Seq<char>, Seq<char>>) -> EnvelopeView {
    match token {
        Ok(text) => success(
            Status::Success,
            "success"@,
            Some(PayloadView::Token { token: text, token_type: "bearer"@ }),
        ),
        Err(_) => failure(Status::InternalServerError, "error"@, internal_error_text()),
    }
}

/// Answers a signin whose credentials were accepted, given what issuing the
/// token came to.
pub fn token_reply(token: Result<String, String>) -> (envelope: Envelope)
    ensures
        envelope@ == token_answer(text_result(token)),
{
    match token {
        Ok(text) => response_handler(
            Status::Success,
            "success".to_string(),
            Some(Payload::Token { token: text, token_type: "bearer".to_string() }),
            None,
        ),
        Err(_) => internal_error(),
    }
}

/// What the store said of a read, as plain values.
pub open spec fn found_view(found: Result<Option<User>, String>) -> Result<
    Option<UserView>,
    Seq<char>,
> {
    match found {
        Ok(Some(user)) => Ok(Some(user@)),
        Ok(None) => Ok(None),
        Err(text) => Err(text@),
    }
}

/// Whether the credentials of a signin stand: the store holds the account
/// and its digest accepts the password of the request.
pub open spec fn accepted(asked: UserView, found: Result<Option<UserView>, Seq<char>>) -> bool {
    found matches Ok(Some(stored)) && password_matches(stored.password, asked.password)
}

/// The answer to a signin at time `now`, given the account that was asked
/// for and what the store holds under its `user_id`.
///
/// A store that failed is a 500 with the words of every internal failure,
/// whatever the store said. An unknown account and a wrong password are both
/// 401, with different words. Accepted credentials are answered with a token
/// for the `user_id` and `email` of the request, issued at `now` and signed
/// with `secret`.
pub open spec fn signin_answer(
    asked: UserView,
    found: Result<Option<UserView>, Seq<char>>,
    secret: Seq<u8>,
    now: int,
) -> EnvelopeView {
    match found {
        Err(_) => failure(Status::InternalServerError, "error"@, internal_error_text()),
        Ok(None) => failure(Status::Unauthorized, "error"@, "not found user"@),
        Ok(Some(stored)) => if password_matches(stored.password, asked.password) {
            token_answer(jwt_encoded(asked.user_id, asked.email, now + TOKEN_TTL, secret))
        } else {
            failure(Status::Unauthorized, "error"@, "wrong password"@)
        },
    }
}

/// Whether `answer` is a 200 that carries a token issued at `now` for the
/// account of the request: a token that decodes, under the key that signed
/// it, to a claim with the `user_id` and `email` of the request, where its
/// expiry is not negative.
pub open spec fn carries_token(answer: EnvelopeView, asked: UserView, secret: Seq<u8>, now: int) -> bool {
    &&& answer.code == Status::Success
    &&& answer.error is None
    &&& answer.data matches Some(PayloadView::Token { token, token_type })
    &&& issued(Ok(token), asked.user_id, asked.email, secret, now)
}

/// Whether `answer` answers a signin at time `now`: it is the answer that
/// [`signin_answer`] names, and where the credentials stand it carries the
/// token of the account.
pub open spec fn answers_signin(
    answer: EnvelopeView,
    asked: UserView,
    found: Result<Option<UserView>, Seq<char>>,
    secret: Seq<u8>,
    now: int,
) -> bool {
    &&& answer == signin_answer(asked, found, secret, now)
    &&& accepted(asked, found) ==> carries_token(answer, asked, secret, now)
    &&& !accepted(asked, found) ==> (answer.data is None && answer.code != Status::Success)
}

/// What stands between a signin and its token, where anything does.
fn refusal(user: &User, found: Result<Option<User>, String>) -> (early: Option<Envelope>)
    ensures
        accepted(user@, found_view(found)) ==> early is None,
        !accepted(user@, found_view(found)) ==> (early matches Some(envelope) && forall|
            secret: Seq<u8>,
            now: int,
        | #[trigger] answers_signin(envelope@, user@, found_view(found), secret, now)),
{
    match found {
        Err(_) => Some(internal_error()),
        Ok(None) => Some(
            response_handler(
                Status::Unauthorized,
                "error".to_string(),
                None,
                Some("not found user".to_string()),
            ),
        ),
        Ok(Some(stored)) => {
            if verify_password(stored.password.as_str(), user.password.as_str()) {
                None
            } else {
                Some(
                    response_handler(
                        Status::Unauthorized,
                        "error".to_string(),
                        None,
                        Some("wrong password".to_string()),
                    ),
                )
            }
        },
    }
}

/// The last step of signin at time `now`: judges the credentials against
/// what the store holds and, where they stand, issues the token.
pub fn signin_found_at(user: User, found: Result<Option<User>, String>, keys: &Keys, now: i64) -> (envelope:
    Envelope)
    requires
        now + TOKEN_TTL <= i64::MAX,
    ensures
        answers_signin(envelope@, user@, found_view(found), keys.encoding@, now as int),
{
    match refusal(&user, found) {
        Some(envelope) => envelope,
        None => token_reply(issue_at(user.user_id, user.email, keys, now)),
    }
}

/// The last step of signin at the clock's reading, which is not negative:
/// so where the credentials stand, the token of the answer decodes to the
/// claim of the account.
pub fn signin_found(user: User, found: Result<Option<User>, String>, keys: &Keys) -> (envelope:
    Envelope)
    ensures
        exists|now: int|
            0 <= now <= CLOCK_BOUND && #[trigger] answers_signin(
                envelope@,
                user@,
                found_view(found),
                keys.encoding@,
                now,
            ),
{
    match refusal(&user, found) {
        Some(envelope) => {
            assert(answers_signin(envelope@, user@, found_view(found), keys.encoding@, 0));
            envelope
        },
        None => {
            let ghost user_id = user.user_id@;
            let ghost email = user.email@;
            let token = issue(user.user_id, user.email, keys);
            let envelope = token_reply(token);
            proof {
                let now = choose|now: int|
                    0 <= now <= CLOCK_BOUND && #[trigger] issued(
                        text_result(token),
                        user_id,
                        email,
                        keys.encoding@,
                        now,
                    );
                assert(answers_signin(envelope@, user@, found_view(found), keys.encoding@, now));
            }
            envelope
        },
    }
}

} // verus!
