//! Signed, time-bound identity claims and the key pair that seals them.

use vstd::prelude::*;
use vstd::slice::slice_to_vec;
use vstd::string::StringExecFns;
use jsonwebtoken::{DecodingKey, EncodingKey, Header, Validation};

verus! {

/// How long a claim stays valid after it is issued, in seconds: thirty days.
pub const TOKEN_TTL: i64 = 60 * 60 * 72 * 10;

/// One week, in seconds.
pub const WEEK: i64 = 60 * 60 * 24 * 7;

/// Upper bound on the clock's reading, in seconds; the reading is never
/// negative.
pub const CLOCK_BOUND: i64 = 0x4_0000_0000_0000;

/// The key pair of the process: one key to sign tokens and one to check
/// them, both derived from a single shared secret.
#[derive(Clone, Debug, PartialEq, Eq)]
pub struct Keys {
    pub encoding: Vec<u8>,
    pub decoding: Vec<u8>,
}

impl Keys {
    /// Whether the two keys come from one secret, so that what one signs
    /// the other accepts.
    pub open spec fn paired(&self) -> bool {
        self.encoding@ == self.decoding@
    }

    /// Derives both keys from `secret`.
    pub fn new(secret: &[u8]) -> (keys: Keys)
        ensures
            keys.encoding@ == secret@,
            keys.decoding@ == secret@,
            keys.paired(),
    {
        Keys { encoding: slice_to_vec(secret), decoding: slice_to_vec(secret) }
    }
}

/// Why a request was not admitted.
#[derive(Clone, Copy, Debug, PartialEq, Eq, Structural)]
pub enum AuthError {
    /// A token was presented and did not stand: malformed, forged or expired.
    InvalidToken,
    /// No bearer token was presented.
    MissingToken,
}

/// What a refused request is answered with.
#[derive(Clone, Debug, PartialEq, Eq)]
pub struct Rejection {
    pub code: u16,
    pub error: String,
}

impl AuthError {
    /// The HTTP status that reports this error: 401 for a token that did
    /// not stand, 400 for a missing one.
    pub open spec fn spec_status(self) -> u16 {
        match self {
            AuthError::InvalidToken => 401,
            AuthError::MissingToken => 400,
        }
    }

    /// The text that reports this error.
    pub open spec fn spec_message(self) -> Seq<char> {
        match self {
            AuthError::InvalidToken => "Invalid token"@,
            AuthError::MissingToken => "Missing token"@,
        }
    }

    /// The status and the text with which this error is answered.
    pub fn into_response(self) -> (rejection: Rejection)
        ensures
            rejection.code == self.spec_status(),
            rejection.error@ == self.spec_message(),
    {
        match self {
            AuthError::InvalidToken => Rejection {
                code: 401,
                error: "Invalid token".to_string(),
            },
            AuthError::MissingToken => Rejection {
                code: 400,
                error: "Missing token".to_string(),
            },
        }
    }
}

/// A signed assertion of identity: who, and until when.
#[derive(Clone, Debug, PartialEq, Eq)]
pub struct Claims {
    pub user_id: String,
    pub email: String,
    /// Seconds since the epoch at which the claim stops being valid.
    pub exp: i64,
}

/// A claim as plain mathematical values.
pub struct ClaimsView {
    pub user_id: Seq<char>,
    pub email: Seq<char>,
    pub exp: int,
}

impl View for Claims {
    type V = ClaimsView;

    open spec fn view(&self) -> ClaimsView {
        ClaimsView { user_id: self.user_id@, email: self.email@, exp: self.exp as int }
    }
}

/// The token, or the error text, that `jsonwebtoken::encode` returns for a
/// default (HS256) header, the claim `{user_id, email, exp}` and an HMAC key
/// made of `secret`.
pub uninterp spec fn jwt_encoded(
    user_id: Seq<char>,
    email: Seq<char>,
    exp: int,
    secret: Seq<u8>,
) -> Result<Seq<char>, Seq<char>>;

/// The claim that `jsonwebtoken::decode` reads from `token` with an HMAC key
/// made of `secret`, HS256 only and no check of the expiry; `None` where the
/// token is malformed, its signature does not match, or its payload lacks a
/// textual `user_id`, a textual `email` or an integer `exp`.
pub uninterp spec fn jwt_decoded(token: Seq<char>, secret: Seq<u8>) -> Option<ClaimsView>;

/// Whether `c` may stand in a token: a letter, a digit, `-`, `_` or the dot
/// that joins the parts.
pub open spec fn is_token_char(c: char) -> bool {
    ('A' <= c && c <= 'Z') || ('a' <= c && c <= 'z') || ('0' <= c && c <= '9') || c == '-' || c
        == '_' || c == '.'
}

/// Whether `text` is written in the characters of a token.
pub open spec fn is_token_text(text: Seq<char>) -> bool {
    forall|i: int| 0 <= i < text.len() ==> is_token_char(#[trigger] text[i])
}

/// A fallible text as plain values.
pub open spec fn text_result(r: Result<String, String>) -> Result<Seq<char>, Seq<char>> {
    match r {
        Ok(text) => Ok(text@),
        Err(text) => Err(text@),
    }
}

/// An optional claim as plain values.
pub open spec fn claims_option(c: Option<Claims>) -> Option<ClaimsView> {
    match c {
        Some(claims) => Some(claims@),
        None => None,
    }
}

/// A judged claim as plain values.
pub open spec fn claims_result(r: Result<Claims, AuthError>) -> Result<ClaimsView, AuthError> {
    match r {
        Ok(claims) => Ok(claims@),
        Err(e) => Err(e),
    }
}

/// Whether a claim that expires at `exp` is still valid at `now`: strictly
/// before its expiry.
pub open spec fn valid_at(exp: int, now: int) -> bool {
    now < exp
}

/// The judgement on what a token decoded to, at time `now`: the claim where
/// there is one and it has not expired, and otherwise the one error that
/// stands for every failure.
pub open spec fn judged(decoded: Option<ClaimsView>, now: int) -> Result<ClaimsView, AuthError> {
    match decoded {
        Some(claims) => if valid_at(claims.exp, now) {
            Ok(claims)
        } else {
            Err(AuthError::InvalidToken)
        },
        None => Err(AuthError::InvalidToken),
    }
}

/// Calls `chrono::Utc::now().timestamp()`.
///
/// Trusted: only the range of the reading. chrono reads the time that has
/// passed since the epoch, so the reading is not negative; and it computes
/// the reading from a 32-bit count of days and the seconds within the day,
/// so it stays below 2^50.
#[verifier::external_body]
fn unix_now() -> (now: i64)
    ensures
        0 <= now <= CLOCK_BOUND,
{
    chrono::Utc::now().timestamp()
}

/// Calls `jsonwebtoken::encode` with `Header::default()`, the three fields
/// of the claim as a JSON object in the order `user_id`, `email`, `exp`, and
/// `EncodingKey::from_secret(secret)`; an error is rendered as text.
///
/// Trusted: the result is the one named by [`jwt_encoded`] and, as
/// [`issued_as`] spells out, it is a token,
/// because signing with HS256 and a secret key has no failing path; the
/// token is three runs of unpadded URL-safe base64 joined by dots; and a
/// token made this way for a claim whose expiry is not negative decodes,
/// under the same secret, to that claim. (The decoder wants `exp` to read
/// as an unsigned number.)
#[verifier::external_body]
fn jwt_encode(claims: &Claims, secret: &[u8]) -> (token: Result<String, String>)
    ensures
        text_result(token) == jwt_encoded(claims.user_id@, claims.email@, claims.exp as int, secret@),
        issued_as(text_result(token), claims@, secret@),
{
    let mut payload = serde_json::Map::new();
    payload.insert("user_id".to_string(), serde_json::Value::from(claims.user_id.as_str()));
    payload.insert("email".to_string(), serde_json::Value::from(claims.email.as_str()));
    payload.insert("exp".to_string(), serde_json::Value::from(claims.exp));
    jsonwebtoken::encode(&Header::default(), &payload, &EncodingKey::from_secret(secret))
        .map_err(|e| e.to_string())
}

/// Calls `jsonwebtoken::decode` with `DecodingKey::from_secret(secret)` and
/// `Validation::default()` with `validate_exp` switched off, and moves the
/// fields `user_id`, `email` and `exp` of the payload into a claim.
///
/// Trusted: the result is the one named by [`jwt_decoded`]; with the expiry
/// check off it depends on the token and the secret alone.
#[verifier::external_body]
fn jwt_decode(token: &str, secret: &[u8]) -> (claims: Option<Claims>)
    ensures
        claims_option(claims) == jwt_decoded(token@, secret@),
{
    let mut validation = Validation::default();
    validation.validate_exp = false;
    let key = DecodingKey::from_secret(secret);
    let payload = jsonwebtoken::decode::<serde_json::Value>(token, &key, &validation).ok()?.claims;
    Some(Claims {
        user_id: payload.get("user_id")?.as_str()?.to_string(),
        email: payload.get("email")?.as_str()?.to_string(),
        exp: payload.get("exp")?.as_i64()?,
    })
}

/// The minute of a moment, given in seconds since the epoch, as chrono
/// prints it in UTC with the format `%Y-%m-%d %H:%M`; `None` for a moment
/// outside the years that chrono can represent.
pub uninterp spec fn minute_text(timestamp: int) -> Option<Seq<char>>;

/// Calls `chrono::DateTime::from_timestamp` with no nanoseconds and, where
/// that gives a moment, formats it with `%Y-%m-%d %H:%M`.
///
/// Trusted: the result is the one named by [`minute_text`].
#[verifier::external_body]
fn format_minute(timestamp: i64) -> (text: Option<String>)
    ensures
        text_option(text) == minute_text(timestamp as int),
{
    match chrono::DateTime::from_timestamp(timestamp, 0) {
        Some(moment) => Some(moment.format("%Y-%m-%d %H:%M").to_string()),
        None => None,
    }
}

/// An optional text as plain values.
pub open spec fn text_option(text: Option<String>) -> Option<Seq<char>> {
    match text {
        Some(t) => Some(t@),
        None => None,
    }
}

/// The line that describes a claim at time `now`. The moment it shows is
/// one week after `now`, whatever the claim's own expiry.
pub open spec fn described(claims: ClaimsView, now: int) -> Option<Seq<char>> {
    match minute_text(now + WEEK) {
        Some(minute) => Some(
            "Claims: user_id: "@ + claims.user_id + ", email: "@ + claims.email + ", exp: "@
                + minute,
        ),
        None => None,
    }
}

impl Claims {
    /// The claim for `user_id` and `email` issued at `now`: it expires
    /// [`TOKEN_TTL`] seconds later.
    pub fn issued_at(user_id: String, email: String, now: i64) -> (claims: Claims)
        requires
            now + TOKEN_TTL <= i64::MAX,
        ensures
            claims.user_id == user_id,
            claims.email == email,
            claims.exp == now + TOKEN_TTL,
    {
        Claims { user_id, email, exp: now + TOKEN_TTL }
    }

    /// The claim for `user_id` and `email` issued at the clock's reading.
    pub fn new(user_id: String, email: String) -> (claims: Claims)
        ensures
            claims.user_id == user_id,
            claims.email == email,
            0 <= claims.exp - TOKEN_TTL <= CLOCK_BOUND,
    {
        let now = unix_now();
        Claims::issued_at(user_id, email, now)
    }

    /// Whether the claim is still valid at `now`.
    pub fn is_ok_at(&self, now: i64) -> (ok: bool)
        ensures
            ok == valid_at(self.exp as int, now as int),
    {
        self.exp > now
    }

    /// Whether the claim is still valid at the clock's reading.
    pub fn is_ok(&self) -> (ok: bool)
        ensures
            exists|now: int|
                0 <= now <= CLOCK_BOUND && ok == #[trigger] valid_at(
                    self.exp as int,
                    now,
                ),
    {
        let now = unix_now();
        self.is_ok_at(now)
    }

    /// Seals the claim into a signed token with the encoding key.
    ///
    /// The token is what HS256 signing makes of the claim and the key;
    /// signing does not fail. A token issued for a claim whose expiry is not
    /// negative decodes to that claim under the same key.
    pub fn to_token(&self, keys: &Keys) -> (token: Result<String, String>)
        ensures
            issued_as(text_result(token), self@, keys.encoding@),
    {
        jwt_encode(self, keys.encoding.as_slice())
    }

    /// Describes the claim in one line, at time `now`; `None` where the
    /// moment to show cannot be printed.
    pub fn describe_at(&self, now: i64) -> (line: Option<String>)
        requires
            now + WEEK <= i64::MAX,
        ensures
            text_option(line) == described(self@, now as int),
    {
        match format_minute(now + WEEK) {
            Some(minute) => {
                let mut line = "Claims: user_id: ".to_string();
                line.append(self.user_id.as_str());
                line.append(", email: ");
                line.append(self.email.as_str());
                line.append(", exp: ");
                line.append(minute.as_str());
                Some(line)
            },
            None => None,
        }
    }

    /// Describes the claim in one line, at the clock's reading.
    pub fn describe(&self) -> (line: Option<String>)
        ensures
            exists|now: int|
                0 <= now <= CLOCK_BOUND && text_option(line) == #[trigger] described(
                    self@,
                    now,
                ),
    {
        let now = unix_now();
        self.describe_at(now)
    }
}

/// Judges, at time `now`, what a token decoded to.
pub fn judge(decoded: Option<Claims>, now: i64) -> (outcome: Result<Claims, AuthError>)
    ensures
        claims_result(outcome) == judged(claims_option(decoded), now as int),
{
    match decoded {
        Some(claims) => {
            if claims.is_ok_at(now) {
                Ok(claims)
            } else {
                Err(AuthError::InvalidToken)
            }
        },
        None => Err(AuthError::InvalidToken),
    }
}

/// Verifies `token` at time `now`: its signature against the decoding key
/// and its expiry against `now`. Every failure is the same error.
pub fn verify_at(token: &str, keys: &Keys, now: i64) -> (outcome: Result<Claims, AuthError>)
    ensures
        claims_result(outcome) == judged(jwt_decoded(token@, keys.decoding@), now as int),
{
    judge(jwt_decode(token, keys.decoding.as_slice()), now)
}

/// Verifies `token` at the clock's reading.
pub fn verify(token: &str, keys: &Keys) -> (outcome: Result<Claims, AuthError>)
    ensures
        exists|now: int|
            0 <= now <= CLOCK_BOUND && claims_result(outcome) == #[trigger] judged(
                jwt_decoded(token@, keys.decoding@),
                now,
            ),
{
    let now = unix_now();
    verify_at(token, keys, now)
}

/// What sealing `claims` under the key `secret` came to: `outcome` is the
/// token that signing made of the claim, written in the characters of a
/// token; and where the expiry is not negative, the token decodes to that
/// claim under the same key.
pub open spec fn issued_as(
    outcome: Result<Seq<char>, Seq<char>>,
    claims: ClaimsView,
    secret: Seq<u8>,
) -> bool {
    &&& outcome == jwt_encoded(claims.user_id, claims.email, claims.exp, secret)
    &&& outcome matches Ok(token) && is_token_text(token) && (claims.exp >= 0 ==> jwt_decoded(
        token,
        secret,
    ) == Some(claims))
}

/// What issuing a token for `user_id` and `email` at time `at`, under the
/// key `secret`, came to: the sealing of the claim that expires
/// [`TOKEN_TTL`] seconds after `at`.
pub open spec fn issued(
    outcome: Result<Seq<char>, Seq<char>>,
    user_id: Seq<char>,
    email: Seq<char>,
    secret: Seq<u8>,
    at: int,
) -> bool {
    issued_as(outcome, ClaimsView { user_id, email, exp: at + TOKEN_TTL }, secret)
}

/// Issues, at time `now`, a signed token for `user_id` and `email`.
pub fn issue_at(user_id: String, email: String, keys: &Keys, now: i64) -> (token: Result<
    String,
    String,
>)
    requires
        now + TOKEN_TTL <= i64::MAX,
    ensures
        issued(text_result(token), user_id@, email@, keys.encoding@, now as int),
{
    Claims::issued_at(user_id, email, now).to_token(keys)
}

/// Issues a signed token for `user_id` and `email` at the clock's reading.
pub fn issue(user_id: String, email: String, keys: &Keys) -> (token: Result<String, String>)
    ensures
        exists|now: int|
            0 <= now <= CLOCK_BOUND && #[trigger] issued(
                text_result(token),
                user_id@,
                email@,
                keys.encoding@,
                now,
            ),
{
    let now = unix_now();
    issue_at(user_id, email, keys, now)
}

/// The life of an issued token. A token issued at time `at`, with an
/// expiry that is not negative, under a key pair whose two keys match, is
/// accepted at `at` itself and names the user it was issued for; it stays
/// accepted at every moment before its expiry, `at + TOKEN_TTL`, and is
/// refused from that moment on.
pub proof fn lemma_issued_token_lifetime(
    token: Seq<char>,
    user_id: Seq<char>,
    email: Seq<char>,
    keys: Keys,
    at: int,
    now: int,
)
    requires
        keys.paired(),
        at + TOKEN_TTL >= 0,
        issued(Ok(token), user_id, email, keys.encoding@, at),
    ensures
        judged(jwt_decoded(token, keys.decoding@), at) == Ok::<ClaimsView, AuthError>(
            ClaimsView { user_id, email, exp: at + TOKEN_TTL },
        ),
        now < at + TOKEN_TTL ==> judged(jwt_decoded(token, keys.decoding@), now) is Ok,
        now >= at + TOKEN_TTL ==> judged(jwt_decoded(token, keys.decoding@), now) == Err::<
            ClaimsView,
            AuthError,
        >(AuthError::InvalidToken),
{
}

/// Every refusal of a presented token is the same: a token is either
/// accepted or invalid, whatever was wrong with it.
pub proof fn lemma_refusals_are_alike(token: Seq<char>, secret: Seq<u8>, now: int)
    ensures
        judged(jwt_decoded(token, secret), now) is Err ==> judged(jwt_decoded(token, secret), now)
            == Err::<ClaimsView, AuthError>(AuthError::InvalidToken),
{
}

} // verus!
