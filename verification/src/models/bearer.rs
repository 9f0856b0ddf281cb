//! Admission of a request by the bearer token in its `Authorization`
//! header.

use vstd::prelude::*;
use vstd::string::StrSliceExecFns;
use crate::models::claim::{
    claims_result, is_token_char, is_token_text, issued, judged, jwt_decoded, verify, verify_at,
    AuthError, Claims, ClaimsView, Keys, CLOCK_BOUND, TOKEN_TTL,
};

verus! {

/// Length of the scheme's name and the space that follows it.
pub const SCHEME_LEN: usize = 7;

/// Whether `c` may stand in the text of a header: a tab or a printable
/// ASCII character.
pub open spec fn is_header_char(c: char) -> bool {
    c == '\t' || (' ' <= c && c <= '~')
}

/// Whether every character of `text` may stand in a header.
pub open spec fn is_header_text(text: Seq<char>) -> bool {
    forall|i: int| 0 <= i < text.len() ==> is_header_char(#[trigger] text[i])
}

/// Whether `c` is the letter `letter`, given in lower case, in either case.
pub open spec fn is_letter(c: char, letter: char) -> bool {
    c == letter || c as u32 + 0x20 == letter as u32
}

/// Whether `text` begins with the scheme's name, in any mix of upper and
/// lower case, followed by one space.
pub open spec fn names_bearer(text: Seq<char>) -> bool {
    &&& text.len() >= SCHEME_LEN
    &&& is_letter(text[0], 'b')
    &&& is_letter(text[1], 'e')
    &&& is_letter(text[2], 'a')
    &&& is_letter(text[3], 'r')
    &&& is_letter(text[4], 'e')
    &&& is_letter(text[5], 'r')
    &&& text[6] == ' '
}

/// Whether `c` is blank: a space or a tab.
pub open spec fn is_blank(c: char) -> bool {
    c == ' ' || c == '\t'
}

/// `text` without its leading blanks.
pub open spec fn trim_start(text: Seq<char>) -> Seq<char>
    decreases text.len(),
{
    if text.len() > 0 && is_blank(text[0]) {
        trim_start(text.drop_first())
    } else {
        text
    }
}

/// The bearer token that a header value presents: what follows the scheme
/// and the blanks after it, where the value is header text and names the
/// scheme; otherwise none.
pub open spec fn bearer_token(header: Seq<char>) -> Option<Seq<char>> {
    if is_header_text(header) && names_bearer(header) {
        Some(trim_start(header.skip(SCHEME_LEN as int)))
    } else {
        None
    }
}

/// Whether the byte is the letter `letter`, given in lower case, in either
/// case.
fn byte_is_letter(byte: u8, letter: u8) -> (same: bool)
    requires
        0x61 <= letter <= 0x7a,
        byte < 0x80,
    ensures
        same == is_letter(byte as char, letter as char),
{
    byte == letter || byte == letter - 0x20
}

/// Extracts the bearer token from the value of an `Authorization` header.
pub fn extract_bearer(header: &str) -> (token: Option<String>)
    ensures
        (match token {
            Some(text) => Some(text@),
            None => None,
        }) == bearer_token(header@),
{
    if !header.is_ascii() {
        proof {
            lemma_header_text_is_ascii(header@);
        }
        return None;
    }
    let len = header.unicode_len();
    let mut i: usize = 0;
    while i < len
        invariant
            header.is_ascii(),
            len == header@.len(),
            i <= len,
            forall|k: int| 0 <= k < i ==> is_header_char(#[trigger] header@[k]),
        decreases len - i,
    {
        let b = header.get_ascii(i);
        if !(b == 0x09 || (0x20 <= b && b <= 0x7e)) {
            assert(!is_header_char(header@[i as int]));
            return None;
        }
        i = i + 1;
    }
    if len < SCHEME_LEN {
        return None;
    }
    let named = byte_is_letter(header.get_ascii(0), 0x62) && byte_is_letter(
        header.get_ascii(1),
        0x65,
    ) && byte_is_letter(header.get_ascii(2), 0x61) && byte_is_letter(header.get_ascii(3), 0x72)
        && byte_is_letter(header.get_ascii(4), 0x65) && byte_is_letter(header.get_ascii(5), 0x72)
        && header.get_ascii(6) == 0x20;
    if !named {
        return None;
    }
    let mut start: usize = SCHEME_LEN;
    while start < len && (header.get_ascii(start) == 0x20 || header.get_ascii(start) == 0x09)
        invariant
            header.is_ascii(),
            len == header@.len(),
            SCHEME_LEN <= start <= len,
            trim_start(header@.skip(SCHEME_LEN as int)) == trim_start(header@.skip(start as int)),
        decreases len - start,
    {
        proof {
            let rest = header@.skip(start as int);
            assert(rest[0] == header@[start as int]);
            assert(rest.drop_first() == header@.skip(start + 1));
        }
        start = start + 1;
    }
    proof {
        let rest = header@.skip(start as int);
        if start < len {
            assert(rest[0] == header@[start as int]);
        }
        assert(trim_start(rest) == rest);
        assert(rest == header@.subrange(start as int, len as int));
    }
    Some(header.substring_ascii(start, len).to_string())
}

/// Text that may stand in a header is ASCII.
proof fn lemma_header_text_is_ascii(text: Seq<char>)
    ensures
        is_header_text(text) ==> vstd::utf8::is_ascii_chars(text),
{
    if is_header_text(text) {
        assert forall|i: int| 0 <= i < text.len() implies '\0' <= #[trigger] text[i] <= '\u{7f}' by {
            assert(is_header_char(text[i]));
        }
    }
}

/// The decision on a request, at time `now`, as a function of the value of
/// its `Authorization` header: without a header, or with one that presents
/// no bearer token, the token is missing; otherwise the token is judged.
pub open spec fn admitted(header: Option<Seq<char>>, secret: Seq<u8>, now: int) -> Result<
    ClaimsView,
    AuthError,
> {
    match header {
        None => Err(AuthError::MissingToken),
        Some(value) => match bearer_token(value) {
            None => Err(AuthError::MissingToken),
            Some(token) => judged(jwt_decoded(token, secret), now),
        },
    }
}

/// A header value as plain text.
pub open spec fn header_view(header: Option<&str>) -> Option<Seq<char>> {
    match header {
        Some(value) => Some(value@),
        None => None,
    }
}

/// Decides, at time `now`, whether a request is admitted, from the value of
/// its `Authorization` header, if it has one.
pub fn authorize_at(header: Option<&str>, keys: &Keys, now: i64) -> (outcome: Result<
    Claims,
    AuthError,
>)
    ensures
        claims_result(outcome) == admitted(header_view(header), keys.decoding@, now as int),
{
    match header {
        None => Err(AuthError::MissingToken),
        Some(value) => match extract_bearer(value) {
            None => Err(AuthError::MissingToken),
            Some(token) => verify_at(token.as_str(), keys, now),
        },
    }
}

/// Decides, at the clock's reading, whether a request is admitted.
pub fn authorize(header: Option<&str>, keys: &Keys) -> (outcome: Result<Claims, AuthError>)
    ensures
        exists|now: int|
            0 <= now <= CLOCK_BOUND && claims_result(outcome) == #[trigger] admitted(
                header_view(header),
                keys.decoding@,
                now,
            ),
{
    let outcome = match header {
        None => Err(AuthError::MissingToken),
        Some(value) => match extract_bearer(value) {
            None => Err(AuthError::MissingToken),
            Some(token) => {
                let judgement = verify(token.as_str(), keys);
                proof {
                    let now = choose|now: int|
                        0 <= now <= CLOCK_BOUND && claims_result(judgement)
                            == #[trigger] judged(jwt_decoded(token@, keys.decoding@), now);
                    assert(claims_result(judgement) == admitted(
                        header_view(header),
                        keys.decoding@,
                        now,
                    ));
                }
                return judgement;
            },
        },
    };
    assert(claims_result(outcome) == admitted(header_view(header), keys.decoding@, 0));
    outcome
}

/// The header value that presents `token` as a bearer token.
pub open spec fn bearer_header(token: Seq<char>) -> Seq<char> {
    "Bearer "@ + token
}

/// A header made of the scheme, a space and a token presents that token.
pub proof fn lemma_bearer_header_presents(token: Seq<char>)
    requires
        is_token_text(token),
    ensures
        bearer_token(bearer_header(token)) == Some(token),
{
    reveal_strlit("Bearer ");
    let header = bearer_header(token);
    assert forall|i: int| 0 <= i < header.len() implies is_header_char(#[trigger] header[i]) by {
        if i >= SCHEME_LEN {
            assert(header[i] == token[i - SCHEME_LEN]);
            assert(is_token_char(token[i - SCHEME_LEN]));
        }
    }
    assert(names_bearer(header));
    assert(header.skip(SCHEME_LEN as int) == token);
    if token.len() > 0 {
        assert(is_token_char(token[0]));
    }
}

/// The admission of an issued token. A request that presents, as its bearer
/// token, a token issued at time `at` with an expiry that is not negative,
/// under a key pair whose two keys match, is admitted at every moment before
/// the expiry, as the user the token was issued for, and refused as invalid
/// from the expiry on.
pub proof fn lemma_issued_token_is_admitted(
    token: Seq<char>,
    user_id: Seq<char>,
    email: Seq<char>,
    keys: Keys,
    at: int,
    now: int,
)
    requires
        keys.paired(),
        at + TOKEN_TTL >= 0,
        issued(Ok(token), user_id, email, keys.encoding@, at),
    ensures
        now < at + TOKEN_TTL ==> admitted(Some(bearer_header(token)), keys.decoding@, now) == Ok::<
            ClaimsView,
            AuthError,
        >(ClaimsView { user_id, email, exp: at + TOKEN_TTL }),
        now >= at + TOKEN_TTL ==> admitted(Some(bearer_header(token)), keys.decoding@, now)
            == Err::<ClaimsView, AuthError>(AuthError::InvalidToken),
{
    lemma_bearer_header_presents(token);
}

/// A request without an `Authorization` header is refused for its missing
/// token, whatever the key and the time; a request that presents a token is
/// never refused for that.
pub proof fn lemma_missing_and_invalid_differ(token: Seq<char>, secret: Seq<u8>, now: int)
    requires
        is_token_text(token),
    ensures
        admitted(None, secret, now) == Err::<ClaimsView, AuthError>(AuthError::MissingToken),
        admitted(Some(bearer_header(token)), secret, now) != Err::<ClaimsView, AuthError>(
            AuthError::MissingToken,
        ),
{
    lemma_bearer_header_presents(token);
}

} // verus!
