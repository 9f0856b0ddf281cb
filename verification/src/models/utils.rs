//! Password hashing with Argon2 and fail-closed verification.

use vstd::prelude::*;
use vstd::string::StrSliceExecFns;
use argon2::password_hash::rand_core::OsRng;
use argon2::password_hash::SaltString;
use argon2::{Argon2, PasswordHash, PasswordHasher, PasswordVerifier};

verus! {

/// Longest password, in characters, that can be hashed. Argon2 takes at most
/// `0xFFFF_FFFF` bytes and a character is at most four bytes long.
pub const MAX_PASSWORD_CHARS: usize = 0x3FFF_FFFF;

/// Most digits that a digest may spend on its degree of parallelism. Argon2
/// allows a parallelism below 2^24, which has eight digits; with more the
/// digest is refused unread.
pub const MAX_PARALLELISM_DIGITS: usize = 8;

/// Length of what a fresh digest begins with: algorithm, version and
/// parameters.
pub const HEAD_LEN: usize = 31;

/// Length of the salt of a fresh digest, as text.
pub const SALT_LEN: usize = 22;

/// Length of the hash of a fresh digest, as text.
pub const HASH_LEN: usize = 43;

/// Whether `c` is a decimal digit.
pub open spec fn is_digit(c: char) -> bool {
    '0' <= c && c <= '9'
}

/// The number of decimal digits that `text` begins with.
pub open spec fn leading_digits(text: Seq<char>) -> nat
    decreases text.len(),
{
    if text.len() > 0 && is_digit(text[0]) {
        1 + leading_digits(text.drop_first())
    } else {
        0
    }
}

/// Whether a parallelism setting, `p=`, stands at place `i` of `digest`.
pub open spec fn sets_parallelism(digest: Seq<char>, i: int) -> bool {
    0 <= i && i + 1 < digest.len() && digest[i] == 'p' && digest[i + 1] == '='
}

/// Whether no parallelism setting of `digest` is followed by more than
/// [`MAX_PARALLELISM_DIGITS`] digits.
pub open spec fn parallelism_bounded(digest: Seq<char>) -> bool {
    forall|i: int| #[trigger]
        sets_parallelism(digest, i) ==> leading_digits(digest.skip(i + 2))
            <= MAX_PARALLELISM_DIGITS
}

/// Whether a stored digest is read at all: it is ASCII and names no
/// parallelism beyond the bound.
pub open spec fn readable_digest(digest: Seq<char>) -> bool {
    vstd::utf8::is_ascii_chars(digest) && parallelism_bounded(digest)
}

/// What Argon2 makes of a stored digest and a candidate password: `None`
/// where the digest is not a well-formed PHC string, otherwise whether the
/// digest recomputed over the candidate, with the salt and the parameters
/// that the stored digest names, equals the stored one.
pub uninterp spec fn argon2_check(digest: Seq<char>, candidate: Seq<char>) -> Option<bool>;

/// Whether `candidate` is accepted against `digest`. A digest that is not
/// read, or that cannot be parsed, accepts nothing.
pub open spec fn password_matches(digest: Seq<char>, candidate: Seq<char>) -> bool {
    readable_digest(digest) && argon2_check(digest, candidate) == Some(true)
}

/// What every fresh digest begins with: the Argon2id tag, version 19 and
/// the default parameters.
pub open spec fn digest_head() -> Seq<char> {
    "$argon2id$v=19$m=19456,t=2,p=1$"@
}

/// Whether `c` belongs to the alphabet in which salt and hash are written.
pub open spec fn is_b64_char(c: char) -> bool {
    ('A' <= c && c <= 'Z') || ('a' <= c && c <= 'z') || ('0' <= c && c <= '9') || c == '+' || c
        == '/'
}

/// Whether `digest` has the form of a fresh digest: the head, a salt of
/// [`SALT_LEN`] characters, a `$` and a hash of [`HASH_LEN`] characters.
pub open spec fn fresh_form(digest: Seq<char>) -> bool {
    &&& digest.len() == HEAD_LEN + SALT_LEN + 1 + HASH_LEN
    &&& digest.take(HEAD_LEN as int) == digest_head()
    &&& digest[HEAD_LEN + SALT_LEN] == '$'
    &&& forall|i: int|
        HEAD_LEN <= i < digest.len() && i != HEAD_LEN + SALT_LEN ==> is_b64_char(
            #[trigger] digest[i],
        )
}

/// Calls `argon2::PasswordHash::new` on the digest and, where that parses,
/// `Argon2::default().verify_password` on the candidate's bytes.
///
/// Trusted: the outcome is the one named by [`argon2_check`]; it depends on
/// the two strings alone. A digest that names a parallelism of 2^29 or more
/// is left out, because Argon2 multiplies the parallelism by eight in 32
/// bits before it checks it.
#[verifier::external_body]
fn argon2_verify(digest: &str, candidate: &str) -> (outcome: Option<bool>)
    requires
        parallelism_bounded(digest@),
    ensures
        outcome == argon2_check(digest@, candidate@),
{
    match PasswordHash::new(digest) {
        Ok(parsed) => Some(Argon2::default().verify_password(candidate.as_bytes(), &parsed).is_ok()),
        Err(_) => None,
    }
}

/// Calls `SaltString::generate` on the operating system's random source and
/// `Argon2::default().hash_password` with that salt, and renders the result
/// as a PHC string.
///
/// Trusted: hashing succeeds for every password within Argon2's length
/// limit; the digest is written as tag, version, default parameters, the
/// salt of sixteen bytes and the hash of thirty-two, each in unpadded
/// base64; and it is accepted by Argon2 for the password it was made from.
/// Nothing is claimed about the salt's value, which differs from call to
/// call.
#[verifier::external_body]
fn argon2_hash(password: &str) -> (digest: Option<String>)
    ensures
        password@.len() <= MAX_PASSWORD_CHARS ==> digest is Some,
        digest matches Some(d) ==> fresh_form(d@),
        digest matches Some(d) ==> argon2_check(d@, password@) == Some(true),
{
    let salt = SaltString::generate(&mut OsRng);
    match Argon2::default().hash_password(password.as_bytes(), &salt) {
        Ok(hash) => Some(hash.to_string()),
        Err(_) => None,
    }
}

/// Counts the digits that follow place `from` of an ASCII text, up to one
/// more than the bound.
fn digits_from(text: &str, from: usize) -> (count: usize)
    requires
        text.is_ascii(),
        from <= text@.len(),
    ensures
        count <= MAX_PARALLELISM_DIGITS + 1,
        count <= MAX_PARALLELISM_DIGITS ==> count == leading_digits(text@.skip(from as int)),
        count > MAX_PARALLELISM_DIGITS ==> leading_digits(text@.skip(from as int))
            > MAX_PARALLELISM_DIGITS,
{
    let len = text.unicode_len();
    let mut count: usize = 0;
    while count <= MAX_PARALLELISM_DIGITS && count < len - from
        invariant
            text.is_ascii(),
            len == text@.len(),
            from + count <= len,
            count <= MAX_PARALLELISM_DIGITS + 1,
            leading_digits(text@.skip(from as int)) == count + leading_digits(
                text@.skip(from + count),
            ),
        decreases MAX_PARALLELISM_DIGITS + 1 - count,
    {
        let ghost rest = text@.skip(from + count);
        assert(rest[0] == text@[from + count]);
        assert(rest.drop_first() == text@.skip(from + count + 1));
        let b = text.get_ascii(from + count);
        if !(0x30 <= b && b <= 0x39) {
            return count;
        }
        count = count + 1;
    }
    proof {
        if count <= MAX_PARALLELISM_DIGITS {
            assert(text@.skip(from + count).len() == 0);
        }
    }
    count
}

/// Whether a stored digest is read at all.
pub fn is_readable(digest: &str) -> (readable: bool)
    ensures
        readable == readable_digest(digest@),
{
    if !digest.is_ascii() {
        return false;
    }
    let len = digest.unicode_len();
    let mut i: usize = 0;
    while i < len
        invariant
            digest.is_ascii(),
            len == digest@.len(),
            i <= len,
            forall|k: int|
                k < i && #[trigger] sets_parallelism(digest@, k) ==> leading_digits(
                    digest@.skip(k + 2),
                ) <= MAX_PARALLELISM_DIGITS,
        decreases len - i,
    {
        if i + 1 < len && digest.get_ascii(i) == 0x70 && digest.get_ascii(i + 1) == 0x3d {
            assert(sets_parallelism(digest@, i as int));
            if digits_from(digest, i + 2) > MAX_PARALLELISM_DIGITS {
                return false;
            }
        }
        i = i + 1;
    }
    true
}

/// A fresh digest is read: it is ASCII and its one parallelism setting has
/// a single digit.
pub proof fn lemma_fresh_digest_is_readable(digest: Seq<char>)
    requires
        fresh_form(digest),
    ensures
        readable_digest(digest),
{
    reveal_strlit("$argon2id$v=19$m=19456,t=2,p=1$");
    let head = digest_head();
    assert forall|i: int| 0 <= i < HEAD_LEN implies digest[i] == head[i] by {
        assert(digest.take(HEAD_LEN as int)[i] == digest[i]);
    }
    assert forall|i: int| 0 <= i < digest.len() implies '\0' <= #[trigger] digest[i]
        <= '\u{7f}' by {
        if i >= HEAD_LEN && i != HEAD_LEN + SALT_LEN {
            assert(is_b64_char(digest[i]));
        } else if i < HEAD_LEN {
            assert(digest[i] == head[i]);
        }
    }
    assert forall|i: int| #[trigger] sets_parallelism(digest, i) implies leading_digits(
        digest.skip(i + 2),
    ) <= MAX_PARALLELISM_DIGITS by {
        if i + 1 >= HEAD_LEN {
            if i + 1 != HEAD_LEN + SALT_LEN {
                assert(is_b64_char(digest[i + 1]));
            }
        } else {
            assert(digest[i] == head[i]);
            assert(digest[i + 1] == head[i + 1]);
            assert(i == 27);
            let rest = digest.skip(i + 2);
            assert(rest[0] == digest[29]);
            assert(rest.drop_first()[0] == digest[30]);
            assert(digest[29] == head[29]);
            assert(digest[30] == head[30]);
            reveal_with_fuel(leading_digits, 3);
        }
    }
}

/// The verdict on a verification outcome: only a digest that parsed and
/// matched counts as a success.
pub fn verdict(outcome: Option<bool>) -> (accepted: bool)
    ensures
        accepted == (outcome == Some(true)),
{
    match outcome {
        Some(matched) => matched,
        None => false,
    }
}

/// Hashes `password` under a fresh random salt and returns the digest as a
/// PHC string, which carries the algorithm, its parameters and the salt.
///
/// The digest has the form of a fresh digest, so it is no password that
/// lacks that form; and it verifies against the password it was made from.
pub fn hash_password(password: &str) -> (digest: String)
    requires
        password@.len() <= MAX_PASSWORD_CHARS,
    ensures
        fresh_form(digest@),
        !fresh_form(password@) ==> digest@ != password@,
        password_matches(digest@, password@),
{
    match argon2_hash(password) {
        Some(digest) => {
            proof {
                lemma_fresh_digest_is_readable(digest@);
            }
            digest
        },
        None => vstd::pervasive::unreached(),
    }
}

/// Checks `password` against the stored digest `hashed_password`.
///
/// A malformed digest is a failed verification, never a fault; so is a
/// digest that is not read.
pub fn verify_password(hashed_password: &str, password: &str) -> (accepted: bool)
    ensures
        accepted == password_matches(hashed_password@, password@),
{
    if is_readable(hashed_password) {
        verdict(argon2_verify(hashed_password, password))
    } else {
        false
    }
}

/// Whether `password` is short enough to be hashed.
pub fn can_hash(password: &str) -> (ok: bool)
    ensures
        ok == (password@.len() <= MAX_PASSWORD_CHARS),
{
    password.unicode_len() <= MAX_PASSWORD_CHARS
}

} // verus!
