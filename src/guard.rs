use vstd::prelude::*;
use crate::error::AuthError;
use crate::models::Claims;
use crate::token::{verify_outcome, verify_token, current_time, signed_token, token_claims, TOKEN_LIFETIME_SECS};

verus! {

/// The literal that an `Authorization` header must start with.
pub open spec fn bearer_prefix() -> Seq<char> {
    seq!['B', 'e', 'a', 'r', 'e', 'r', ' ']
}

pub open spec fn header_view(header: Option<&str>) -> Option<Seq<char>> {
    match header {
        Some(h) => Some(h@),
        None => None,
    }
}

/// The token that a header carries, or why it carries none.
pub open spec fn bearer_spec(header: Option<Seq<char>>) -> Result<Seq<char>, AuthError> {
    match header {
        None => Err(AuthError::MissingToken),
        Some(h) => if h.len() >= 7 && h.take(7) == bearer_prefix() {
            Ok(h.skip(7))
        } else {
            Err(AuthError::MalformedHeader)
        },
    }
}

/// What the guard decides for a header at `now`: the admitted subject and
/// expiry, or the rejection.
pub open spec fn admit_spec(header: Option<Seq<char>>, secret: Seq<u8>, now: u64) -> Result<(Seq<char>, u64), AuthError> {
    match bearer_spec(header) {
        Err(e) => Err(e),
        Ok(t) => match verify_outcome(t, secret, now) {
            Some(c) => Ok(c),
            None => Err(AuthError::InvalidToken),
        },
    }
}

/// Takes the token out of an `Authorization` header value.
pub fn bearer_token(header: Option<&str>) -> (r: Result<&str, AuthError>)
    ensures
        match bearer_spec(header_view(header)) {
            Ok(t) => r matches Ok(s) && s@ == t,
            Err(e) => r == Err::<&str, AuthError>(e),
        },
{
    let h = match header {
        None => return Err(AuthError::MissingToken),
        Some(h) => h,
    };
    let prefix = "Bearer ";
    proof {
        reveal_strlit("Bearer ");
    }
    let n = h.unicode_len();
    if n < 7 {
        return Err(AuthError::MalformedHeader);
    }
    let mut i: usize = 0;
    while i < 7
        invariant
            0 <= i <= 7,
            n == h@.len(),
            n >= 7,
            header_view(header) == Some(h@),
            prefix@ == bearer_prefix(),
            forall|j: int| 0 <= j < i ==> h@[j] == bearer_prefix()[j],
        decreases 7 - i,
    {
        if h.get_char(i) != prefix.get_char(i) {
            assert(h@.take(7)[i as int] != bearer_prefix()[i as int]);
            assert(h@.take(7) != bearer_prefix());
            return Err(AuthError::MalformedHeader);
        }
        i = i + 1;
    }
    assert(h@.take(7) =~= bearer_prefix());
    Ok(h.substring_char(7, n))
}

/// The authenticated principal of a request: the claims of its token.
#[derive(Clone, Debug)]
pub struct AuthToken {
    pub claims: Claims,
}

impl AuthToken {
    /// Admits a request by its `Authorization` header at `now`: the header
    /// must be present, start with `Bearer `, and carry a token that verifies.
    pub fn from_request_at(header: Option<&str>, secret: &[u8], now: u64) -> (r: Result<AuthToken, AuthError>)
        ensures
            match admit_spec(header_view(header), secret@, now) {
                Ok((sub, exp)) => r matches Ok(a) && a.claims.sub@ == sub && a.claims.exp == exp,
                Err(e) => r == Err::<AuthToken, AuthError>(e),
            },
    {
        let token = match bearer_token(header) {
            Ok(t) => t,
            Err(e) => return Err(e),
        };
        match verify_token(token, secret, now) {
            Ok(claims) => Ok(AuthToken { claims }),
            Err(e) => Err(e),
        }
    }

    /// Admits a request by its `Authorization` header against the current time.
    pub fn from_request(header: Option<&str>, secret: &[u8]) -> (r: Result<AuthToken, AuthError>)
        ensures
            bearer_spec(header_view(header)) matches Err(e) ==> r == Err::<AuthToken, AuthError>(e),
            r matches Ok(a) ==> exists|now: u64| #[trigger] admit_spec(header_view(header), secret@, now)
                == Ok::<(Seq<char>, u64), AuthError>((a.claims.sub@, a.claims.exp)),
            r is Err ==> bearer_spec(header_view(header)) is Err || r == Err::<AuthToken, AuthError>(AuthError::InvalidToken),
    {
        match bearer_token(header) {
            Err(e) => return Err(e),
            Ok(_) => {},
        }
        match current_time() {
            Some(now) => AuthToken::from_request_at(header, secret, now),
            None => Err(AuthError::InvalidToken),
        }
    }
}

/// A request whose header carries, after `Bearer `, a token issued for
/// `username` at `now` (one that decodes back to the claims it was signed
/// with) is admitted with `username` as principal up to one hour after `now`,
/// and rejected as an invalid token after that.
pub proof fn lemma_guard_admits_issued_token(username: Seq<char>, secret: Seq<u8>, now: u64, at: u64)
    requires
        now + TOKEN_LIFETIME_SECS <= u64::MAX,
        ({
            let exp = (now + TOKEN_LIFETIME_SECS) as u64;
            token_claims(signed_token(username, exp, secret), secret) == Some((Some(username), Some(exp)))
        }),
    ensures
        ({
            let exp = (now + TOKEN_LIFETIME_SECS) as u64;
            let header = bearer_prefix() + signed_token(username, exp, secret);
            &&& at <= exp ==> admit_spec(Some(header), secret, at) == Ok::<(Seq<char>, u64), AuthError>((username, exp))
            &&& at > exp ==> admit_spec(Some(header), secret, at) == Err::<(Seq<char>, u64), AuthError>(AuthError::InvalidToken)
        }),
{
    let exp = (now + TOKEN_LIFETIME_SECS) as u64;
    let t = signed_token(username, exp, secret);
    let header = bearer_prefix() + t;
    assert(header.take(7) =~= bearer_prefix());
    assert(header.skip(7) =~= t);
}

} // verus!
