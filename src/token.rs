use vstd::prelude::*;
use crate::error::{ApiError, AuthError};
use crate::models::Claims;

verus! {

/// How long an issued token stays valid, in seconds.
pub const TOKEN_LIFETIME_SECS: u64 = 3600;

/// The compact HS256 token that signs the claims `{sub, exp}` with `secret`.
pub uninterp spec fn signed_token(sub: Seq<char>, exp: u64, secret: Seq<u8>) -> Seq<char>;

/// What an HS256 token decodes to under `secret`, signature and structure
/// checked but expiry not: `None` when it does not decode, else its `sub`
/// and `exp` claims, each absent when missing or of the wrong JSON type.
pub uninterp spec fn token_claims(token: Seq<char>, secret: Seq<u8>) -> Option<(Option<Seq<char>>, Option<u64>)>;

pub open spec fn decoded_view(d: Option<(Option<String>, Option<u64>)>) -> Option<(Option<Seq<char>>, Option<u64>)> {
    match d {
        None => None,
        Some((sub, exp)) => Some((
            match sub {
                Some(s) => Some(s@),
                None => None,
            },
            exp,
        )),
    }
}

/// The subject and expiry of decoded claims that are complete and not yet
/// expired at `now`; `None` when the token must be refused.
pub open spec fn accepted(d: Option<(Option<Seq<char>>, Option<u64>)>, now: u64) -> Option<(Seq<char>, u64)> {
    match d {
        Some((Some(sub), Some(exp))) => if now <= exp {
            Some((sub, exp))
        } else {
            None
        },
        _ => None,
    }
}

/// The outcome of verifying `token` at `now`.
pub open spec fn verify_outcome(token: Seq<char>, secret: Seq<u8>, now: u64) -> Option<(Seq<char>, u64)> {
    accepted(token_claims(token, secret), now)
}

pub open spec fn claims_match(r: Result<Claims, AuthError>, o: Option<(Seq<char>, u64)>) -> bool {
    match o {
        Some((sub, exp)) => r matches Ok(c) && c.sub@ == sub && c.exp == exp,
        None => r == Err::<Claims, AuthError>(AuthError::InvalidToken),
    }
}

/// Relies on `jsonwebtoken::encode` with the default header (HS256) and an
/// HMAC key made from `secret`, over the JSON object `{"sub": sub, "exp": exp}`.
/// With an HMAC key and an HMAC algorithm it always succeeds, and what it
/// produces is what `jsonwebtoken::decode` with the same secret gives back.
#[verifier::external_body]
fn sign_claims(sub: &str, exp: u64, secret: &[u8]) -> (r: Option<String>)
    ensures
        r is Some,
        r matches Some(t) ==> t@ == signed_token(sub@, exp, secret@),
        r matches Some(t) ==> token_claims(t@, secret@) == Some((Some(sub@), Some(exp))),
{
    let mut claims = serde_json::Map::new();
    claims.insert(String::from("sub"), serde_json::Value::from(sub));
    claims.insert(String::from("exp"), serde_json::Value::from(exp));
    let key = jsonwebtoken::EncodingKey::from_secret(secret);
    match jsonwebtoken::encode(&jsonwebtoken::Header::default(), &claims, &key) {
        Ok(t) => Some(t),
        Err(_) => None,
    }
}

/// Relies on `jsonwebtoken::decode` with HS256 only and expiry left
/// unchecked: it checks the structure and the signature, requires an `exp`
/// claim, and hands back the payload as a JSON object, of which the `sub`
/// string and the `exp` integer are picked.
#[verifier::external_body]
fn decode_claims(token: &str, secret: &[u8]) -> (r: Option<(Option<String>, Option<u64>)>)
    ensures
        decoded_view(r) == token_claims(token@, secret@),
{
    let mut validation = jsonwebtoken::Validation::new(jsonwebtoken::Algorithm::HS256);
    validation.validate_exp = false;
    let key = jsonwebtoken::DecodingKey::from_secret(secret);
    match jsonwebtoken::decode::<serde_json::Map<String, serde_json::Value>>(token, &key, &validation) {
        Ok(data) => {
            let sub = data.claims.get("sub").and_then(serde_json::Value::as_str).map(String::from);
            let exp = data.claims.get("exp").and_then(serde_json::Value::as_u64);
            Some((sub, exp))
        },
        Err(_) => None,
    }
}

/// Relies on `SystemTime::elapsed` of `std::time::UNIX_EPOCH`: whole seconds
/// since the Unix epoch, or `None` when the clock is set before it. Nothing
/// is known of the value.
#[verifier::external_body]
fn unix_now() -> (r: Option<u64>) {
    match std::time::UNIX_EPOCH.elapsed() {
        Ok(d) => Some(d.as_secs()),
        Err(_) => None,
    }
}

/// Admits decoded claims at `now`: both claims present and the expiry not
/// in the past. Every other case is an invalid token.
pub fn check_claims(decoded: Option<(Option<String>, Option<u64>)>, now: u64) -> (r: Result<Claims, AuthError>)
    ensures
        claims_match(r, accepted(decoded_view(decoded), now)),
{
    match decoded {
        Some((Some(sub), Some(exp))) => {
            if now <= exp {
                Ok(Claims { sub, exp })
            } else {
                Err(AuthError::InvalidToken)
            }
        },
        _ => Err(AuthError::InvalidToken),
    }
}

/// Verifies a token's signature and expiry at `now`.
pub fn verify_token(token: &str, secret: &[u8], now: u64) -> (r: Result<Claims, AuthError>)
    ensures
        claims_match(r, verify_outcome(token@, secret@, now)),
{
    let decoded = decode_claims(token, secret);
    check_claims(decoded, now)
}

/// The current time as seconds since the Unix epoch, if it is not before it.
pub(crate) fn current_time() -> (r: Option<u64>) {
    unix_now()
}

/// Issues a token for `username` at `now`, valid for one hour: it verifies,
/// with `username` as subject, at every instant up to its expiry, and at no
/// instant after.
pub fn issue_at(username: &str, now: u64, secret: &[u8]) -> (r: Result<String, ApiError>)
    ensures
        now + TOKEN_LIFETIME_SECS <= u64::MAX ==> r is Ok,
        now + TOKEN_LIFETIME_SECS > u64::MAX ==> r == Err::<String, ApiError>(ApiError::Internal),
        r matches Ok(t) ==> t@ == signed_token(username@, (now + TOKEN_LIFETIME_SECS) as u64, secret@),
        r matches Ok(t) ==> token_claims(t@, secret@)
            == Some((Some(username@), Some((now + TOKEN_LIFETIME_SECS) as u64))),
        r matches Ok(t) ==> forall|at: u64| #[trigger] verify_outcome(t@, secret@, at) == if at <= now + TOKEN_LIFETIME_SECS {
            Some((username@, (now + TOKEN_LIFETIME_SECS) as u64))
        } else {
            None
        },
{
    if now > u64::MAX - TOKEN_LIFETIME_SECS {
        return Err(ApiError::Internal);
    }
    match sign_claims(username, now + TOKEN_LIFETIME_SECS, secret) {
        Some(t) => Ok(t),
        None => Err(ApiError::Internal),
    }
}

/// Issues a token for `username` now, valid for one hour.
pub fn issue(username: &str, secret: &[u8]) -> (r: Result<String, ApiError>)
    ensures
        r matches Ok(t) ==> exists|now: u64|
            now + TOKEN_LIFETIME_SECS <= u64::MAX
            && t@ == #[trigger] signed_token(username@, (now + TOKEN_LIFETIME_SECS) as u64, secret@)
            && token_claims(t@, secret@) == Some((Some(username@), Some((now + TOKEN_LIFETIME_SECS) as u64))),
        r is Err ==> r == Err::<String, ApiError>(ApiError::Internal),
{
    match current_time() {
        Some(now) => issue_at(username, now, secret),
        None => Err(ApiError::Internal),
    }
}

/// Verifies a token against the current time.
pub fn verify(token: &str, secret: &[u8]) -> (r: Result<Claims, AuthError>)
    ensures
        r matches Ok(c) ==> exists|now: u64| #[trigger] verify_outcome(token@, secret@, now) == Some((c.sub@, c.exp)),
        r is Err ==> r == Err::<Claims, AuthError>(AuthError::InvalidToken),
{
    match current_time() {
        Some(now) => verify_token(token, secret, now),
        None => Err(AuthError::InvalidToken),
    }
}

/// A token issued for `username` at `now` (whose claims, as `issue_at`
/// ensures, decode back to those it was signed with) is accepted, with
/// `username` as subject, at every instant up to one hour after `now`, and
/// refused at every instant after that.
pub proof fn lemma_issue_then_verify(username: Seq<char>, secret: Seq<u8>, now: u64, at: u64)
    requires
        now + TOKEN_LIFETIME_SECS <= u64::MAX,
        ({
            let exp = (now + TOKEN_LIFETIME_SECS) as u64;
            token_claims(signed_token(username, exp, secret), secret) == Some((Some(username), Some(exp)))
        }),
    ensures
        ({
            let exp = (now + TOKEN_LIFETIME_SECS) as u64;
            let t = signed_token(username, exp, secret);
            &&& at <= now + TOKEN_LIFETIME_SECS ==> verify_outcome(t, secret, at) == Some((username, exp))
            &&& at > now + TOKEN_LIFETIME_SECS ==> verify_outcome(t, secret, at) is None
        }),
{
}

} // verus!
