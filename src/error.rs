use vstd::prelude::*;

verus! {

/// Why a request was not admitted to a protected operation.
#[derive(Clone, Copy, Debug, PartialEq, Eq, Structural)]
pub enum AuthError {
    /// No `Authorization` header was sent.
    MissingToken,
    /// The header does not start with `Bearer `.
    MalformedHeader,
    /// Bad signature, malformed payload, or expiry in the past.
    InvalidToken,
}

/// Every failure a request can end in.
#[derive(Clone, Copy, Debug, PartialEq, Eq, Structural)]
pub enum ApiError {
    /// An empty or malformed request body or path.
    Validation,
    /// The identifier text is not in the store's identifier format.
    InvalidIdentifier,
    Auth(AuthError),
    /// No account matches the submitted username and password.
    BadCredentials,
    /// The username is already taken.
    Conflict,
    /// No document matched.
    NotFound,
    /// The store failed.
    Store,
    /// A token could not be produced.
    Internal,
}

pub open spec fn auth_status(e: AuthError) -> u16 {
    match e {
        AuthError::MalformedHeader => 400,
        _ => 401,
    }
}

pub open spec fn api_status(e: ApiError) -> u16 {
    match e {
        ApiError::Validation => 400,
        ApiError::InvalidIdentifier => 400,
        ApiError::Auth(a) => auth_status(a),
        ApiError::BadCredentials => 401,
        ApiError::Conflict => 409,
        ApiError::NotFound => 404,
        ApiError::Store => 500,
        ApiError::Internal => 500,
    }
}

impl AuthError {
    /// The HTTP status of the rejection.
    pub fn status(&self) -> (r: u16)
        ensures
            r == auth_status(*self),
    {
        match self {
            AuthError::MalformedHeader => 400,
            _ => 401,
        }
    }

    /// The `error` field of the rejection body.
    pub fn kind(&self) -> (r: &'static str)
        ensures
            *self == AuthError::MalformedHeader ==> r@ == "Bad Request"@,
            *self != AuthError::MalformedHeader ==> r@ == "Unauthorized"@,
    {
        match self {
            AuthError::MalformedHeader => "Bad Request",
            _ => "Unauthorized",
        }
    }

    /// The `message` field of the rejection body.
    pub fn message(&self) -> (r: &'static str)
        ensures
            *self == AuthError::MissingToken ==> r@ == "No token provided."@,
            *self == AuthError::MalformedHeader ==> r@ == "Invalid token format."@,
            *self == AuthError::InvalidToken ==> r@ == "Invalid token."@,
    {
        match self {
            AuthError::MissingToken => "No token provided.",
            AuthError::MalformedHeader => "Invalid token format.",
            AuthError::InvalidToken => "Invalid token.",
        }
    }
}

impl ApiError {
    /// The HTTP status a failure is reported with.
    pub fn status(&self) -> (r: u16)
        ensures
            r == api_status(*self),
    {
        match self {
            ApiError::Validation => 400,
            ApiError::InvalidIdentifier => 400,
            ApiError::Auth(a) => a.status(),
            ApiError::BadCredentials => 401,
            ApiError::Conflict => 409,
            ApiError::NotFound => 404,
            ApiError::Store => 500,
            ApiError::Internal => 500,
        }
    }
}

} // verus!
