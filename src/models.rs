use vstd::prelude::*;
use crate::ident::DocId;

verus! {

/// A user account. The identifier is assigned by the store and never chosen
/// by a client.
#[derive(Clone, Debug)]
pub struct User {
    pub id: Option<DocId>,
    pub user: String,
    pub password: String,
    pub name: String,
}

/// A blog post; `author` refers to an account by its identifier.
#[derive(Clone, Debug)]
pub struct Post {
    pub id: Option<DocId>,
    pub name: String,
    pub date: String,
    pub text: String,
    pub description: String,
    pub author: Option<DocId>,
}

/// The body of a login request.
#[derive(Clone, Debug)]
pub struct LoginInfo {
    pub user: String,
    pub password: String,
}

/// The body of a successful login.
#[derive(Clone, Debug)]
pub struct LoginResponse {
    pub token: String,
}

/// What a token carries: the authenticated username and the instant, in
/// seconds since the Unix epoch, after which the token is refused.
#[derive(Clone, Debug)]
pub struct Claims {
    pub sub: String,
    pub exp: u64,
}

} // verus!
