use vstd::prelude::*;
use crate::error::ApiError;
use crate::ident::DocId;
use crate::models::{User, Post, LoginInfo, LoginResponse};
use crate::token::{signed_token, token_claims, issue_at, issue, TOKEN_LIFETIME_SECS};

verus! {

/// A failure reported by the document store.
#[derive(Clone, Copy, Debug, PartialEq, Eq)]
pub struct StoreFailure;

/// A lookup by key: the document, or a not-found outcome, or a store error.
pub open spec fn found_spec<T>(reply: Result<Option<T>, StoreFailure>) -> Result<T, ApiError> {
    match reply {
        Ok(Some(d)) => Ok(d),
        Ok(None) => Err(ApiError::NotFound),
        Err(_) => Err(ApiError::Store),
    }
}

/// A match or deletion count: zero documents is a not-found outcome.
pub open spec fn count_spec(reply: Result<u64, StoreFailure>) -> Result<(), ApiError> {
    match reply {
        Ok(n) => if n == 0 {
            Err(ApiError::NotFound)
        } else {
            Ok(())
        },
        Err(_) => Err(ApiError::Store),
    }
}

/// The account document that is written for a client's account: every field
/// but the identifier, which the store assigns.
pub open spec fn user_doc(u: User) -> User {
    User { id: None, user: u.user, password: u.password, name: u.name }
}

pub open spec fn post_doc(p: Post) -> Post {
    Post { id: None, name: p.name, date: p.date, text: p.text, description: p.description, author: p.author }
}

/// Account creation after the lookup of its username.
pub open spec fn create_user_spec<T>(existing: Result<Option<T>, StoreFailure>, new_user: User) -> Result<User, ApiError> {
    match existing {
        Ok(Some(_)) => Err(ApiError::Conflict),
        Ok(None) => Ok(user_doc(new_user)),
        Err(_) => Err(ApiError::Store),
    }
}

fn found_document<T>(reply: Result<Option<T>, StoreFailure>) -> (r: Result<T, ApiError>)
    ensures
        r == found_spec(reply),
{
    match reply {
        Ok(Some(d)) => Ok(d),
        Ok(None) => Err(ApiError::NotFound),
        Err(_) => Err(ApiError::Store),
    }
}

fn counted(reply: Result<u64, StoreFailure>) -> (r: Result<(), ApiError>)
    ensures
        r == count_spec(reply),
{
    match reply {
        Ok(n) => if n == 0 {
            Err(ApiError::NotFound)
        } else {
            Ok(())
        },
        Err(_) => Err(ApiError::Store),
    }
}

impl User {
    /// The same account without its identifier.
    pub fn without_id(&self) -> (r: User)
        ensures
            r == user_doc(*self),
    {
        User { id: None, user: self.user.clone(), password: self.password.clone(), name: self.name.clone() }
    }
}

impl Post {
    /// The same post without its identifier.
    pub fn without_id(&self) -> (r: Post)
        ensures
            r == post_doc(*self),
    {
        Post {
            id: None,
            name: self.name.clone(),
            date: self.date.clone(),
            text: self.text.clone(),
            description: self.description.clone(),
            author: self.author,
        }
    }
}

/// Login at `now`, given the store's lookup of an account with the
/// submitted username and password: a token for the username when one was
/// found, a credential failure when none was.
pub fn login_at<T>(reply: Result<Option<T>, StoreFailure>, info: &LoginInfo, secret: &[u8], now: u64) -> (r: Result<LoginResponse, ApiError>)
    ensures
        reply matches Ok(None) ==> r == Err::<LoginResponse, ApiError>(ApiError::BadCredentials),
        reply is Err ==> r == Err::<LoginResponse, ApiError>(ApiError::Store),
        reply matches Ok(Some(_)) ==> {
            &&& now + TOKEN_LIFETIME_SECS <= u64::MAX ==> r is Ok
            &&& r matches Ok(resp) ==> resp.token@ == signed_token(info.user@, (now + TOKEN_LIFETIME_SECS) as u64, secret@)
            &&& r matches Ok(resp) ==> token_claims(resp.token@, secret@)
                == Some((Some(info.user@), Some((now + TOKEN_LIFETIME_SECS) as u64)))
            &&& r is Err ==> r == Err::<LoginResponse, ApiError>(ApiError::Internal)
            &&& now + TOKEN_LIFETIME_SECS > u64::MAX ==> r is Err
        },
{
    match reply {
        Ok(Some(_)) => match issue_at(info.user.as_str(), now, secret) {
            Ok(token) => Ok(LoginResponse { token }),
            Err(e) => Err(e),
        },
        Ok(None) => Err(ApiError::BadCredentials),
        Err(_) => Err(ApiError::Store),
    }
}

/// Login against the current time.
pub fn login<T>(reply: Result<Option<T>, StoreFailure>, info: &LoginInfo, secret: &[u8]) -> (r: Result<LoginResponse, ApiError>)
    ensures
        reply matches Ok(None) ==> r == Err::<LoginResponse, ApiError>(ApiError::BadCredentials),
        reply is Err ==> r == Err::<LoginResponse, ApiError>(ApiError::Store),
        reply matches Ok(Some(_)) ==> {
            &&& r matches Ok(resp) ==> exists|now: u64|
                now + TOKEN_LIFETIME_SECS <= u64::MAX
                && resp.token@ == #[trigger] signed_token(info.user@, (now + TOKEN_LIFETIME_SECS) as u64, secret@)
                && token_claims(resp.token@, secret@) == Some((Some(info.user@), Some((now + TOKEN_LIFETIME_SECS) as u64)))
            &&& r is Err ==> r == Err::<LoginResponse, ApiError>(ApiError::Internal)
        },
{
    match reply {
        Ok(Some(_)) => match issue(info.user.as_str(), secret) {
            Ok(token) => Ok(LoginResponse { token }),
            Err(e) => Err(e),
        },
        Ok(None) => Err(ApiError::BadCredentials),
        Err(_) => Err(ApiError::Store),
    }
}

/// Account creation, given the store's lookup of the new username: a taken
/// username is a conflict; otherwise the document to insert.
pub fn create_user<T>(existing: Result<Option<T>, StoreFailure>, new_user: &User) -> (r: Result<User, ApiError>)
    ensures
        r == create_user_spec(existing, *new_user),
{
    match existing {
        Ok(Some(_)) => Err(ApiError::Conflict),
        Ok(None) => Ok(new_user.without_id()),
        Err(_) => Err(ApiError::Store),
    }
}

/// Post creation: the document to insert.
pub fn create_post(new_post: &Post) -> (r: Post)
    ensures
        r == post_doc(*new_post),
{
    new_post.without_id()
}

/// The identifier the store assigned to an inserted document.
pub fn inserted(reply: Result<DocId, StoreFailure>) -> (r: Result<DocId, ApiError>)
    ensures
        reply matches Ok(id) ==> r matches Ok(d) && d.bytes@ == id.bytes@,
        reply is Err ==> r == Err::<DocId, ApiError>(ApiError::Store),
{
    match reply {
        Ok(id) => Ok(id),
        Err(_) => Err(ApiError::Store),
    }
}

/// An account read by identifier.
pub fn get_user<T>(reply: Result<Option<T>, StoreFailure>) -> (r: Result<T, ApiError>)
    ensures
        r == found_spec(reply),
{
    found_document(reply)
}

/// A post read by identifier.
pub fn get_post<T>(reply: Result<Option<T>, StoreFailure>) -> (r: Result<T, ApiError>)
    ensures
        r == found_spec(reply),
{
    found_document(reply)
}

/// An account update, given the store's match count.
pub fn update_user(matched: Result<u64, StoreFailure>) -> (r: Result<(), ApiError>)
    ensures
        r == count_spec(matched),
{
    counted(matched)
}

/// A post update, given the store's match count.
pub fn update_post(matched: Result<u64, StoreFailure>) -> (r: Result<(), ApiError>)
    ensures
        r == count_spec(matched),
{
    counted(matched)
}

/// An account deletion, given the store's deletion count.
pub fn delete_user(deleted: Result<u64, StoreFailure>) -> (r: Result<&'static str, ApiError>)
    ensures
        r is Ok <==> count_spec(deleted) is Ok,
        r matches Ok(msg) ==> msg@ == "User successfully deleted!"@,
        r matches Err(e) ==> count_spec(deleted) == Err::<(), ApiError>(e),
{
    match counted(deleted) {
        Ok(()) => Ok("User successfully deleted!"),
        Err(e) => Err(e),
    }
}

/// A post deletion, given the store's deletion count.
pub fn delete_post(deleted: Result<u64, StoreFailure>) -> (r: Result<&'static str, ApiError>)
    ensures
        r is Ok <==> count_spec(deleted) is Ok,
        r matches Ok(msg) ==> msg@ == "Post successfully deleted!"@,
        r matches Err(e) ==> count_spec(deleted) == Err::<(), ApiError>(e),
{
    match counted(deleted) {
        Ok(()) => Ok("Post successfully deleted!"),
        Err(e) => Err(e),
    }
}

/// Every account, in the store's order.
pub fn get_all_users<T>(reply: Result<Vec<T>, StoreFailure>) -> (r: Result<Vec<T>, ApiError>)
    ensures
        reply matches Ok(v) ==> r matches Ok(w) && w@ == v@,
        reply is Err ==> r is Err && r->Err_0 == ApiError::Store,
{
    match reply {
        Ok(v) => Ok(v),
        Err(_) => Err(ApiError::Store),
    }
}

/// Every post, in the store's order.
pub fn get_all_posts<T>(reply: Result<Vec<T>, StoreFailure>) -> (r: Result<Vec<T>, ApiError>)
    ensures
        reply matches Ok(v) ==> r matches Ok(w) && w@ == v@,
        reply is Err ==> r is Err && r->Err_0 == ApiError::Store,
{
    match reply {
        Ok(v) => Ok(v),
        Err(_) => Err(ApiError::Store),
    }
}

} // verus!
