//! A small blog service core: bearer-token authentication in front of a
//! document store holding accounts and posts.
//!
//! The store itself and the HTTP transport live outside this library; what is
//! here decides, from plain values, what each request yields.

mod ident;
mod error;
mod models;
mod token;
mod guard;
mod repo;
mod routes;
mod store;

pub use ident::{DocId, parse_id, is_hex_digit, hex_value, is_object_id_text, object_id_bytes};
pub use error::{AuthError, ApiError, auth_status, api_status};
pub use models::{User, Post, LoginInfo, LoginResponse, Claims};
pub use token::{
    TOKEN_LIFETIME_SECS, signed_token, token_claims, decoded_view, accepted, verify_outcome, claims_match,
    check_claims, verify_token, issue_at, issue, verify, lemma_issue_then_verify,
};
pub use guard::{bearer_prefix, header_view, bearer_spec, admit_spec, bearer_token, AuthToken, lemma_guard_admits_issued_token};
pub use repo::{
    StoreFailure, found_spec, count_spec, user_doc, post_doc, create_user_spec, login_at, login, create_user,
    create_post, inserted, get_user, get_post, update_user, update_post, delete_user, delete_post,
    get_all_users, get_all_posts,
};
pub use routes::{Method, Endpoint, requires_auth_spec, method_spec, path_spec, all_endpoints, rocket};
pub use store::{
    Collection, holds_id, ids_unique, username_count, find_username, create_account, user_set, update_one,
    delete_one, lemma_duplicate_username_conflicts, lemma_update_missing_is_not_found,
    lemma_second_delete_not_found,
};
