use vstd::prelude::*;

verus! {

#[derive(Clone, Copy, Debug, PartialEq, Eq, Structural)]
pub enum Method {
    Get,
    Post,
    Put,
    Delete,
}

/// The operations the service offers.
#[derive(Clone, Copy, Debug, PartialEq, Eq, Structural)]
pub enum Endpoint {
    Login,
    CreateUser,
    GetUser,
    UpdateUser,
    DeleteUser,
    ListUsers,
    CreatePost,
    GetPost,
    UpdatePost,
    DeletePost,
    ListPosts,
}

/// Logging in and reading posts are open; every account operation and every
/// change to a post needs a verified token.
pub open spec fn requires_auth_spec(e: Endpoint) -> bool {
    !(e == Endpoint::Login || e == Endpoint::GetPost || e == Endpoint::ListPosts)
}

pub open spec fn method_spec(e: Endpoint) -> Method {
    match e {
        Endpoint::Login | Endpoint::CreateUser | Endpoint::CreatePost => Method::Post,
        Endpoint::UpdateUser | Endpoint::UpdatePost => Method::Put,
        Endpoint::DeleteUser | Endpoint::DeletePost => Method::Delete,
        _ => Method::Get,
    }
}

pub open spec fn path_spec(e: Endpoint) -> Seq<char> {
    match e {
        Endpoint::Login => "/login"@,
        Endpoint::CreateUser => "/user"@,
        Endpoint::GetUser | Endpoint::UpdateUser | Endpoint::DeleteUser => "/user/<path>"@,
        Endpoint::ListUsers => "/users"@,
        Endpoint::CreatePost => "/post"@,
        Endpoint::GetPost | Endpoint::UpdatePost | Endpoint::DeletePost => "/post/<path>"@,
        Endpoint::ListPosts => "/posts"@,
    }
}

pub open spec fn all_endpoints() -> Seq<Endpoint> {
    seq![
        Endpoint::Login,
        Endpoint::CreateUser,
        Endpoint::GetUser,
        Endpoint::UpdateUser,
        Endpoint::DeleteUser,
        Endpoint::ListUsers,
        Endpoint::CreatePost,
        Endpoint::GetPost,
        Endpoint::UpdatePost,
        Endpoint::DeletePost,
        Endpoint::ListPosts,
    ]
}

impl Endpoint {
    /// Whether a request must pass the token guard first.
    pub fn requires_auth(&self) -> (r: bool)
        ensures
            r == requires_auth_spec(*self),
    {
        match self {
            Endpoint::Login | Endpoint::GetPost | Endpoint::ListPosts => false,
            _ => true,
        }
    }

    pub fn method(&self) -> (r: Method)
        ensures
            r == method_spec(*self),
    {
        match self {
            Endpoint::Login | Endpoint::CreateUser | Endpoint::CreatePost => Method::Post,
            Endpoint::UpdateUser | Endpoint::UpdatePost => Method::Put,
            Endpoint::DeleteUser | Endpoint::DeletePost => Method::Delete,
            _ => Method::Get,
        }
    }

    /// The route's path; `<path>` stands for the identifier segment.
    pub fn path(&self) -> (r: &'static str)
        ensures
            r@ == path_spec(*self),
    {
        match self {
            Endpoint::Login => "/login",
            Endpoint::CreateUser => "/user",
            Endpoint::GetUser | Endpoint::UpdateUser | Endpoint::DeleteUser => "/user/<path>",
            Endpoint::ListUsers => "/users",
            Endpoint::CreatePost => "/post",
            Endpoint::GetPost | Endpoint::UpdatePost | Endpoint::DeletePost => "/post/<path>",
            Endpoint::ListPosts => "/posts",
        }
    }
}

/// The routes the service mounts, each operation once.
pub fn rocket() -> (r: Vec<Endpoint>)
    ensures
        r@ == all_endpoints(),
{
    let r = vec![
        Endpoint::Login,
        Endpoint::CreateUser,
        Endpoint::GetUser,
        Endpoint::UpdateUser,
        Endpoint::DeleteUser,
        Endpoint::ListUsers,
        Endpoint::CreatePost,
        Endpoint::GetPost,
        Endpoint::UpdatePost,
        Endpoint::DeletePost,
        Endpoint::ListPosts,
    ];
    assert(r@ =~= all_endpoints());
    r
}

} // verus!
