use rust_blog::{
    create_post, create_user, delete_post, delete_user, get_all_posts, get_all_users, get_post, get_user, inserted,
    login, login_at, parse_id, rocket, update_post, update_user, verify_token, ApiError, AuthToken, DocId, Endpoint,
    LoginInfo, Method, Post, StoreFailure, User,
};

const SECRET: &[u8] = b"test-signing-secret";
const NOW: u64 = 1_700_000_000;

fn account(user: &str, password: &str, name: &str) -> User {
    User { id: None, user: user.to_string(), password: password.to_string(), name: name.to_string() }
}

fn hex(id: &DocId) -> String {
    id.bytes.iter().map(|b| format!("{:02x}", b)).collect()
}

/// A collection kept in memory, playing the document store in these tests.
struct Accounts {
    docs: Vec<(DocId, User)>,
    next: u8,
}

impl Accounts {
    fn new() -> Self {
        Accounts { docs: Vec::new(), next: 1 }
    }
    fn by_username(&self, name: &str) -> Result<Option<User>, StoreFailure> {
        Ok(self.docs.iter().find(|(_, u)| u.user == name).map(|(_, u)| u.clone()))
    }
    fn by_login(&self, name: &str, password: &str) -> Result<Option<User>, StoreFailure> {
        Ok(self.docs.iter().find(|(_, u)| u.user == name && u.password == password).map(|(_, u)| u.clone()))
    }
    fn insert(&mut self, doc: User) -> Result<DocId, StoreFailure> {
        let id = DocId { bytes: [self.next; 12] };
        self.next += 1;
        self.docs.push((id, User { id: Some(id), ..doc }));
        Ok(id)
    }
    fn find(&self, id: &DocId) -> Result<Option<User>, StoreFailure> {
        Ok(self.docs.iter().find(|(d, _)| d.bytes == id.bytes).map(|(_, u)| u.clone()))
    }
    fn update(&mut self, id: &DocId, fields: &User) -> Result<u64, StoreFailure> {
        match self.docs.iter_mut().find(|(d, _)| d.bytes == id.bytes) {
            Some((_, u)) => {
                u.user = fields.user.clone();
                u.password = fields.password.clone();
                u.name = fields.name.clone();
                Ok(1)
            }
            None => Ok(0),
        }
    }
    fn delete(&mut self, id: &DocId) -> Result<u64, StoreFailure> {
        let before = self.docs.len();
        self.docs.retain(|(d, _)| d.bytes != id.bytes);
        Ok((before - self.docs.len()) as u64)
    }
    fn create(&mut self, new_user: &User) -> Result<DocId, ApiError> {
        let doc = create_user(self.by_username(&new_user.user), new_user)?;
        inserted(self.insert(doc))
    }
}

#[test]
fn parse_id_accepts_24_hex_digits() {
    let id = parse_id("0123456789abcdefABCDEF01").unwrap();
    assert_eq!(id.bytes, [0x01, 0x23, 0x45, 0x67, 0x89, 0xab, 0xcd, 0xef, 0xab, 0xcd, 0xef, 0x01]);
}

#[test]
fn parse_id_rejects_other_text() {
    assert_eq!(parse_id("not-a-valid-id-format").unwrap_err(), ApiError::InvalidIdentifier);
    assert_eq!(parse_id("").unwrap_err(), ApiError::InvalidIdentifier);
    assert_eq!(parse_id("0123456789abcdef0123456").unwrap_err(), ApiError::InvalidIdentifier);
    assert_eq!(parse_id("0123456789abcdef012345678").unwrap_err(), ApiError::InvalidIdentifier);
    assert_eq!(parse_id("0123456789abcdef0123456g").unwrap_err(), ApiError::InvalidIdentifier);
    assert_ne!(ApiError::InvalidIdentifier, ApiError::NotFound);
    assert_eq!(ApiError::InvalidIdentifier.status(), 400);
}

#[test]
fn duplicate_username_is_conflict() {
    let mut store = Accounts::new();
    assert!(store.create(&account("alice", "pw1", "Alice")).is_ok());
    assert_eq!(store.create(&account("alice", "pw2", "Other Alice")).unwrap_err(), ApiError::Conflict);
    assert_eq!(store.docs.iter().filter(|(_, u)| u.user == "alice").count(), 1);
}

#[test]
fn create_strips_client_identifier() {
    let mut u = account("bob", "pw", "Bob");
    u.id = Some(DocId { bytes: [9; 12] });
    let doc = create_user(Ok::<Option<User>, StoreFailure>(None), &u).unwrap();
    assert!(doc.id.is_none());
    assert_eq!(doc.user, "bob");
    assert_eq!(doc.password, "pw");
    assert_eq!(doc.name, "Bob");
    assert_eq!(create_user(Err::<Option<User>, StoreFailure>(StoreFailure), &u).unwrap_err(), ApiError::Store);
}

#[test]
fn create_post_strips_identifier() {
    let p = Post {
        id: Some(DocId { bytes: [3; 12] }),
        name: "n".to_string(),
        date: "2024-01-01".to_string(),
        text: "body".to_string(),
        description: "d".to_string(),
        author: Some(DocId { bytes: [4; 12] }),
    };
    let doc = create_post(&p);
    assert!(doc.id.is_none());
    assert_eq!(doc.name, "n");
    assert_eq!(doc.date, "2024-01-01");
    assert_eq!(doc.text, "body");
    assert_eq!(doc.description, "d");
    assert_eq!(doc.author.unwrap().bytes, [4; 12]);
}

#[test]
fn update_missing_id_is_not_found_and_creates_nothing() {
    let mut store = Accounts::new();
    let id = parse_id("aaaaaaaaaaaaaaaaaaaaaaaa").unwrap();
    let matched = store.update(&id, &account("x", "y", "z"));
    assert_eq!(update_user(matched), Err(ApiError::NotFound));
    assert!(store.docs.is_empty());
    assert_eq!(update_user(Ok(1)), Ok(()));
    assert_eq!(update_user(Err(StoreFailure)), Err(ApiError::Store));
    assert_eq!(update_post(Ok(0)), Err(ApiError::NotFound));
    assert_eq!(update_post(Ok(1)), Ok(()));
}

#[test]
fn second_delete_is_not_found() {
    let mut store = Accounts::new();
    let id = store.create(&account("carol", "pw", "Carol")).unwrap();
    assert_eq!(delete_user(store.delete(&id)), Ok("User successfully deleted!"));
    assert_eq!(delete_user(store.delete(&id)), Err(ApiError::NotFound));
    assert_eq!(delete_user(Err(StoreFailure)), Err(ApiError::Store));
    assert_eq!(delete_post(Ok(1)), Ok("Post successfully deleted!"));
    assert_eq!(delete_post(Ok(0)), Err(ApiError::NotFound));
}

#[test]
fn reads_map_store_outcomes() {
    assert_eq!(get_user(Ok::<Option<u8>, StoreFailure>(Some(7))), Ok(7));
    assert_eq!(get_user(Ok::<Option<u8>, StoreFailure>(None)), Err(ApiError::NotFound));
    assert_eq!(get_user(Err::<Option<u8>, StoreFailure>(StoreFailure)), Err(ApiError::Store));
    assert_eq!(get_post(Ok::<Option<u8>, StoreFailure>(None)), Err(ApiError::NotFound));
    assert_eq!(get_all_users(Ok::<Vec<u8>, StoreFailure>(vec![1, 2])), Ok(vec![1, 2]));
    assert_eq!(get_all_posts(Err::<Vec<u8>, StoreFailure>(StoreFailure)), Err(ApiError::Store));
    assert_eq!(inserted(Err(StoreFailure)).unwrap_err(), ApiError::Store);
}

#[test]
fn login_outcomes() {
    let info = LoginInfo { user: "alice".to_string(), password: "pw".to_string() };
    let resp = login_at(Ok::<Option<()>, StoreFailure>(Some(())), &info, SECRET, NOW).unwrap();
    assert_eq!(verify_token(&resp.token, SECRET, NOW).unwrap().sub, "alice");
    assert_eq!(
        login_at(Ok::<Option<()>, StoreFailure>(None), &info, SECRET, NOW).unwrap_err(),
        ApiError::BadCredentials
    );
    assert_eq!(login_at(Err::<Option<()>, StoreFailure>(StoreFailure), &info, SECRET, NOW).unwrap_err(), ApiError::Store);
    assert!(login(Ok::<Option<()>, StoreFailure>(Some(())), &info, SECRET).is_ok());
}

#[test]
fn login_create_get_delete_round() {
    let mut store = Accounts::new();
    store.create(&account("root", "secret", "Root")).unwrap();

    let info = LoginInfo { user: "root".to_string(), password: "secret".to_string() };
    let token = login(store.by_login(&info.user, &info.password), &info, SECRET).unwrap().token;
    let header = format!("Bearer {}", token);

    assert!(AuthToken::from_request(Some(&header), SECRET).is_ok());
    let id = store.create(&account("newcomer", "pw", "New")).unwrap();
    let path = hex(&id);

    assert!(AuthToken::from_request(Some(&header), SECRET).is_ok());
    let id = parse_id(&path).unwrap();
    let doc = get_user(store.find(&id)).unwrap();
    assert_eq!(doc.user, "newcomer");
    assert_eq!(doc.password, "pw");

    assert!(AuthToken::from_request(Some(&header), SECRET).is_ok());
    assert_eq!(delete_user(store.delete(&id)), Ok("User successfully deleted!"));

    assert_eq!(get_user(store.find(&id)).unwrap_err(), ApiError::NotFound);
    assert_eq!(get_user(store.find(&id)).unwrap_err().status(), 404);
}

#[test]
fn wrong_password_gets_no_token() {
    let mut store = Accounts::new();
    store.create(&account("root", "secret", "Root")).unwrap();
    let info = LoginInfo { user: "root".to_string(), password: "guess".to_string() };
    assert_eq!(login(store.by_login(&info.user, &info.password), &info, SECRET).unwrap_err(), ApiError::BadCredentials);
}

#[test]
fn route_table() {
    let routes = rocket();
    assert_eq!(routes.len(), 11);
    assert_eq!(routes[0], Endpoint::Login);
    assert!(!Endpoint::Login.requires_auth());
    assert!(Endpoint::CreateUser.requires_auth());
    assert!(Endpoint::GetUser.requires_auth());
    assert!(Endpoint::ListUsers.requires_auth());
    assert!(Endpoint::CreatePost.requires_auth());
    assert!(Endpoint::UpdatePost.requires_auth());
    assert!(Endpoint::DeletePost.requires_auth());
    assert!(!Endpoint::GetPost.requires_auth());
    assert!(!Endpoint::ListPosts.requires_auth());
    assert_eq!(Endpoint::Login.method(), Method::Post);
    assert_eq!(Endpoint::UpdateUser.method(), Method::Put);
    assert_eq!(Endpoint::DeletePost.method(), Method::Delete);
    assert_eq!(Endpoint::ListPosts.method(), Method::Get);
    assert_eq!(Endpoint::GetUser.path(), "/user/<path>");
    assert_eq!(Endpoint::ListUsers.path(), "/users");
    assert_eq!(Endpoint::Login.path(), "/login");
}
