use user_registry::handlers::{
    add_user, add_user_response, get_user, get_user_response, index, login, verification,
    verification_response, Body, Response, INDEX_HTML, LOGIN_HTML,
};
use user_registry::model::{User, UserLogin};
use user_registry::store::{StoreError, UserStore};

fn user(first: &str, last: &str, name: &str, pw: &str, email: &str) -> User {
    User::new(first.to_string(), last.to_string(), name.to_string(), pw.to_string(), email.to_string())
}

fn credentials(name: &str, pw: &str) -> UserLogin {
    UserLogin::new(name.to_string(), pw.to_string())
}

fn text(status: u16, s: &str) -> Response {
    Response { status, body: Body::Text(s.to_string()) }
}

fn json(u: &User) -> Response {
    Response { status: 200, body: Body::Json(u.duplicate()) }
}

#[test]
fn register_look_up_and_log_in() {
    let mut store = UserStore::new();
    let ab = user("A", "B", "ab1", "pw", "a@b.com");
    assert_eq!(add_user(&mut store, ab.duplicate()), text(200, "Successfully added user"));
    assert_eq!(get_user(&store, "ab1".to_string()), json(&ab));
    assert_eq!(verification(&store, credentials("ab1", "pw")), json(&ab));
    assert_eq!(
        verification(&store, credentials("ab1", "wrong")),
        text(404, "Invalid password for user: ab1")
    );
}

#[test]
fn distinct_usernames_all_found() {
    let mut store = UserStore::new();
    let users = vec![
        user("Ann", "Lee", "ann", "1", "ann@x.org"),
        user("Bo", "Kim", "bo", "2", "bo@x.org"),
        user("Cy", "Ng", "cy", "3", "cy@x.org"),
    ];
    for u in &users {
        assert_eq!(add_user(&mut store, u.duplicate()), text(200, "Successfully added user"));
    }
    for u in &users {
        assert_eq!(get_user(&store, u.username.clone()), json(u));
    }
}

#[test]
fn same_username_registers_once() {
    let mut store = UserStore::new();
    let first = user("A", "B", "dup", "one", "a@b.com");
    let second = user("C", "D", "dup", "two", "c@d.com");
    assert_eq!(add_user(&mut store, first.duplicate()), text(200, "Successfully added user"));
    assert_eq!(
        add_user(&mut store, second),
        text(500, "duplicate key error: username dup")
    );
    assert_eq!(get_user(&store, "dup".to_string()), json(&first));
}

#[test]
fn unknown_user_not_found() {
    let mut store = UserStore::new();
    assert_eq!(get_user(&store, "ghost".to_string()), text(404, "No user found with username ghost"));
    add_user(&mut store, user("A", "B", "ab1", "pw", "a@b.com"));
    assert_eq!(get_user(&store, "ab".to_string()), text(404, "No user found with username ab"));
    assert_eq!(get_user(&store, "".to_string()), text(404, "No user found with username "));
}

#[test]
fn unknown_login_not_found() {
    let mut store = UserStore::new();
    add_user(&mut store, user("A", "B", "ab1", "pw", "a@b.com"));
    assert_eq!(
        verification(&store, credentials("zz", "pw")),
        text(404, "No user found with username zz")
    );
}

#[test]
fn password_compared_exactly() {
    let mut store = UserStore::new();
    add_user(&mut store, user("A", "B", "ab1", "pw", "a@b.com"));
    assert_eq!(
        verification(&store, credentials("ab1", "PW")),
        text(404, "Invalid password for user: ab1")
    );
    assert_eq!(
        verification(&store, credentials("ab1", "pw ")),
        text(404, "Invalid password for user: ab1")
    );
    assert_eq!(
        verification(&store, credentials("ab1", "")),
        text(404, "Invalid password for user: ab1")
    );
}

#[test]
fn pages_are_served_identically() {
    let first = index();
    assert_eq!(first.status, 200);
    assert_eq!(first, index());
    assert_eq!(first.body, Body::Html(INDEX_HTML.to_string()));
    assert!(INDEX_HTML.contains("<form action=/add_user method=POST>"));
    let second = login();
    assert_eq!(second.status, 200);
    assert_eq!(second, login());
    assert_eq!(second.body, Body::Html(LOGIN_HTML.to_string()));
    assert!(LOGIN_HTML.contains("<form action=/verification method=POST>"));
}

#[test]
fn store_failures_answer_500() {
    assert_eq!(add_user_response(Err("E11000 duplicate".to_string())), text(500, "E11000 duplicate"));
    assert_eq!(add_user_response(Ok(())), text(200, "Successfully added user"));
    assert_eq!(
        get_user_response("ab1".to_string(), Err("connection refused".to_string())),
        text(500, "connection refused")
    );
    assert_eq!(
        verification_response(credentials("ab1", "pw"), Err("timed out".to_string())),
        text(500, "timed out")
    );
}

#[test]
fn outcomes_without_store() {
    let ab = user("A", "B", "ab1", "pw", "a@b.com");
    assert_eq!(get_user_response("ab1".to_string(), Ok(Some(ab.duplicate()))), json(&ab));
    assert_eq!(
        get_user_response("ab1".to_string(), Ok(None)),
        text(404, "No user found with username ab1")
    );
    assert_eq!(verification_response(credentials("ab1", "pw"), Ok(Some(ab.duplicate()))), json(&ab));
    assert_eq!(
        verification_response(credentials("ab1", "nope"), Ok(Some(ab))),
        text(404, "Invalid password for user: ab1")
    );
    assert_eq!(
        verification_response(credentials("q", "pw"), Ok(None)),
        text(404, "No user found with username q")
    );
}

#[test]
fn store_insert_and_find() {
    let mut store = UserStore::new();
    assert_eq!(store.find_user_by_username(&"ab1".to_string()), None);
    assert_eq!(store.insert_user(user("A", "B", "ab1", "pw", "a@b.com")), Ok(()));
    assert_eq!(
        store.find_user_by_username(&"ab1".to_string()),
        Some(user("A", "B", "ab1", "pw", "a@b.com"))
    );
    let err = store.insert_user(user("X", "Y", "ab1", "q", "x@y.com"));
    assert_eq!(err, Err(StoreError::DuplicateUsername("ab1".to_string())));
    assert_eq!(
        StoreError::DuplicateUsername("ab1".to_string()).message(),
        "duplicate key error: username ab1"
    );
    assert_eq!(
        store.find_user_by_username(&"ab1".to_string()),
        Some(user("A", "B", "ab1", "pw", "a@b.com"))
    );
}
