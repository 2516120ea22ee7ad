//! The request handlers: what each endpoint answers, given what the store
//! reported.
use vstd::prelude::*;

use crate::model::{User, UserLogin, UserLoginView, UserView};
use crate::store::{lookup, store_error_text, UserStore};

verus! {

/// The request succeeded.
pub const STATUS_OK: u16 = 200;

/// No record matched, or the password did not.
pub const STATUS_NOT_FOUND: u16 = 404;

/// The store failed; the body holds its error text.
pub const STATUS_SERVER_ERROR: u16 = 500;

/// The registration form served at `/`.
pub const INDEX_HTML: &'static str = r#"<html>
        <head><title>User Test</title></head>
        <body>
        <form action=/add_user method=POST>
            <label>
                First Name:
                <input name="first_name">
            </label>
            <label>
                Last Name:
                <input name="last_name">
            </label>
            <label>
                Username:
                <input name="username">
            </label>
            <label>
                Password:
                <input name="password", type = "password">
            </label>
            <label>
                Email:
                <input name="email", type = "email">
            </label>
            <button type=submit>Create User</button>
        </form>
        </body>
    </html>"#;

/// The login form served at `/login`.
pub const LOGIN_HTML: &'static str = r#"<html>
        <head><title>User Test</title></head>
            <body>
            <form action=/verification method=POST>
                <label>
                    Username:
                    <input name="username">
                </label>
                <label>
                    Password:
                    <input name="password", type = "password">
                </label>
                <button type=submit>Login</button>
            </form>
            </body>
        </html>"#;

/// The confirmation of a successful registration.
pub const ADDED_TEXT: &'static str = "Successfully added user";

/// What a response carries.
#[derive(Debug, PartialEq, Eq)]
pub enum Body {
    /// A page, served as is.
    Html(String),
    /// A plain-text message.
    Text(String),
    /// A user record, to be sent as JSON.
    Json(User),
}

/// The mathematical content of a `Body`.
pub enum BodyView {
    Html(Seq<char>),
    Text(Seq<char>),
    Json(UserView),
}

/// An HTTP status and a body.
#[derive(Debug, PartialEq, Eq)]
pub struct Response {
    pub status: u16,
    pub body: Body,
}

/// The mathematical content of a `Response`.
pub struct ResponseView {
    pub status: u16,
    pub body: BodyView,
}

impl View for Body {
    type V = BodyView;

    open spec fn view(&self) -> BodyView {
        match self {
            Body::Html(s) => BodyView::Html(s@),
            Body::Text(s) => BodyView::Text(s@),
            Body::Json(u) => BodyView::Json(u@),
        }
    }
}

impl View for Response {
    type V = ResponseView;

    open spec fn view(&self) -> ResponseView {
        ResponseView { status: self.status, body: self.body@ }
    }
}

/// A plain-text answer.
pub open spec fn text_response(status: u16, text: Seq<char>) -> ResponseView {
    ResponseView { status, body: BodyView::Text(text) }
}

/// The message for a username with no stored record.
pub open spec fn not_found_text(name: Seq<char>) -> Seq<char> {
    "No user found with username "@ + name
}

/// The message for a password that does not match the stored one.
pub open spec fn invalid_password_text(name: Seq<char>) -> Seq<char> {
    "Invalid password for user: "@ + name
}

/// The answer at `/add_user`, given the outcome of the insert.
pub open spec fn add_user_decision(inserted: Result<(), Seq<char>>) -> ResponseView {
    match inserted {
        Ok(_) => text_response(STATUS_OK, ADDED_TEXT@),
        Err(e) => text_response(STATUS_SERVER_ERROR, e),
    }
}

/// The answer at `/get_user/{name}`, given the outcome of the lookup.
pub open spec fn get_user_decision(
    name: Seq<char>,
    found: Result<Option<UserView>, Seq<char>>,
) -> ResponseView {
    match found {
        Ok(Some(u)) => ResponseView { status: STATUS_OK, body: BodyView::Json(u) },
        Ok(None) => text_response(STATUS_NOT_FOUND, not_found_text(name)),
        Err(e) => text_response(STATUS_SERVER_ERROR, e),
    }
}

/// The answer at `/verification`, given the outcome of the lookup of the
/// submitted username.
pub open spec fn verification_decision(
    login: UserLoginView,
    found: Result<Option<UserView>, Seq<char>>,
) -> ResponseView {
    match found {
        Ok(Some(u)) => if u.password != login.password {
            text_response(STATUS_NOT_FOUND, invalid_password_text(u.username))
        } else {
            ResponseView { status: STATUS_OK, body: BodyView::Json(u) }
        },
        Ok(None) => text_response(STATUS_NOT_FOUND, not_found_text(login.username)),
        Err(e) => text_response(STATUS_SERVER_ERROR, e),
    }
}

/// An insert outcome with its error text as a sequence.
pub open spec fn inserted_view(inserted: Result<(), String>) -> Result<(), Seq<char>> {
    match inserted {
        Ok(_) => Ok(()),
        Err(e) => Err(e@),
    }
}

/// A lookup outcome with the record and error text as their views.
pub open spec fn found_view(found: Result<Option<User>, String>) -> Result<
    Option<UserView>,
    Seq<char>,
> {
    match found {
        Ok(Some(u)) => Ok(Some(u@)),
        Ok(None) => Ok(None),
        Err(e) => Err(e@),
    }
}

/// The registration form.
pub fn index() -> (r: Response)
    ensures
        r@ == (ResponseView { status: STATUS_OK, body: BodyView::Html(INDEX_HTML@) }),
{
    Response { status: STATUS_OK, body: Body::Html(String::from_str(INDEX_HTML)) }
}

/// The login form.
pub fn login() -> (r: Response)
    ensures
        r@ == (ResponseView { status: STATUS_OK, body: BodyView::Html(LOGIN_HTML@) }),
{
    Response { status: STATUS_OK, body: Body::Html(String::from_str(LOGIN_HTML)) }
}

/// The answer at `/add_user` once the store has reported on the insert
/// (the error being the store's text).
pub fn add_user_response(inserted: Result<(), String>) -> (r: Response)
    ensures
        r@ == add_user_decision(inserted_view(inserted)),
{
    match inserted {
        Ok(_) => Response { status: STATUS_OK, body: Body::Text(String::from_str(ADDED_TEXT)) },
        Err(e) => Response { status: STATUS_SERVER_ERROR, body: Body::Text(e) },
    }
}

/// The answer at `/get_user/{username}` once the store has reported on the
/// lookup of `username`.
pub fn get_user_response(username: String, found: Result<Option<User>, String>) -> (r: Response)
    ensures
        r@ == get_user_decision(username@, found_view(found)),
{
    match found {
        Ok(Some(u)) => Response { status: STATUS_OK, body: Body::Json(u) },
        Ok(None) => {
            let text = String::from_str("No user found with username ").concat(username.as_str());
            Response { status: STATUS_NOT_FOUND, body: Body::Text(text) }
        },
        Err(e) => Response { status: STATUS_SERVER_ERROR, body: Body::Text(e) },
    }
}

/// The answer at `/verification` once the store has reported on the lookup
/// of the submitted username: the stored password must equal the submitted
/// one, byte for byte.
pub fn verification_response(login: UserLogin, found: Result<Option<User>, String>) -> (r:
    Response)
    ensures
        r@ == verification_decision(login@, found_view(found)),
{
    match found {
        Ok(Some(u)) => {
            if !(u.password == login.password) {
                let text = String::from_str("Invalid password for user: ").concat(
                    u.username.as_str(),
                );
                Response { status: STATUS_NOT_FOUND, body: Body::Text(text) }
            } else {
                Response { status: STATUS_OK, body: Body::Json(u) }
            }
        },
        Ok(None) => {
            let text = String::from_str("No user found with username ").concat(
                login.username.as_str(),
            );
            Response { status: STATUS_NOT_FOUND, body: Body::Text(text) }
        },
        Err(e) => Response { status: STATUS_SERVER_ERROR, body: Body::Text(e) },
    }
}

/// The store after a registration of `u`.
pub open spec fn after_add(db: Map<Seq<char>, UserView>, u: UserView) -> Map<Seq<char>, UserView> {
    if db.contains_key(u.username) {
        db
    } else {
        db.insert(u.username, u)
    }
}

/// The outcome of inserting `u` into a store holding `db`.
pub open spec fn insert_outcome(db: Map<Seq<char>, UserView>, u: UserView) -> Result<
    (),
    Seq<char>,
> {
    if db.contains_key(u.username) {
        Err(crate::store::duplicate_text(u.username))
    } else {
        Ok(())
    }
}

/// The answer at `/add_user` for `u`, against a store holding `db`.
pub open spec fn add_user_spec(db: Map<Seq<char>, UserView>, u: UserView) -> ResponseView {
    add_user_decision(insert_outcome(db, u))
}

/// The answer at `/get_user/{name}` against a store holding `db`.
pub open spec fn get_user_spec(db: Map<Seq<char>, UserView>, name: Seq<char>) -> ResponseView {
    get_user_decision(name, Ok(lookup(db, name)))
}

/// The answer at `/verification` against a store holding `db`.
pub open spec fn verification_spec(
    db: Map<Seq<char>, UserView>,
    login: UserLoginView,
) -> ResponseView {
    verification_decision(login, Ok(lookup(db, login.username)))
}

/// Registers `user` in `store`.
pub fn add_user(store: &mut UserStore, user: User) -> (r: Response)
    requires
        old(store).wf(),
    ensures
        final(store).wf(),
        final(store)@ == after_add(old(store)@, user@),
        r@ == add_user_spec(old(store)@, user@),
{
    let inserted = match store.insert_user(user) {
        Ok(()) => Ok(()),
        Err(e) => Err(e.message()),
    };
    add_user_response(inserted)
}

/// Looks up `username` in `store`.
pub fn get_user(store: &UserStore, username: String) -> (r: Response)
    requires
        store.wf(),
    ensures
        r@ == get_user_spec(store@, username@),
{
    let found = store.find_user_by_username(&username);
    get_user_response(username, Ok(found))
}

/// Checks the submitted credentials against `store`.
pub fn verification(store: &UserStore, login: UserLogin) -> (r: Response)
    requires
        store.wf(),
    ensures
        r@ == verification_spec(store@, login@),
{
    let found = store.find_user_by_username(&login.username);
    verification_response(login, Ok(found))
}

} // verus!
