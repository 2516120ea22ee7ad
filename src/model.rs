//! The two record shapes of the service.
use vstd::prelude::*;

verus! {

/// A registered user. The username is the natural key.
#[derive(Debug, PartialEq, Eq)]
pub struct User {
    pub first_name: String,
    pub last_name: String,
    pub username: String,
    pub password: String,
    pub email: String,
}

/// The credential pair submitted by the login form.
#[derive(Debug, PartialEq, Eq)]
pub struct UserLogin {
    pub username: String,
    pub password: String,
}

/// The mathematical content of a `User`: its five texts.
pub struct UserView {
    pub first_name: Seq<char>,
    pub last_name: Seq<char>,
    pub username: Seq<char>,
    pub password: Seq<char>,
    pub email: Seq<char>,
}

/// The mathematical content of a `UserLogin`.
pub struct UserLoginView {
    pub username: Seq<char>,
    pub password: Seq<char>,
}

impl View for User {
    type V = UserView;

    open spec fn view(&self) -> UserView {
        UserView {
            first_name: self.first_name@,
            last_name: self.last_name@,
            username: self.username@,
            password: self.password@,
            email: self.email@,
        }
    }
}

impl View for UserLogin {
    type V = UserLoginView;

    open spec fn view(&self) -> UserLoginView {
        UserLoginView { username: self.username@, password: self.password@ }
    }
}

impl User {
    pub fn new(
        first_name: String,
        last_name: String,
        username: String,
        password: String,
        email: String,
    ) -> (r: User)
        ensures
            r.first_name == first_name,
            r.last_name == last_name,
            r.username == username,
            r.password == password,
            r.email == email,
    {
        User { first_name, last_name, username, password, email }
    }

    /// A field-by-field copy of the record.
    pub fn duplicate(&self) -> (r: User)
        ensures
            r == *self,
    {
        User {
            first_name: self.first_name.clone(),
            last_name: self.last_name.clone(),
            username: self.username.clone(),
            password: self.password.clone(),
            email: self.email.clone(),
        }
    }
}

impl UserLogin {
    pub fn new(username: String, password: String) -> (r: UserLogin)
        ensures
            r.username == username,
            r.password == password,
    {
        UserLogin { username, password }
    }
}

} // verus!
