//! User registration and login: the record types, a store of users with
//! unique usernames, and the request handlers that turn lookups and inserts
//! into HTTP-style responses.
pub mod model;
pub mod store;
pub mod handlers;
pub mod laws;
