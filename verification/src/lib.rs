//! The pet store's domain logic as a verified library: catalog ids and
//! money, the session cart, checkout data, password policy, and the small
//! decisions the request handlers make. Everything here is plain values;
//! the HTTP server and the database live in the application around it.

pub mod auth;
pub mod domain;
pub mod text;
pub mod web;
