//! A link-shortening service: accounts, authentication, short links with
//! view counting and a read-through cache, and the HTTP answers built from them.
pub mod config;
pub mod domain;
pub mod text;
pub mod time;
pub mod tools;
pub mod transport;
