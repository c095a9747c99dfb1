//! Request-boundary trust layer of a blog service: roles and authorization,
//! password hashing, signed bearer tokens, login and registration, rate
//! limiting, origin checks and defensive response headers.
//!
//! What is taken on trust from other crates stands in `jwt`, `password`,
//! `origin`, `ambient`, `dates` and `markdown`, and in the two checks at the
//! head of `error::validation`. Everything else is proved against the
//! contracts stated there.

pub mod ambient;
pub mod auth;
pub mod claims;
pub mod config;
pub mod dates;
pub mod db;
pub mod directory;
pub mod error;
pub mod jwt;
pub mod markdown;
pub mod models;
pub mod origin;
pub mod password;
pub mod posts;
pub mod security;
pub mod text;
