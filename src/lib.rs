//! Authentication core of a small blog backend: password hashing, signed session tokens,
//! the session guard in front of protected routes, and the decisions of the auth and post handlers.

pub mod auth;
pub mod error;
pub mod model;
pub mod password;
pub mod post;
pub mod session;
pub mod token;
