//! Authentication and authorization core of a small REST service: password
//! credentials, signed session tokens, role evaluation and the admission
//! decisions of the request pipeline, with machine-checked contracts.

pub mod text;
pub mod services;
pub mod auth;
pub mod middleware;
pub mod models;

pub use models::post::Post;
pub use models::user::User;
