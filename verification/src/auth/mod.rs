pub mod jwt;
pub mod login;
pub mod password;
pub mod rbac;

pub use jwt::JwtAuth;
pub use login::{login, register};
pub use password::{hash_password, verify_password};
