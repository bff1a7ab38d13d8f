pub mod audit;
pub mod auth_middleware;
pub mod security_headers;

pub use audit::audit_log;
pub use auth_middleware::auth_middleware;
pub use security_headers::security_headers;
