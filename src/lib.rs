//! Authentication and session security for a local encrypted vault:
//! master-password policy and hashing, key derivation for the encrypted
//! store, login-attempt throttling and in-memory session tokens.

pub mod auth;
pub mod error;
pub mod keys;
pub mod models;
pub mod password;
pub mod random;
pub mod session;
pub mod store;
pub mod throttle;
pub mod token;

pub use auth::{AuthService, DEFAULT_CLIENT_ID};
pub use error::AuthError;
pub use keys::derive_encryption_key;
pub use models::{Config, GeneratorOptions, Note, PasswordEntry, PasswordStrength};
pub use session::SessionInfo;
pub use throttle::LoginAttemptInfo;
