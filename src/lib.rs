//! Authentication and session-lifecycle core of a notes service: credential
//! checks, signed access tokens, refresh-token bookkeeping, per-address rate
//! limiting, the request authenticator, and the client-side session store.

pub mod auth;
pub mod config;
pub mod credentials;
pub mod crypto;
pub mod extractors;
pub mod ids;
pub mod limiter;
pub mod logging;
pub mod refresh;
pub mod session;
pub mod text;
pub mod token;
pub mod users;
pub mod validators;
