//! The rules of an OAuth 2.0 token manager.
//!
//! The crate decides how an access token is obtained by the authorization
//! code grant (with PKCE where the account asks for it), how it is
//! refreshed, stored and shown, and what runs after either outcome.
//!
//! It performs no I/O. A command is a chain of steps: each step says what
//! to ask of the world outside (a storage backend, the token endpoint, the
//! browser of the user) and hands out the value that the next step takes
//! together with the answer. A step that fails ends the chain, so nothing
//! that comes after it is ever asked for.

pub mod access_token;
pub mod account;
pub mod auth;
pub mod duration;
pub mod encoding;
pub mod endpoint;
pub mod error;
pub mod exchange;
pub mod hook;
pub mod notify;
pub mod pkce;
pub mod secret;
pub mod state;
pub mod storage;
pub mod stream;
pub mod text;
pub mod token;
pub mod uri;
