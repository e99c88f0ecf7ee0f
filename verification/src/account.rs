//! The account that a command works for.

use vstd::prelude::*;
use vstd::string::*;

use crate::endpoint::Endpoints;
use crate::hook::Hooks;
use crate::storage::Storages;
use crate::stream::Tls;

verus! {

/// The configuration of an account. It does not change once it is loaded,
/// and holds no secret: where the account has a client secret, the caller
/// resolves it when a request needs it.
pub struct Account {
    /// Whether this is the account to use when none is named.
    pub default: bool,
    /// The client identifier.
    pub client_id: String,
    /// Whether the account has a client secret.
    pub client_secret: bool,
    /// The endpoints of the provider.
    pub endpoints: Endpoints,
    /// The TLS backend.
    pub tls: Tls,
    /// The scopes to ask for. Their order does not matter.
    pub scopes: Vec<String>,
    /// Whether the flow uses PKCE.
    pub pkce: bool,
    /// Whether an expired token is refreshed when it is shown.
    pub auto_refresh: bool,
    /// Where the token record is kept.
    pub storage: Storages,
    /// What runs after a token was issued or refused.
    pub on_issue_access_token: Hooks,
    /// What runs after a token was refreshed or the refresh was refused.
    pub on_refresh_access_token: Hooks,
}

} // verus!
