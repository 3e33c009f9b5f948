//! A connector as the runtime sees it: its profile and its connection
//! status.  The live client handle stays with the host, keyed by the
//! connector's name; commands carry this plain value instead.

use vstd::prelude::*;

use crate::config::{AuthKind, ConnectorConfig};
use crate::util::concat_str;

verus! {

/// Whether a connector's credentials resolved, and if not, why.
#[derive(Debug)]
pub enum ConnectorStatus {
    Connected,
    Custom(String),
}

impl Clone for ConnectorStatus {
    fn clone(&self) -> (r: Self)
        ensures
            r == *self,
    {
        match self {
            ConnectorStatus::Connected => ConnectorStatus::Connected,
            ConnectorStatus::Custom(s) => ConnectorStatus::Custom(s.clone()),
        }
    }
}

/// The authentication material handed to the remote client, with every
/// secret already resolved.
#[derive(Debug)]
pub enum Auth {
    NoAuth,
    ApiToken(String),
    OAuth { client_id: String, client_secret: String, token_url: String },
}

impl Clone for Auth {
    fn clone(&self) -> (r: Self)
        ensures
            r == *self,
    {
        match self {
            Auth::NoAuth => Auth::NoAuth,
            Auth::ApiToken(t) => Auth::ApiToken(t.clone()),
            Auth::OAuth { client_id, client_secret, token_url } => Auth::OAuth {
                client_id: client_id.clone(),
                client_secret: client_secret.clone(),
                token_url: token_url.clone(),
            },
        }
    }
}

/// Resolves a profile's authentication descriptor against the secret the
/// host looked up for its alias (if the descriptor names one).  Missing
/// secrets surface as a per-connector status, never as a fault.
pub fn resolve_auth(kind: &AuthKind, secret: Option<String>) -> (r: (ConnectorStatus, Auth))
    ensures
        match kind {
            AuthKind::NoAuth => r.0 == ConnectorStatus::Connected && r.1 == Auth::NoAuth,
            AuthKind::Token { token_alias } => match secret {
                Some(pwd) => r.0 == ConnectorStatus::Connected && r.1 == Auth::ApiToken(pwd),
                None => {
                    &&& r.0 matches ConnectorStatus::Custom(msg) && msg@
                        == "Token not found for alias "@ + token_alias@
                    &&& r.1 == Auth::NoAuth
                },
            },
            AuthKind::OAuth { client_id, token_url, secret_alias } => match secret {
                Some(pwd) => r.0 == ConnectorStatus::Connected && r.1 == (Auth::OAuth {
                    client_id: *client_id,
                    client_secret: pwd,
                    token_url: *token_url,
                }),
                None => {
                    &&& r.0 matches ConnectorStatus::Custom(msg) && msg@
                        == "Secret not found for alias "@ + secret_alias@
                    &&& r.1 == Auth::NoAuth
                },
            },
        },
{
    match kind {
        AuthKind::NoAuth => (ConnectorStatus::Connected, Auth::NoAuth),
        AuthKind::Token { token_alias } => match secret {
            Some(pwd) => (ConnectorStatus::Connected, Auth::ApiToken(pwd)),
            None => (
                ConnectorStatus::Custom(
                    concat_str("Token not found for alias ", token_alias.as_str()),
                ),
                Auth::NoAuth,
            ),
        },
        AuthKind::OAuth { client_id, token_url, secret_alias } => match secret {
            Some(pwd) => (
                ConnectorStatus::Connected,
                Auth::OAuth {
                    client_id: client_id.clone(),
                    client_secret: pwd,
                    token_url: token_url.clone(),
                },
            ),
            None => (
                ConnectorStatus::Custom(
                    concat_str("Secret not found for alias ", secret_alias.as_str()),
                ),
                Auth::NoAuth,
            ),
        },
    }
}

/// The status shown when the OAuth2 client could not be initialised from a
/// resolved secret; the host reports that failure through this value.
pub fn oauth_init_failed(secret_alias: &str) -> (r: ConnectorStatus)
    ensures
        r matches ConnectorStatus::Custom(msg) && msg@ == "Failed to initialize OAuth2 for alias "@
            + secret_alias@,
{
    ConnectorStatus::Custom(concat_str("Failed to initialize OAuth2 for alias ", secret_alias))
}

/// A connector the interface can browse: its profile and its status.
#[derive(Debug)]
pub struct Connector {
    pub config: ConnectorConfig,
    pub status: ConnectorStatus,
}

impl Connector {
    pub fn new(config: ConnectorConfig, status: ConnectorStatus) -> (c: Connector)
        ensures
            c.config == config,
            c.status == status,
    {
        Connector { config, status }
    }

    pub fn config(&self) -> (r: &ConnectorConfig)
        ensures
            *r == self.config,
    {
        &self.config
    }

    pub fn name(&self) -> (r: &str)
        ensures
            r@ == self.config.name@,
    {
        self.config.name()
    }

    pub fn status(&self) -> (r: &ConnectorStatus)
        ensures
            *r == self.status,
    {
        &self.status
    }
}

impl Clone for Connector {
    fn clone(&self) -> (r: Self)
        ensures
            r == *self,
    {
        Connector { config: self.config.clone(), status: self.status.clone() }
    }
}

} // verus!
