//! Connector profiles: the name, management address, API version and
//! authentication descriptor of each remote connector.  The host parses the
//! profile file and resolves secret aliases; the runtime only ever sees
//! these plain values.

use vstd::prelude::*;

use crate::util::concat_str;

verus! {

/// The parsed profile file: a list of connector profiles.
pub struct Config {
    pub connectors: Vec<ConnectorConfig>,
}

/// Where the profile file lives inside the host's configuration directory.
pub fn default_file(config_dir: &str) -> (r: String)
    ensures
        r@ == config_dir@ + "/edc-connector-tui/config.toml"@,
{
    concat_str(config_dir, "/edc-connector-tui/config.toml")
}

/// One connector profile.
#[derive(Debug)]
pub struct ConnectorConfig {
    pub name: String,
    pub address: String,
    pub api_version: ConnectorApiVersion,
    pub auth: AuthKind,
    pub participant_context_id: Option<String>,
}

/// The management API version a connector speaks.
#[derive(Clone, Copy, PartialEq, Eq, Structural, Debug)]
pub enum ConnectorApiVersion {
    V3,
    V4,
}

impl Default for ConnectorApiVersion {
    fn default() -> (v: ConnectorApiVersion)
        ensures
            v == ConnectorApiVersion::V3,
    {
        ConnectorApiVersion::V3
    }
}

/// How a connector authenticates: not at all, by a static token stored
/// under an alias, or by OAuth2 client credentials whose secret is stored
/// under an alias.
#[derive(Debug)]
pub enum AuthKind {
    NoAuth,
    Token { token_alias: String },
    OAuth { client_id: String, token_url: String, secret_alias: String },
}

impl Clone for AuthKind {
    fn clone(&self) -> (r: Self)
        ensures
            r == *self,
    {
        match self {
            AuthKind::NoAuth => AuthKind::NoAuth,
            AuthKind::Token { token_alias } => AuthKind::Token {
                token_alias: token_alias.clone(),
            },
            AuthKind::OAuth { client_id, token_url, secret_alias } => AuthKind::OAuth {
                client_id: client_id.clone(),
                token_url: token_url.clone(),
                secret_alias: secret_alias.clone(),
            },
        }
    }
}

impl Default for AuthKind {
    fn default() -> (r: AuthKind)
        ensures
            r == AuthKind::NoAuth,
    {
        AuthKind::NoAuth
    }
}

impl AuthKind {
    /// A short label for the authentication scheme, shown in the connector
    /// list.
    pub fn kind(&self) -> (r: &str)
        ensures
            match self {
                AuthKind::NoAuth => r@ == "No auth"@,
                AuthKind::Token { .. } => r@ == "Token based"@,
                AuthKind::OAuth { .. } => r@ == "OAuth2"@,
            },
    {
        match self {
            AuthKind::NoAuth => "No auth",
            AuthKind::Token { .. } => "Token based",
            AuthKind::OAuth { .. } => "OAuth2",
        }
    }
}

impl ConnectorConfig {
    pub fn new(name: String, address: String, auth: AuthKind) -> (c: ConnectorConfig)
        ensures
            c.name == name,
            c.address == address,
            c.auth == auth,
            c.api_version == ConnectorApiVersion::V3,
            c.participant_context_id is None,
    {
        ConnectorConfig {
            name,
            address,
            auth,
            api_version: ConnectorApiVersion::V3,
            participant_context_id: None,
        }
    }

    /// A profile with every field given, as the host builds it from the
    /// parsed file.
    pub fn with_details(
        name: String,
        address: String,
        auth: AuthKind,
        api_version: ConnectorApiVersion,
        participant_context_id: Option<String>,
    ) -> (c: ConnectorConfig)
        ensures
            c == (ConnectorConfig { name, address, auth, api_version, participant_context_id }),
    {
        ConnectorConfig { name, address, auth, api_version, participant_context_id }
    }

    pub fn name(&self) -> (r: &str)
        ensures
            r@ == self.name@,
    {
        self.name.as_str()
    }

    pub fn address(&self) -> (r: &str)
        ensures
            r@ == self.address@,
    {
        self.address.as_str()
    }

    pub fn auth(&self) -> (r: &AuthKind)
        ensures
            *r == self.auth,
    {
        &self.auth
    }

    pub fn version(&self) -> (r: &ConnectorApiVersion)
        ensures
            *r == self.api_version,
    {
        &self.api_version
    }

    pub fn participant_context_id(&self) -> (r: Option<&String>)
        ensures
            match r {
                Some(s) => self.participant_context_id == Some(*s),
                None => self.participant_context_id is None,
            },
    {
        self.participant_context_id.as_ref()
    }

}

impl Clone for ConnectorConfig {
    fn clone(&self) -> (r: Self)
        ensures
            r == *self,
    {
        ConnectorConfig {
            name: self.name.clone(),
            address: self.address.clone(),
            api_version: self.api_version,
            auth: self.auth.clone(),
            participant_context_id: match &self.participant_context_id {
                Some(s) => Some(s.clone()),
                None => None,
            },
        }
    }
}

} // verus!
