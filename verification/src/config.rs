//! The gateway's configuration and the provider endpoints that follow from it.
//!
//! The values come from the process environment; reading it is the caller's
//! part. A value that is absent is a startup error that names the variable.

use crate::encoding::{AdminTokenRequestData, GrantView, TokenRequest, TokenRequestData};
use crate::lifecycle::{
    AdminToken, LifecycleState, DEFAULT_SHARE_PER_MILLE, DEFAULT_RETRY_CAP_MILLIS,
};
use vstd::prelude::*;
use vstd::string::*;

verus! {

/// The variable that holds the identity provider's host.
pub const SERVER_VARIABLE: &'static str = "KEYCLOAK_PROXY_KEYCLOAK_SERVER";

/// The variable that holds the realm end users belong to.
pub const REALM_VARIABLE: &'static str = "KEYCLOAK_PROXY_REALM";

/// The variable that holds the gateway's own client identifier.
pub const CLIENT_ID_VARIABLE: &'static str = "KEYCLOAK_PROXY_CLIENT_ID";

/// The variable that holds the administrative client's secret.
pub const ADMIN_CLI_SECRET_VARIABLE: &'static str = "KEYCLOAK_PROXY_ADMIN_CLI_SECRET";

/// The variable that holds the port to listen on.
pub const PORT_VARIABLE: &'static str = "KEYCLOAK_PROXY_PORT";

/// A required variable is not set.
#[derive(Clone, Copy, Debug, PartialEq, Eq)]
pub struct MissingVariable {
    pub name: &'static str,
}

/// The gateway's configuration.
#[derive(Debug, PartialEq, Eq)]
pub struct ProxyConfig {
    pub keycloak_server: String,
    pub realm: String,
    pub client_id: String,
    pub admin_cli_secret: String,
    pub port: String,
}

/// The mathematical content of a [`ProxyConfig`].
pub struct ConfigView {
    pub keycloak_server: Seq<char>,
    pub realm: Seq<char>,
    pub client_id: Seq<char>,
    pub admin_cli_secret: Seq<char>,
    pub port: Seq<char>,
}

impl View for ProxyConfig {
    type V = ConfigView;

    open spec fn view(&self) -> ConfigView {
        ConfigView {
            keycloak_server: self.keycloak_server@,
            realm: self.realm@,
            client_id: self.client_id@,
            admin_cli_secret: self.admin_cli_secret@,
            port: self.port@,
        }
    }
}

impl ConfigView {
    /// The base of every provider URL: the host on port 8080.
    pub open spec fn base(self) -> Seq<char> {
        "http://"@ + self.keycloak_server + ":8080/auth/"@
    }

    /// Where the provider publishes its signing keys.
    pub open spec fn certs_endpoint(self) -> Seq<char> {
        self.base() + "realms/"@ + self.realm + "/protocol/openid-connect/certs"@
    }

    /// Where end users' credential requests go.
    pub open spec fn token_endpoint(self) -> Seq<char> {
        self.base() + "realms/"@ + self.realm + "/protocol/openid-connect/token"@
    }

    /// Where new users are registered.
    pub open spec fn register_endpoint(self) -> Seq<char> {
        self.base() + "admin/realms/"@ + self.realm + "/users"@
    }

    /// Where the gateway's own credential comes from: the master realm.
    pub open spec fn admin_token_endpoint(self) -> Seq<char> {
        self.base() + "realms/master/protocol/openid-connect/token"@
    }

    /// The address the gateway listens on: every interface, the configured port.
    pub open spec fn listen_address(self) -> Seq<char> {
        "0.0.0.0:"@ + self.port
    }
}

/// The first of the five variables that has no value, in the order server,
/// realm, client identifier, secret, port.
pub open spec fn first_missing(
    keycloak_server: Option<String>,
    realm: Option<String>,
    client_id: Option<String>,
    admin_cli_secret: Option<String>,
    port: Option<String>,
) -> Option<&'static str> {
    if keycloak_server is None {
        Some(SERVER_VARIABLE)
    } else if realm is None {
        Some(REALM_VARIABLE)
    } else if client_id is None {
        Some(CLIENT_ID_VARIABLE)
    } else if admin_cli_secret is None {
        Some(ADMIN_CLI_SECRET_VARIABLE)
    } else if port is None {
        Some(PORT_VARIABLE)
    } else {
        None
    }
}

impl ProxyConfig {
    /// The configuration for the values of the five variables, each `None`
    /// where the variable is not set. All five are required.
    pub fn from_values(
        keycloak_server: Option<String>,
        realm: Option<String>,
        client_id: Option<String>,
        admin_cli_secret: Option<String>,
        port: Option<String>,
    ) -> (r: Result<ProxyConfig, MissingVariable>)
        ensures
            match r {
                Ok(config) => {
                    &&& keycloak_server == Some(config.keycloak_server)
                    &&& realm == Some(config.realm)
                    &&& client_id == Some(config.client_id)
                    &&& admin_cli_secret == Some(config.admin_cli_secret)
                    &&& port == Some(config.port)
                },
                Err(missing) => first_missing(
                    keycloak_server,
                    realm,
                    client_id,
                    admin_cli_secret,
                    port,
                ) == Some(missing.name),
            },
    {
        let keycloak_server = match keycloak_server {
            Some(value) => value,
            None => return Err(MissingVariable { name: SERVER_VARIABLE }),
        };
        let realm = match realm {
            Some(value) => value,
            None => return Err(MissingVariable { name: REALM_VARIABLE }),
        };
        let client_id = match client_id {
            Some(value) => value,
            None => return Err(MissingVariable { name: CLIENT_ID_VARIABLE }),
        };
        let admin_cli_secret = match admin_cli_secret {
            Some(value) => value,
            None => return Err(MissingVariable { name: ADMIN_CLI_SECRET_VARIABLE }),
        };
        let port = match port {
            Some(value) => value,
            None => return Err(MissingVariable { name: PORT_VARIABLE }),
        };
        Ok(ProxyConfig { keycloak_server, realm, client_id, admin_cli_secret, port })
    }

    fn base(&self) -> (r: String)
        ensures
            r@ == self@.base(),
    {
        let mut url = String::from_str("http://");
        url.append(self.keycloak_server.as_str());
        url.append(":8080/auth/");
        url
    }

    fn realm_endpoint(&self, tail: &str) -> (r: String)
        ensures
            r@ == self@.base() + "realms/"@ + self@.realm + tail@,
    {
        let mut url = self.base();
        url.append("realms/");
        url.append(self.realm.as_str());
        url.append(tail);
        url
    }

    /// Where the provider publishes its signing keys.
    pub fn certs_endpoint(&self) -> (r: String)
        ensures
            r@ == self@.certs_endpoint(),
    {
        self.realm_endpoint("/protocol/openid-connect/certs")
    }

    /// Where end users' credential requests go.
    pub fn token_endpoint(&self) -> (r: String)
        ensures
            r@ == self@.token_endpoint(),
    {
        self.realm_endpoint("/protocol/openid-connect/token")
    }

    /// Where new users are registered.
    pub fn register_endpoint(&self) -> (r: String)
        ensures
            r@ == self@.register_endpoint(),
    {
        let mut url = self.base();
        url.append("admin/realms/");
        url.append(self.realm.as_str());
        url.append("/users");
        url
    }

    /// Where the gateway's own credential comes from.
    pub fn admin_token_endpoint(&self) -> (r: String)
        ensures
            r@ == self@.admin_token_endpoint(),
    {
        let mut url = self.base();
        url.append("realms/master/protocol/openid-connect/token");
        url
    }

    /// The address to listen on.
    pub fn listen_address(&self) -> (r: String)
        ensures
            r@ == self@.listen_address(),
    {
        let mut address = String::from_str("0.0.0.0:");
        address.append(self.port.as_str());
        address
    }

    /// The request for an end user's grant, under the configured client
    /// identifier.
    pub fn token_request(&self, data: TokenRequestData) -> (r: TokenRequest)
        ensures
            r@.data == data@,
            r@.meta == data@.meta(self@.client_id),
    {
        TokenRequest::from_data(data, self.client_id.as_str())
    }

    /// The gateway's own grant: the administrative one, on the configured
    /// secret.
    pub fn admin_grant(&self) -> (r: AdminTokenRequestData)
        ensures
            r.client_secret@ == self@.admin_cli_secret,
    {
        AdminTokenRequestData { client_secret: self.admin_cli_secret.clone() }
    }

    /// The manager of the gateway's own credential: not yet initialized, bound
    /// to the master realm's token endpoint and the administrative grant.
    pub fn admin_token(&self) -> (r: AdminToken)
        ensures
            r@.state() == LifecycleState::Uninitialized,
            !r@.in_flight,
            r@.endpoint == self@.admin_token_endpoint(),
            r@.request.data == (GrantView::Admin { client_secret: self@.admin_cli_secret }),
            r@.request.meta == r@.request.data.meta(self@.client_id),
            r@.share_per_mille == DEFAULT_SHARE_PER_MILLE,
            r@.retry_cap_millis == DEFAULT_RETRY_CAP_MILLIS,
    {
        let token_request = self.token_request(TokenRequestData::Admin(self.admin_grant()));
        AdminToken::new(self.admin_token_endpoint(), token_request)
    }
}

} // verus!
