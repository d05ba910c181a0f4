use auth_gateway::config::{
    MissingVariable, ProxyConfig, ADMIN_CLI_SECRET_VARIABLE, CLIENT_ID_VARIABLE, PORT_VARIABLE,
    REALM_VARIABLE, SERVER_VARIABLE,
};
use auth_gateway::encoding::{PasswordTokenRequestData, TokenRequestData};
use auth_gateway::lifecycle::LifecycleState;

fn some(value: &str) -> Option<String> {
    Some(value.to_string())
}

fn config() -> ProxyConfig {
    ProxyConfig::from_values(some("keycloak"), some("yata"), some("yata-web"), some("s"), some("9000"))
        .unwrap()
}

#[test]
fn configuration_keeps_the_values() {
    assert_eq!(
        config(),
        ProxyConfig {
            keycloak_server: "keycloak".to_string(),
            realm: "yata".to_string(),
            client_id: "yata-web".to_string(),
            admin_cli_secret: "s".to_string(),
            port: "9000".to_string(),
        }
    );
}

#[test]
fn missing_variable_is_named() {
    let missing = |name| Err(MissingVariable { name });
    assert_eq!(
        ProxyConfig::from_values(None, some("r"), some("c"), some("s"), some("p")),
        missing("KEYCLOAK_PROXY_KEYCLOAK_SERVER")
    );
    assert_eq!(
        ProxyConfig::from_values(some("k"), None, some("c"), some("s"), some("p")),
        missing("KEYCLOAK_PROXY_REALM")
    );
    assert_eq!(
        ProxyConfig::from_values(some("k"), some("r"), None, some("s"), some("p")),
        missing("KEYCLOAK_PROXY_CLIENT_ID")
    );
    assert_eq!(
        ProxyConfig::from_values(some("k"), some("r"), some("c"), None, some("p")),
        missing("KEYCLOAK_PROXY_ADMIN_CLI_SECRET")
    );
    assert_eq!(
        ProxyConfig::from_values(some("k"), some("r"), some("c"), some("s"), None),
        missing("KEYCLOAK_PROXY_PORT")
    );
}

#[test]
fn first_missing_variable_is_reported() {
    assert_eq!(
        ProxyConfig::from_values(None, None, None, None, None),
        Err(MissingVariable { name: SERVER_VARIABLE })
    );
    assert_eq!(
        ProxyConfig::from_values(some("k"), None, some("c"), None, None),
        Err(MissingVariable { name: REALM_VARIABLE })
    );
    assert_eq!(
        ProxyConfig::from_values(some("k"), some("r"), None, None, some("p")),
        Err(MissingVariable { name: CLIENT_ID_VARIABLE })
    );
    assert_eq!(
        ProxyConfig::from_values(some("k"), some("r"), some("c"), None, None),
        Err(MissingVariable { name: ADMIN_CLI_SECRET_VARIABLE })
    );
    assert_eq!(PORT_VARIABLE, "KEYCLOAK_PROXY_PORT");
}

#[test]
fn empty_value_is_a_value() {
    assert!(ProxyConfig::from_values(some(""), some(""), some(""), some(""), some("")).is_ok());
}

#[test]
fn endpoints_follow_from_host_and_realm() {
    let config = config();
    assert_eq!(
        config.certs_endpoint(),
        "http://keycloak:8080/auth/realms/yata/protocol/openid-connect/certs"
    );
    assert_eq!(
        config.token_endpoint(),
        "http://keycloak:8080/auth/realms/yata/protocol/openid-connect/token"
    );
    assert_eq!(config.register_endpoint(), "http://keycloak:8080/auth/admin/realms/yata/users");
    assert_eq!(
        config.admin_token_endpoint(),
        "http://keycloak:8080/auth/realms/master/protocol/openid-connect/token"
    );
    assert_eq!(config.listen_address(), "0.0.0.0:9000");
}

#[test]
fn user_grants_carry_the_configured_client() {
    let data = TokenRequestData::Password(PasswordTokenRequestData {
        username: "u".to_string(),
        password: "p".to_string(),
    });
    let request = config().token_request(data);
    assert_eq!(
        request.to_flattened_url_string(),
        "username=u&password=p&grant_type=password&client_id=yata-web"
    );
}

#[test]
fn admin_token_asks_the_master_realm_with_the_secret() {
    let token = config().admin_token();
    assert_eq!(token.state(), LifecycleState::Uninitialized);
    let fetch = token.fetch_request();
    assert_eq!(
        fetch.endpoint,
        "http://keycloak:8080/auth/realms/master/protocol/openid-connect/token"
    );
    assert_eq!(
        fetch.request.body,
        "client_secret=s&grant_type=client_credentials&client_id=admin-cli"
    );
    assert_eq!(config().admin_grant().client_secret, "s");
}
