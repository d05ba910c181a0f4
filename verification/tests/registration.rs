use auth_gateway::registration::{
    Credentials, ProxyRegisterRequest, RegisterRequest, PASSWORD_CREDENTIAL,
};

fn submission() -> ProxyRegisterRequest {
    ProxyRegisterRequest {
        first_name: "Ada".to_string(),
        last_name: "Lovelace".to_string(),
        username: "ada".to_string(),
        email: "ada@example.org".to_string(),
        password: "engine".to_string(),
    }
}

#[test]
fn registration_takes_the_providers_form() {
    assert_eq!(
        RegisterRequest::from(submission()),
        RegisterRequest {
            first_name: "Ada".to_string(),
            last_name: "Lovelace".to_string(),
            email: "ada@example.org".to_string(),
            enabled: true,
            username: "ada".to_string(),
            credentials: vec![Credentials {
                kind: "password".to_string(),
                value: "engine".to_string(),
            }],
        }
    );
}

#[test]
fn registration_sets_one_password_credential() {
    let request: RegisterRequest = submission().into();
    assert_eq!(request.credentials.len(), 1);
    assert_eq!(request.credentials[0].kind, PASSWORD_CREDENTIAL);
    assert!(request.enabled);
}
