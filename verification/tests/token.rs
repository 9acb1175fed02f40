use soundcloud_stats::config::{CredentialProvider, Credentials};
use soundcloud_stats::error::{Operation, StatsError};
use soundcloud_stats::token::{
    token_request, token_result, DEFAULT_GRANT_TYPE, DEFAULT_TOKEN_ENDPOINT,
};
use soundcloud_stats::transport::{Method, Outcome, Pair, Status};

fn full_provider() -> CredentialProvider {
    CredentialProvider::new(Some("env-id".to_string()), Some("env-secret".to_string()))
}

fn header(name: &str, value: &str) -> Pair {
    Pair { name: name.to_string(), value: value.to_string() }
}

#[test]
fn token_defaults() {
    assert_eq!(DEFAULT_TOKEN_ENDPOINT, "https://secure.soundcloud.com/oauth/token");
    assert_eq!(DEFAULT_GRANT_TYPE, "client_credentials");
}

#[test]
fn token_request_with_nothing_given_uses_defaults_and_provider() {
    let request = token_request(None, None, None, None, &full_provider()).unwrap();
    assert_eq!(request.method, Method::Post);
    assert_eq!(request.url, "https://secure.soundcloud.com/oauth/token");
    assert_eq!(
        request.basic_auth,
        Some(Credentials {
            client_id: "env-id".to_string(),
            client_secret: "env-secret".to_string()
        })
    );
    assert_eq!(
        request.headers,
        vec![
            header("accept", "application/json; charset=utf-8"),
            header("Content-Type", "application/x-www-form-urlencoded"),
        ]
    );
    assert_eq!(request.form, vec![header("grant_type", "client_credentials")]);
}

#[test]
fn token_request_prefers_what_is_given() {
    let request = token_request(
        Some("http://localhost:9/token".to_string()),
        Some("my-id".to_string()),
        Some("my-secret".to_string()),
        Some("password".to_string()),
        &full_provider(),
    )
    .unwrap();
    assert_eq!(request.method, Method::Post);
    assert_eq!(request.url, "http://localhost:9/token");
    assert_eq!(
        request.basic_auth,
        Some(Credentials { client_id: "my-id".to_string(), client_secret: "my-secret".to_string() })
    );
    assert_eq!(request.form, vec![header("grant_type", "password")]);
}

#[test]
fn token_request_needs_no_provider_when_both_credentials_are_given() {
    let empty = CredentialProvider::new(None, None);
    let request = token_request(
        None,
        Some("my-id".to_string()),
        Some("my-secret".to_string()),
        None,
        &empty,
    )
    .unwrap();
    assert_eq!(
        request.basic_auth,
        Some(Credentials { client_id: "my-id".to_string(), client_secret: "my-secret".to_string() })
    );
}

#[test]
fn token_request_mixes_given_and_configured_credentials() {
    let provider = CredentialProvider::new(None, Some("env-secret".to_string()));
    let request = token_request(None, Some("my-id".to_string()), None, None, &provider).unwrap();
    assert_eq!(
        request.basic_auth,
        Some(Credentials {
            client_id: "my-id".to_string(),
            client_secret: "env-secret".to_string()
        })
    );
}

#[test]
fn token_request_fails_without_client_id() {
    let provider = CredentialProvider::new(None, Some("env-secret".to_string()));
    assert_eq!(
        token_request(None, None, None, None, &provider),
        Err(StatsError::Configuration { variable: "SOUNDCLOUD_CLIENT_ID".to_string() })
    );
}

#[test]
fn token_request_fails_without_client_secret() {
    let provider = CredentialProvider::new(Some("env-id".to_string()), None);
    assert_eq!(
        token_request(None, None, None, None, &provider),
        Err(StatsError::Configuration { variable: "SOUNDCLOUD_CLIENT_SECRET".to_string() })
    );
}

#[test]
fn token_request_names_the_client_id_when_both_are_missing() {
    let provider = CredentialProvider::new(None, None);
    assert_eq!(
        token_request(None, None, None, None, &provider),
        Err(StatsError::Configuration { variable: "SOUNDCLOUD_CLIENT_ID".to_string() })
    );
}

#[test]
fn token_result_returns_the_token() {
    assert_eq!(token_result(Outcome::Decoded { value: "T".to_string() }), Ok("T".to_string()));
}

#[test]
fn token_result_for_a_rejected_request_is_an_auth_error() {
    let outcome =
        Outcome::Rejected { status: Status::new(401).unwrap(), body: Some("invalid_client".to_string()) };
    let error = token_result(outcome).unwrap_err();
    assert_eq!(
        error,
        StatsError::Auth { status: Status::new(401).unwrap(), body: "invalid_client".to_string() }
    );
    let message = error.message();
    assert!(message.contains("401"));
    assert!(message.contains("invalid_client"));
    assert_eq!(message, "API Request failed with status code 401 Unauthorized: invalid_client");
}

#[test]
fn token_result_for_an_unreadable_rejection_uses_the_placeholder() {
    let outcome = Outcome::Rejected { status: Status::new(503).unwrap(), body: None };
    let error = token_result(outcome).unwrap_err();
    assert_eq!(
        error.message(),
        "API Request failed with status code 503 Service Unavailable: Could not get error text"
    );
}

#[test]
fn token_result_for_a_transport_failure_is_a_network_error() {
    let outcome = Outcome::Unreachable { cause: "dns error".to_string() };
    assert_eq!(
        token_result(outcome),
        Err(StatsError::Network { operation: Operation::Token, cause: "dns error".to_string() })
    );
}

#[test]
fn token_result_for_a_malformed_body_is_a_decode_error() {
    let outcome = Outcome::Malformed { cause: "missing field `access_token`".to_string() };
    let error = token_result(outcome).unwrap_err();
    assert_eq!(
        error,
        StatsError::Decode {
            operation: Operation::Token,
            cause: "missing field `access_token`".to_string()
        }
    );
    assert_eq!(error.message(), "Error parsing response: missing field `access_token`");
}
