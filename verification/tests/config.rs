use soundcloud_stats::config::{CredentialProvider, CLIENT_ID_VARIABLE, CLIENT_SECRET_VARIABLE};
use soundcloud_stats::error::StatsError;

#[test]
fn setting_names() {
    assert_eq!(CLIENT_ID_VARIABLE, "SOUNDCLOUD_CLIENT_ID");
    assert_eq!(CLIENT_SECRET_VARIABLE, "SOUNDCLOUD_CLIENT_SECRET");
}

#[test]
fn configured_credentials_are_returned() {
    let provider = CredentialProvider::new(Some("id-1".to_string()), Some("secret-1".to_string()));
    assert_eq!(provider.get_client_id(), Ok("id-1".to_string()));
    assert_eq!(provider.get_client_secret(), Ok("secret-1".to_string()));
}

#[test]
fn missing_client_id_is_a_configuration_error_naming_the_variable() {
    let provider = CredentialProvider::new(None, Some("secret-1".to_string()));
    let error = provider.get_client_id().unwrap_err();
    assert_eq!(
        error,
        StatsError::Configuration { variable: "SOUNDCLOUD_CLIENT_ID".to_string() }
    );
    assert_eq!(error.message(), "SOUNDCLOUD_CLIENT_ID not set");
    assert_eq!(provider.get_client_secret(), Ok("secret-1".to_string()));
}

#[test]
fn missing_client_secret_is_a_configuration_error_naming_the_variable() {
    let provider = CredentialProvider::new(Some("id-1".to_string()), None);
    let error = provider.get_client_secret().unwrap_err();
    assert_eq!(
        error,
        StatsError::Configuration { variable: "SOUNDCLOUD_CLIENT_SECRET".to_string() }
    );
    assert_eq!(error.message(), "SOUNDCLOUD_CLIENT_SECRET not set");
    assert_eq!(provider.get_client_id(), Ok("id-1".to_string()));
}

#[test]
fn an_empty_value_is_still_a_value() {
    let provider = CredentialProvider::new(Some(String::new()), Some(String::new()));
    assert_eq!(provider.get_client_id(), Ok(String::new()));
    assert_eq!(provider.get_client_secret(), Ok(String::new()));
}
