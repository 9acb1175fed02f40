//! Client credentials and where they come from.

use vstd::prelude::*;
use crate::error::{result_view, StatsError, StatsErrorView};
use crate::model::{clone_optional_text, optional_text};

verus! {

/// The setting that holds the client identifier.
pub const CLIENT_ID_VARIABLE: &'static str = "SOUNDCLOUD_CLIENT_ID";

/// The setting that holds the client secret.
pub const CLIENT_SECRET_VARIABLE: &'static str = "SOUNDCLOUD_CLIENT_SECRET";

/// The pair of secrets that identifies this application to the service.
#[derive(Debug, Clone, PartialEq, Eq)]
pub struct Credentials {
    pub client_id: String,
    pub client_secret: String,
}

/// The mathematical content of [`Credentials`].
pub struct CredentialsView {
    pub client_id: Seq<char>,
    pub client_secret: Seq<char>,
}

impl View for Credentials {
    type V = CredentialsView;

    open spec fn view(&self) -> CredentialsView {
        CredentialsView { client_id: self.client_id@, client_secret: self.client_secret@ }
    }
}

/// The content of optional credentials, where there are any.
pub open spec fn optional_credentials(credentials: Option<Credentials>) -> Option<CredentialsView> {
    match credentials {
        Some(c) => Some(c@),
        None => None,
    }
}

/// The value of a setting, or the error that names the setting where it
/// has no value.
pub open spec fn configured(value: Option<Seq<char>>, variable: Seq<char>) -> Result<
    Seq<char>,
    StatsErrorView,
> {
    match value {
        Some(text) => Ok(text),
        None => Err(StatsErrorView::Configuration { variable }),
    }
}

/// The two settings as they were found when the provider was made. Either
/// may be missing.
#[derive(Debug, Clone, PartialEq, Eq)]
pub struct CredentialProvider {
    pub client_id: Option<String>,
    pub client_secret: Option<String>,
}

/// The mathematical content of a [`CredentialProvider`].
pub struct CredentialProviderView {
    pub client_id: Option<Seq<char>>,
    pub client_secret: Option<Seq<char>>,
}

impl View for CredentialProvider {
    type V = CredentialProviderView;

    open spec fn view(&self) -> CredentialProviderView {
        CredentialProviderView {
            client_id: optional_text(self.client_id),
            client_secret: optional_text(self.client_secret),
        }
    }
}

impl CredentialProvider {
    /// A provider over the values found for the two settings.
    pub fn new(client_id: Option<String>, client_secret: Option<String>) -> (provider: Self)
        ensures
            provider.client_id == client_id,
            provider.client_secret == client_secret,
    {
        CredentialProvider { client_id, client_secret }
    }

    /// The client identifier, or a configuration error that names
    /// [`CLIENT_ID_VARIABLE`] where it is not set.
    pub fn get_client_id(&self) -> (result: Result<String, StatsError>)
        ensures
            result_view(result) == configured(self@.client_id, CLIENT_ID_VARIABLE@),
    {
        match clone_optional_text(&self.client_id) {
            Some(text) => Ok(text),
            None => Err(StatsError::Configuration { variable: String::from_str(CLIENT_ID_VARIABLE) }),
        }
    }

    /// The client secret, or a configuration error that names
    /// [`CLIENT_SECRET_VARIABLE`] where it is not set.
    pub fn get_client_secret(&self) -> (result: Result<String, StatsError>)
        ensures
            result_view(result) == configured(self@.client_secret, CLIENT_SECRET_VARIABLE@),
    {
        match clone_optional_text(&self.client_secret) {
            Some(text) => Ok(text),
            None => Err(
                StatsError::Configuration { variable: String::from_str(CLIENT_SECRET_VARIABLE) },
            ),
        }
    }
}

} // verus!
