//! The client-credentials exchange that yields an access token.

use vstd::prelude::*;
use crate::config::{
    configured, CredentialProvider, CredentialProviderView, Credentials, CredentialsView,
    CLIENT_ID_VARIABLE, CLIENT_SECRET_VARIABLE,
};
use crate::error::{result_view, settle, settled, Operation, StatsError, StatsErrorView};
use crate::model::optional_text;
use crate::transport::{pair, pair_views, Method, Outcome, Pair, Request, RequestView};

verus! {

/// Where tokens are asked for unless the caller names another endpoint.
pub const DEFAULT_TOKEN_ENDPOINT: &'static str = "https://secure.soundcloud.com/oauth/token";

/// The grant type that is asked for unless the caller names another.
pub const DEFAULT_GRANT_TYPE: &'static str = "client_credentials";

/// The first value where there is one, else the second.
pub open spec fn or_else(first: Option<Seq<char>>, second: Option<Seq<char>>) -> Option<Seq<char>> {
    match first {
        Some(text) => Some(text),
        None => second,
    }
}

/// The value where there is one, else the default.
pub open spec fn or_default(value: Option<Seq<char>>, default: Seq<char>) -> Seq<char> {
    match value {
        Some(text) => text,
        None => default,
    }
}

/// The headers of a token request.
pub open spec fn token_headers() -> Seq<(Seq<char>, Seq<char>)> {
    seq![
        ("accept"@, "application/json; charset=utf-8"@),
        ("Content-Type"@, "application/x-www-form-urlencoded"@),
    ]
}

/// The token request for the given arguments, or the configuration error
/// that keeps it from being made.
///
/// A credential given as an argument is used as it is; one that is not given
/// is taken from the provider. The identifier is looked for first, so where
/// both are missing the error names the identifier.
pub open spec fn token_request_model(
    endpoint: Option<Seq<char>>,
    client_id: Option<Seq<char>>,
    client_secret: Option<Seq<char>>,
    grant_type: Option<Seq<char>>,
    provider: CredentialProviderView,
) -> Result<RequestView, StatsErrorView> {
    match configured(or_else(client_id, provider.client_id), CLIENT_ID_VARIABLE@) {
        Err(error) => Err(error),
        Ok(id) => match configured(
            or_else(client_secret, provider.client_secret),
            CLIENT_SECRET_VARIABLE@,
        ) {
            Err(error) => Err(error),
            Ok(secret) => Ok(
                RequestView {
                    method: Method::Post,
                    url: or_default(endpoint, DEFAULT_TOKEN_ENDPOINT@),
                    basic_auth: Some(CredentialsView { client_id: id, client_secret: secret }),
                    headers: token_headers(),
                    form: seq![("grant_type"@, or_default(grant_type, DEFAULT_GRANT_TYPE@))],
                },
            ),
        },
    }
}

/// Describes the request that asks for an access token.
///
/// The request is a POST to `endpoint` with HTTP Basic authentication by
/// the two credentials and the grant type as its form-encoded body. It
/// fails, before anything is sent, where a credential is neither given nor
/// configured.
pub fn token_request(
    endpoint: Option<String>,
    client_id: Option<String>,
    client_secret: Option<String>,
    grant_type: Option<String>,
    provider: &CredentialProvider,
) -> (result: Result<Request, StatsError>)
    ensures
        result_view(result) == token_request_model(
            optional_text(endpoint),
            optional_text(client_id),
            optional_text(client_secret),
            optional_text(grant_type),
            provider@,
        ),
{
    let client_id: String = match client_id {
        Some(text) => text,
        None => match provider.get_client_id() {
            Ok(text) => text,
            Err(error) => {
                return Err(error);
            },
        },
    };
    let client_secret: String = match client_secret {
        Some(text) => text,
        None => match provider.get_client_secret() {
            Ok(text) => text,
            Err(error) => {
                return Err(error);
            },
        },
    };
    let grant_type: String = match grant_type {
        Some(text) => text,
        None => String::from_str(DEFAULT_GRANT_TYPE),
    };
    let url: String = match endpoint {
        Some(text) => text,
        None => String::from_str(DEFAULT_TOKEN_ENDPOINT),
    };
    let mut headers: Vec<Pair> = Vec::new();
    headers.push(pair("accept", "application/json; charset=utf-8"));
    headers.push(pair("Content-Type", "application/x-www-form-urlencoded"));
    let mut form: Vec<Pair> = Vec::new();
    form.push(Pair { name: String::from_str("grant_type"), value: grant_type });
    assert(pair_views(headers@) =~= token_headers());
    assert(pair_views(form@) =~= seq![("grant_type"@, grant_type@)]);
    Ok(
        Request {
            method: Method::Post,
            url,
            basic_auth: Some(Credentials { client_id, client_secret }),
            headers,
            form,
        },
    )
}

/// Decides what the outcome of a token request means: the token, or the
/// error that ends the operation.
pub fn token_result(outcome: Outcome<String>) -> (result: Result<String, StatsError>)
    ensures
        result_view(result) == settled(Operation::Token, outcome@),
{
    settle(Operation::Token, outcome)
}

} // verus!
