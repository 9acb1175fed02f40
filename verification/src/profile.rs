//! Resolving a profile URL to the user it stands for.

use vstd::prelude::*;
use crate::error::{result_view, settle, settled, Operation, StatsError};
use crate::model::UserProfile;
use crate::transport::{pair_views, Method, Outcome, Pair, Request, RequestView};

verus! {

/// The resolve endpoint, up to where the profile URL follows.
pub const RESOLVE_ENDPOINT: &'static str = "https://api.soundcloud.com/resolve?url=";

/// The headers of a request that is authorised by a bearer token.
pub open spec fn bearer_headers(token: Seq<char>) -> Seq<(Seq<char>, Seq<char>)> {
    seq![("Authorization"@, "Bearer "@ + token), ("Accept"@, "*/*"@)]
}

/// The request that resolves `profile_url`: a GET of the resolve endpoint
/// with the URL appended as it is.
pub open spec fn resolve_request_model(profile_url: Seq<char>, token: Seq<char>) -> RequestView {
    RequestView {
        method: Method::Get,
        url: RESOLVE_ENDPOINT@ + profile_url,
        basic_auth: None,
        headers: bearer_headers(token),
        form: Seq::empty(),
    }
}

/// The two headers that every request to the API carries.
pub fn bearer(token: &str) -> (headers: Vec<Pair>)
    ensures
        pair_views(headers@) == bearer_headers(token@),
{
    let mut value: String = String::from_str("Bearer ");
    value.append(token);
    let mut headers: Vec<Pair> = Vec::new();
    headers.push(Pair { name: String::from_str("Authorization"), value });
    headers.push(Pair { name: String::from_str("Accept"), value: String::from_str("*/*") });
    assert(pair_views(headers@) =~= bearer_headers(token@));
    headers
}

/// Describes the request that resolves a profile URL to a user.
pub fn resolve_request(profile_url: &str, token: &str) -> (request: Request)
    ensures
        request@ == resolve_request_model(profile_url@, token@),
{
    let mut url: String = String::from_str(RESOLVE_ENDPOINT);
    url.append(profile_url);
    let form: Vec<Pair> = Vec::new();
    assert(pair_views(form@) =~= Seq::empty());
    Request { method: Method::Get, url, basic_auth: None, headers: bearer(token), form }
}

/// Decides what the outcome of a resolve request means: the user, or the
/// error that ends the operation.
pub fn resolve_result(outcome: Outcome<UserProfile>) -> (result: Result<UserProfile, StatsError>)
    ensures
        result_view(result) == settled(Operation::Resolve, outcome@),
{
    settle(Operation::Resolve, outcome)
}

} // verus!
