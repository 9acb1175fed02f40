//! Listing the most recent tracks of a user.

use vstd::prelude::*;
use crate::error::{settle, settled, Operation, StatsError, StatsErrorView};
use crate::model::{track_views, Track, TrackPage, TrackPageView, TrackView};
use crate::profile::{bearer, bearer_headers};
use crate::text::{decimal, decimal_text};
use crate::transport::{pair_views, Method, Outcome, OutcomeView, Pair, Request, RequestView};

verus! {

/// The number of tracks that is asked for unless the caller names another.
pub const DEFAULT_PAGE_SIZE: u32 = 10;

/// The address of the first page of a user's tracks, with at most
/// `page_size` tracks on it.
pub open spec fn tracks_url(user_id: u64, page_size: u32) -> Seq<char> {
    "https://api.soundcloud.com/users/"@ + decimal_text(user_id as nat)
        + "/tracks?linked_partitioning=true&page_size="@ + decimal_text(page_size as nat)
}

/// The request that lists a user's recent tracks.
pub open spec fn tracks_request_model(user_id: u64, token: Seq<char>, page_size: u32) -> RequestView {
    RequestView {
        method: Method::Get,
        url: tracks_url(user_id, page_size),
        basic_auth: None,
        headers: bearer_headers(token),
        form: Seq::empty(),
    }
}

/// Describes the request that lists the most recent tracks of a user.
pub fn tracks_request(user_id: u64, token: &str, page_size: u32) -> (request: Request)
    ensures
        request@ == tracks_request_model(user_id, token@, page_size),
{
    let mut url: String = String::from_str("https://api.soundcloud.com/users/");
    url.append(decimal(user_id).as_str());
    url.append("/tracks?linked_partitioning=true&page_size=");
    url.append(decimal(page_size as u64).as_str());
    let form: Vec<Pair> = Vec::new();
    assert(pair_views(form@) =~= Seq::empty());
    Request { method: Method::Get, url, basic_auth: None, headers: bearer(token), form }
}

/// What the outcome of a tracks request means: the tracks of the page that
/// came back, in its order and without the link to a next page, or the
/// error that ends the operation.
pub open spec fn tracks_settled(outcome: OutcomeView<TrackPageView>) -> Result<
    Seq<TrackView>,
    StatsErrorView,
> {
    match settled(Operation::Tracks, outcome) {
        Ok(page) => Ok(page.tracks),
        Err(error) => Err(error),
    }
}

/// The content of a result that holds tracks.
pub open spec fn tracks_result_view(result: Result<Vec<Track>, StatsError>) -> Result<
    Seq<TrackView>,
    StatsErrorView,
> {
    match result {
        Ok(tracks) => Ok(track_views(tracks@)),
        Err(error) => Err(error@),
    }
}

/// Decides what the outcome of a tracks request means: the tracks of the
/// page that came back, in its order, or the error that ends the operation.
///
/// The link to a next page is dropped: only this one page is ever used.
pub fn tracks_result(outcome: Outcome<TrackPage>) -> (result: Result<Vec<Track>, StatsError>)
    ensures
        tracks_result_view(result) == tracks_settled(outcome@),
{
    match settle(Operation::Tracks, outcome) {
        Ok(page) => Ok(page.tracks),
        Err(error) => Err(error),
    }
}

} // verus!
