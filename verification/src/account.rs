//! The whole operation: token, profile, tracks, report, one step at a time.
//!
//! Each [`Step`] but the last names a request and holds what is needed to go
//! on once its outcome is known. The caller sends the request, reports the
//! outcome to the pending state, and gets the next step.

use vstd::prelude::*;
use crate::config::{CredentialProvider, CredentialProviderView};
use crate::error::{result_view, settled, Operation, StatsError, StatsErrorView};
use crate::model::{optional_text, TrackPage, TrackPageView, UserProfile, UserProfileView};
use crate::profile::{resolve_request, resolve_request_model, resolve_result};
use crate::report::{build_report, report_of, StatsReport, StatsReportView};
use crate::token::{token_request, token_request_model, token_result};
use crate::tracks::{
    tracks_request, tracks_request_model, tracks_result, tracks_settled, DEFAULT_PAGE_SIZE,
};
use crate::transport::{Outcome, OutcomeView, Request, RequestView};

verus! {

/// What is kept while the token request is under way.
#[derive(Debug, Clone, PartialEq, Eq)]
pub struct PendingToken {
    pub profile_url: String,
    pub page_size: u32,
}

/// The mathematical content of a [`PendingToken`].
pub struct PendingTokenView {
    pub profile_url: Seq<char>,
    pub page_size: u32,
}

impl View for PendingToken {
    type V = PendingTokenView;

    open spec fn view(&self) -> PendingTokenView {
        PendingTokenView { profile_url: self.profile_url@, page_size: self.page_size }
    }
}

/// What is kept while the resolve request is under way.
#[derive(Debug, Clone, PartialEq, Eq)]
pub struct PendingProfile {
    pub token: String,
    pub page_size: u32,
}

/// The mathematical content of a [`PendingProfile`].
pub struct PendingProfileView {
    pub token: Seq<char>,
    pub page_size: u32,
}

impl View for PendingProfile {
    type V = PendingProfileView;

    open spec fn view(&self) -> PendingProfileView {
        PendingProfileView { token: self.token@, page_size: self.page_size }
    }
}

/// What is kept while the tracks request is under way.
#[derive(Debug, Clone, PartialEq, Eq)]
pub struct PendingTracks {
    pub user: UserProfile,
}

/// The mathematical content of a [`PendingTracks`].
pub struct PendingTracksView {
    pub user: UserProfileView,
}

impl View for PendingTracks {
    type V = PendingTracksView;

    open spec fn view(&self) -> PendingTracksView {
        PendingTracksView { user: self.user@ }
    }
}

/// Where the operation stands: a request to send, or the end.
#[derive(Debug, PartialEq, Eq)]
pub enum Step {
    /// Send the token request, then call [`PendingToken::resume`].
    Token(Request, PendingToken),
    /// Send the resolve request, then call [`PendingProfile::resume`].
    Profile(Request, PendingProfile),
    /// Send the tracks request, then call [`PendingTracks::resume`].
    Tracks(Request, PendingTracks),
    /// Nothing is left to send: the report, or the error that ended the
    /// operation.
    Finished(Result<StatsReport, StatsError>),
}

/// The mathematical content of a [`Step`].
pub enum StepView {
    Token(RequestView, PendingTokenView),
    Profile(RequestView, PendingProfileView),
    Tracks(RequestView, PendingTracksView),
    Finished(Result<StatsReportView, StatsErrorView>),
}

impl View for Step {
    type V = StepView;

    open spec fn view(&self) -> StepView {
        match *self {
            Step::Token(request, pending) => StepView::Token(request@, pending@),
            Step::Profile(request, pending) => StepView::Profile(request@, pending@),
            Step::Tracks(request, pending) => StepView::Tracks(request@, pending@),
            Step::Finished(result) => StepView::Finished(result_view(result)),
        }
    }
}

/// The page size that is asked for.
pub open spec fn page_size_or_default(page_size: Option<u32>) -> u32 {
    match page_size {
        Some(n) => n,
        None => DEFAULT_PAGE_SIZE,
    }
}

/// The step that resolves the profile, once a token is at hand.
pub open spec fn profile_step(profile_url: Seq<char>, token: Seq<char>, page_size: u32) -> StepView {
    StepView::Profile(
        resolve_request_model(profile_url, token),
        PendingProfileView { token, page_size },
    )
}

/// The first step of the operation.
///
/// With a token given, the profile is resolved at once. Without one, a
/// token is asked for at the default endpoint with the configured
/// credentials; where a credential is missing the operation ends there,
/// with nothing sent.
pub open spec fn first_step(
    profile_url: Seq<char>,
    access_token: Option<Seq<char>>,
    page_size: Option<u32>,
    provider: CredentialProviderView,
) -> StepView {
    match access_token {
        Some(token) => profile_step(profile_url, token, page_size_or_default(page_size)),
        None => match token_request_model(None, None, None, None, provider) {
            Ok(request) => StepView::Token(
                request,
                PendingTokenView { profile_url, page_size: page_size_or_default(page_size) },
            ),
            Err(error) => StepView::Finished(Err(error)),
        },
    }
}

/// The step that follows the token request.
pub open spec fn after_token(pending: PendingTokenView, outcome: OutcomeView<Seq<char>>) -> StepView {
    match settled(Operation::Token, outcome) {
        Ok(token) => profile_step(pending.profile_url, token, pending.page_size),
        Err(error) => StepView::Finished(Err(error)),
    }
}

/// The step that follows the resolve request.
pub open spec fn after_profile(
    pending: PendingProfileView,
    outcome: OutcomeView<UserProfileView>,
) -> StepView {
    match settled(Operation::Resolve, outcome) {
        Ok(user) => StepView::Tracks(
            tracks_request_model(user.id, pending.token, pending.page_size),
            PendingTracksView { user },
        ),
        Err(error) => StepView::Finished(Err(error)),
    }
}

/// The step that follows the tracks request: always the last.
pub open spec fn after_tracks(
    pending: PendingTracksView,
    outcome: OutcomeView<TrackPageView>,
) -> StepView {
    match tracks_settled(outcome) {
        Ok(tracks) => StepView::Finished(Ok(report_of(pending.user, tracks))),
        Err(error) => StepView::Finished(Err(error)),
    }
}

/// The step that resolves the profile.
fn resolve_step(profile_url: String, token: String, page_size: u32) -> (step: Step)
    ensures
        step@ == profile_step(profile_url@, token@, page_size),
{
    let request: Request = resolve_request(profile_url.as_str(), token.as_str());
    Step::Profile(request, PendingProfile { token, page_size })
}

/// Begins the operation that yields the statistics of the account behind
/// `profile_url`.
///
/// `access_token` is used where given; otherwise the first step asks for
/// one with the provider's credentials. `page_size` is the number of recent
/// tracks to ask for, [`DEFAULT_PAGE_SIZE`] where not given.
pub fn get_account_stats(
    profile_url: String,
    access_token: Option<String>,
    page_size: Option<u32>,
    provider: &CredentialProvider,
) -> (step: Step)
    ensures
        step@ == first_step(profile_url@, optional_text(access_token), page_size, provider@),
{
    let page_size: u32 = match page_size {
        Some(n) => n,
        None => DEFAULT_PAGE_SIZE,
    };
    match access_token {
        Some(token) => resolve_step(profile_url, token, page_size),
        None => match token_request(None, None, None, None, provider) {
            Ok(request) => Step::Token(request, PendingToken { profile_url, page_size }),
            Err(error) => Step::Finished(Err(error)),
        },
    }
}

impl PendingToken {
    /// Goes on after the token request: with the token the profile is
    /// resolved, without it the operation ends.
    pub fn resume(self, outcome: Outcome<String>) -> (step: Step)
        ensures
            step@ == after_token(self@, outcome@),
    {
        match token_result(outcome) {
            Ok(token) => resolve_step(self.profile_url, token, self.page_size),
            Err(error) => Step::Finished(Err(error)),
        }
    }
}

impl PendingProfile {
    /// Goes on after the resolve request: with the user the tracks are
    /// asked for, without it the operation ends.
    pub fn resume(self, outcome: Outcome<UserProfile>) -> (step: Step)
        ensures
            step@ == after_profile(self@, outcome@),
    {
        match resolve_result(outcome) {
            Ok(user) => {
                let request: Request = tracks_request(user.id, self.token.as_str(), self.page_size);
                Step::Tracks(request, PendingTracks { user })
            },
            Err(error) => Step::Finished(Err(error)),
        }
    }
}

impl PendingTracks {
    /// Ends the operation after the tracks request: with the report, or
    /// with the error.
    pub fn resume(self, outcome: Outcome<TrackPage>) -> (step: Step)
        ensures
            step@ == after_tracks(self@, outcome@),
    {
        match tracks_result(outcome) {
            Ok(tracks) => Step::Finished(Ok(build_report(&self.user, &tracks))),
            Err(error) => Step::Finished(Err(error)),
        }
    }
}

} // verus!
