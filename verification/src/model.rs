//! The records that the service returns: a user profile and its tracks.

use vstd::prelude::*;

verus! {

/// The characters of an optional string, where there is one.
pub open spec fn optional_text(text: Option<String>) -> Option<Seq<char>> {
    match text {
        Some(s) => Some(s@),
        None => None,
    }
}

/// Copies an optional string.
pub fn clone_optional_text(text: &Option<String>) -> (copy: Option<String>)
    ensures
        copy == *text,
{
    match text {
        Some(s) => Some(s.clone()),
        None => None,
    }
}

/// A user account as the resolve endpoint describes it.
///
/// The identifier, the name and the profile URL are always there; the
/// optional fields are `Some` only where the service supplied them.
#[derive(Debug, Clone, PartialEq, Eq)]
pub struct UserProfile {
    pub id: u64,
    pub username: String,
    pub profile_url: String,
    pub followers_count: u32,
    pub followings_count: u32,
    pub track_count: u32,
    pub public_favorites_count: u32,
    pub reposts_count: Option<u32>,
    pub playlist_count: Option<u32>,
    pub city: Option<String>,
    pub country: Option<String>,
    pub description: Option<String>,
    pub avatar_url: Option<String>,
}

/// The mathematical content of a [`UserProfile`].
pub struct UserProfileView {
    pub id: u64,
    pub username: Seq<char>,
    pub profile_url: Seq<char>,
    pub followers_count: u32,
    pub followings_count: u32,
    pub track_count: u32,
    pub public_favorites_count: u32,
    pub reposts_count: Option<u32>,
    pub playlist_count: Option<u32>,
    pub city: Option<Seq<char>>,
    pub country: Option<Seq<char>>,
    pub description: Option<Seq<char>>,
    pub avatar_url: Option<Seq<char>>,
}

impl View for UserProfile {
    type V = UserProfileView;

    open spec fn view(&self) -> UserProfileView {
        UserProfileView {
            id: self.id,
            username: self.username@,
            profile_url: self.profile_url@,
            followers_count: self.followers_count,
            followings_count: self.followings_count,
            track_count: self.track_count,
            public_favorites_count: self.public_favorites_count,
            reposts_count: self.reposts_count,
            playlist_count: self.playlist_count,
            city: optional_text(self.city),
            country: optional_text(self.country),
            description: optional_text(self.description),
            avatar_url: optional_text(self.avatar_url),
        }
    }
}

/// One track as the tracks endpoint describes it.
///
/// `created_at` is passed through as the service wrote it. `duration_ms`,
/// where present, is the length of the track in milliseconds.
#[derive(Debug, Clone, PartialEq, Eq)]
pub struct Track {
    pub id: u64,
    pub title: String,
    pub permalink_url: String,
    pub created_at: String,
    pub likes_count: Option<u32>,
    pub playback_count: Option<u32>,
    pub reposts_count: Option<u32>,
    pub comment_count: Option<u32>,
    pub download_count: Option<u32>,
    pub description: Option<String>,
    pub genre: Option<String>,
    pub artwork_url: Option<String>,
    pub duration_ms: Option<u64>,
}

/// The mathematical content of a [`Track`].
pub struct TrackView {
    pub id: u64,
    pub title: Seq<char>,
    pub permalink_url: Seq<char>,
    pub created_at: Seq<char>,
    pub likes_count: Option<u32>,
    pub playback_count: Option<u32>,
    pub reposts_count: Option<u32>,
    pub comment_count: Option<u32>,
    pub download_count: Option<u32>,
    pub description: Option<Seq<char>>,
    pub genre: Option<Seq<char>>,
    pub artwork_url: Option<Seq<char>>,
    pub duration_ms: Option<u64>,
}

impl View for Track {
    type V = TrackView;

    open spec fn view(&self) -> TrackView {
        TrackView {
            id: self.id,
            title: self.title@,
            permalink_url: self.permalink_url@,
            created_at: self.created_at@,
            likes_count: self.likes_count,
            playback_count: self.playback_count,
            reposts_count: self.reposts_count,
            comment_count: self.comment_count,
            download_count: self.download_count,
            description: optional_text(self.description),
            genre: optional_text(self.genre),
            artwork_url: optional_text(self.artwork_url),
            duration_ms: self.duration_ms,
        }
    }
}

/// The contents of a list of tracks, in order.
pub open spec fn track_views(tracks: Seq<Track>) -> Seq<TrackView> {
    tracks.map_values(|t: Track| t@)
}

/// One page of a track listing. The link to the next page is kept as the
/// service sent it and is never followed.
#[derive(Debug, Clone, PartialEq, Eq)]
pub struct TrackPage {
    pub tracks: Vec<Track>,
    pub next_page_link: Option<String>,
}

/// The mathematical content of a [`TrackPage`].
pub struct TrackPageView {
    pub tracks: Seq<TrackView>,
    pub next_page_link: Option<Seq<char>>,
}

impl View for TrackPage {
    type V = TrackPageView;

    open spec fn view(&self) -> TrackPageView {
        TrackPageView {
            tracks: track_views(self.tracks@),
            next_page_link: optional_text(self.next_page_link),
        }
    }
}

} // verus!
