//! The report: a profile, its recent tracks reshaped, and their totals.

use vstd::prelude::*;
use crate::model::{
    clone_optional_text, optional_text, track_views, Track, TrackView, UserProfile,
    UserProfileView,
};
use crate::text::{decimal, decimal_text, zero_padded, zero_padded_text};

verus! {

/// A count, with zero for one that is missing.
pub open spec fn or_zero(count: Option<u32>) -> u32 {
    match count {
        Some(n) => n,
        None => 0,
    }
}

/// Whole seconds in a length given in milliseconds; what is left of a
/// second is dropped.
pub open spec fn whole_seconds(duration_ms: u64) -> u64 {
    duration_ms / 1000
}

/// A length in seconds as minutes and seconds: the minutes without
/// padding, a colon, the seconds in two digits.
pub open spec fn duration_text(seconds: nat) -> Seq<char> {
    decimal_text(seconds / 60) + seq![':'] + zero_padded_text(seconds % 60)
}

/// One track as the report lists it.
///
/// Likes and reposts are always stated, as zero where the service gave
/// none. Every other optional field is there only where the service gave
/// it. The two duration fields come together or not at all.
#[derive(Debug, Clone, PartialEq, Eq)]
pub struct TrackEntry {
    pub id: u64,
    pub title: String,
    pub permalink_url: String,
    pub created_at: String,
    pub likes_count: u32,
    pub reposts_count: u32,
    pub playback_count: Option<u32>,
    pub comment_count: Option<u32>,
    pub download_count: Option<u32>,
    pub description: Option<String>,
    pub genre: Option<String>,
    pub artwork_url: Option<String>,
    pub duration_seconds: Option<u64>,
    pub duration_formatted: Option<String>,
}

/// The mathematical content of a [`TrackEntry`].
pub struct TrackEntryView {
    pub id: u64,
    pub title: Seq<char>,
    pub permalink_url: Seq<char>,
    pub created_at: Seq<char>,
    pub likes_count: u32,
    pub reposts_count: u32,
    pub playback_count: Option<u32>,
    pub comment_count: Option<u32>,
    pub download_count: Option<u32>,
    pub description: Option<Seq<char>>,
    pub genre: Option<Seq<char>>,
    pub artwork_url: Option<Seq<char>>,
    pub duration_seconds: Option<u64>,
    pub duration_formatted: Option<Seq<char>>,
}

impl View for TrackEntry {
    type V = TrackEntryView;

    open spec fn view(&self) -> TrackEntryView {
        TrackEntryView {
            id: self.id,
            title: self.title@,
            permalink_url: self.permalink_url@,
            created_at: self.created_at@,
            likes_count: self.likes_count,
            reposts_count: self.reposts_count,
            playback_count: self.playback_count,
            comment_count: self.comment_count,
            download_count: self.download_count,
            description: optional_text(self.description),
            genre: optional_text(self.genre),
            artwork_url: optional_text(self.artwork_url),
            duration_seconds: self.duration_seconds,
            duration_formatted: optional_text(self.duration_formatted),
        }
    }
}

/// The contents of a list of entries, in order.
pub open spec fn entry_views(entries: Seq<TrackEntry>) -> Seq<TrackEntryView> {
    entries.map_values(|e: TrackEntry| e@)
}

/// The entry that the report holds for a track.
pub open spec fn entry_of(track: TrackView) -> TrackEntryView {
    TrackEntryView {
        id: track.id,
        title: track.title,
        permalink_url: track.permalink_url,
        created_at: track.created_at,
        likes_count: or_zero(track.likes_count),
        reposts_count: or_zero(track.reposts_count),
        playback_count: track.playback_count,
        comment_count: track.comment_count,
        download_count: track.download_count,
        description: track.description,
        genre: track.genre,
        artwork_url: track.artwork_url,
        duration_seconds: match track.duration_ms {
            Some(ms) => Some(whole_seconds(ms)),
            None => None,
        },
        duration_formatted: match track.duration_ms {
            Some(ms) => Some(duration_text(whole_seconds(ms) as nat)),
            None => None,
        },
    }
}

/// What one track adds to a total: its count, or nothing where it has none.
pub open spec fn contribution(count: Option<u32>) -> nat {
    match count {
        Some(n) => n as nat,
        None => 0,
    }
}

/// The sum of the counts that are present.
pub open spec fn total(counts: Seq<Option<u32>>) -> nat
    decreases counts.len(),
{
    if counts.len() == 0 {
        0
    } else {
        total(counts.drop_last()) + contribution(counts.last())
    }
}

/// The like counts of a list of tracks, in order.
pub open spec fn like_counts(tracks: Seq<TrackView>) -> Seq<Option<u32>> {
    tracks.map_values(|t: TrackView| t.likes_count)
}

/// The repost counts of a list of tracks, in order.
pub open spec fn repost_counts(tracks: Seq<TrackView>) -> Seq<Option<u32>> {
    tracks.map_values(|t: TrackView| t.reposts_count)
}

/// The play counts of a list of tracks, in order.
pub open spec fn play_counts(tracks: Seq<TrackView>) -> Seq<Option<u32>> {
    tracks.map_values(|t: TrackView| t.playback_count)
}

/// The statistics of one account: the profile, the recent tracks in the
/// order in which the service listed them, and the totals over those tracks.
#[derive(Debug, Clone, PartialEq, Eq)]
pub struct StatsReport {
    pub id: u64,
    pub username: String,
    pub profile_url: String,
    pub followers_count: u32,
    pub followings_count: u32,
    pub track_count: u32,
    pub public_favorites_count: u32,
    pub reposts_count: Option<u32>,
    pub playlist_count: Option<u32>,
    pub city: Option<String>,
    pub country: Option<String>,
    pub description: Option<String>,
    pub avatar_url: Option<String>,
    pub recent_tracks: Vec<TrackEntry>,
    pub total_recent_likes: u128,
    pub total_recent_reposts: u128,
    pub total_recent_plays: u128,
}

/// The mathematical content of a [`StatsReport`].
pub struct StatsReportView {
    pub id: u64,
    pub username: Seq<char>,
    pub profile_url: Seq<char>,
    pub followers_count: u32,
    pub followings_count: u32,
    pub track_count: u32,
    pub public_favorites_count: u32,
    pub reposts_count: Option<u32>,
    pub playlist_count: Option<u32>,
    pub city: Option<Seq<char>>,
    pub country: Option<Seq<char>>,
    pub description: Option<Seq<char>>,
    pub avatar_url: Option<Seq<char>>,
    pub recent_tracks: Seq<TrackEntryView>,
    pub total_recent_likes: nat,
    pub total_recent_reposts: nat,
    pub total_recent_plays: nat,
}

impl View for StatsReport {
    type V = StatsReportView;

    open spec fn view(&self) -> StatsReportView {
        StatsReportView {
            id: self.id,
            username: self.username@,
            profile_url: self.profile_url@,
            followers_count: self.followers_count,
            followings_count: self.followings_count,
            track_count: self.track_count,
            public_favorites_count: self.public_favorites_count,
            reposts_count: self.reposts_count,
            playlist_count: self.playlist_count,
            city: optional_text(self.city),
            country: optional_text(self.country),
            description: optional_text(self.description),
            avatar_url: optional_text(self.avatar_url),
            recent_tracks: entry_views(self.recent_tracks@),
            total_recent_likes: self.total_recent_likes as nat,
            total_recent_reposts: self.total_recent_reposts as nat,
            total_recent_plays: self.total_recent_plays as nat,
        }
    }
}

/// The report for a profile and its tracks.
pub open spec fn report_of(user: UserProfileView, tracks: Seq<TrackView>) -> StatsReportView {
    StatsReportView {
        id: user.id,
        username: user.username,
        profile_url: user.profile_url,
        followers_count: user.followers_count,
        followings_count: user.followings_count,
        track_count: user.track_count,
        public_favorites_count: user.public_favorites_count,
        reposts_count: user.reposts_count,
        playlist_count: user.playlist_count,
        city: user.city,
        country: user.country,
        description: user.description,
        avatar_url: user.avatar_url,
        recent_tracks: tracks.map_values(|t: TrackView| entry_of(t)),
        total_recent_likes: total(like_counts(tracks)),
        total_recent_reposts: total(repost_counts(tracks)),
        total_recent_plays: total(play_counts(tracks)),
    }
}

/// A total is at most the largest count times the number of counts.
pub proof fn lemma_total_bound(counts: Seq<Option<u32>>)
    ensures
        total(counts) <= counts.len() * 0xffff_ffff,
    decreases counts.len(),
{
    if counts.len() > 0 {
        lemma_total_bound(counts.drop_last());
    }
}

/// Taking one more count into a total adds that count's contribution.
pub proof fn lemma_total_step(counts: Seq<Option<u32>>, i: int)
    requires
        0 <= i < counts.len(),
    ensures
        total(counts.take(i + 1)) == total(counts.take(i)) + contribution(counts[i]),
{
    assert(counts.take(i + 1).drop_last() =~= counts.take(i));
}

/// Writes a length in seconds as minutes and seconds, such as `2:05`.
pub fn format_duration(seconds: u64) -> (text: String)
    ensures
        text@ == duration_text(seconds as nat),
{
    proof {
        reveal_strlit(":");
    }
    let mut text: String = decimal(seconds / 60);
    text.append(":");
    text.append(zero_padded(seconds % 60).as_str());
    assert(text@ =~= duration_text(seconds as nat));
    text
}

impl TrackEntry {
    /// The entry that the report holds for `track`.
    ///
    /// Likes and reposts default to zero. A duration in milliseconds becomes
    /// whole seconds and their `minutes:seconds` text. Everything else is
    /// copied as it is, present or absent.
    pub fn from_track(track: &Track) -> (entry: TrackEntry)
        ensures
            entry@ == entry_of(track@),
    {
        let likes_count: u32 = match track.likes_count {
            Some(n) => n,
            None => 0,
        };
        let reposts_count: u32 = match track.reposts_count {
            Some(n) => n,
            None => 0,
        };
        let duration_seconds: Option<u64> = match track.duration_ms {
            Some(ms) => Some(ms / 1000),
            None => None,
        };
        let duration_formatted: Option<String> = match track.duration_ms {
            Some(ms) => Some(format_duration(ms / 1000)),
            None => None,
        };
        TrackEntry {
            id: track.id,
            title: track.title.clone(),
            permalink_url: track.permalink_url.clone(),
            created_at: track.created_at.clone(),
            likes_count,
            reposts_count,
            playback_count: track.playback_count,
            comment_count: track.comment_count,
            download_count: track.download_count,
            description: clone_optional_text(&track.description),
            genre: clone_optional_text(&track.genre),
            artwork_url: clone_optional_text(&track.artwork_url),
            duration_seconds,
            duration_formatted,
        }
    }
}

/// Adds what one track contributes to a running total.
fn add_count(sum: u128, count: Option<u32>) -> (next: u128)
    requires
        sum + 0xffff_ffff <= u128::MAX,
    ensures
        next == sum + contribution(count),
{
    match count {
        Some(n) => sum + n as u128,
        None => sum,
    }
}

/// Assembles the report for a profile and its recent tracks.
///
/// The profile's fields are copied. The tracks are listed in the order
/// given, one entry for each. Each total is the sum of one count over the
/// tracks that have it.
pub fn build_report(user: &UserProfile, tracks: &Vec<Track>) -> (report: StatsReport)
    ensures
        report@ == report_of(user@, track_views(tracks@)),
        report.recent_tracks@.len() == tracks@.len(),
        forall|i: int|
            0 <= i < tracks@.len() ==> (#[trigger] report.recent_tracks@[i])@ == entry_of(
                tracks@[i]@,
            ),
{
    let ghost views = track_views(tracks@);
    let mut entries: Vec<TrackEntry> = Vec::new();
    let mut likes: u128 = 0;
    let mut reposts: u128 = 0;
    let mut plays: u128 = 0;
    let mut i: usize = 0;
    while i < tracks.len()
        invariant
            i <= tracks.len(),
            views == track_views(tracks@),
            entries@.len() == i,
            forall|j: int| 0 <= j < i ==> (#[trigger] entries@[j])@ == entry_of(tracks@[j]@),
            likes == total(like_counts(views).take(i as int)),
            reposts == total(repost_counts(views).take(i as int)),
            plays == total(play_counts(views).take(i as int)),
        decreases tracks.len() - i,
    {
        let track: &Track = &tracks[i];
        proof {
            lemma_total_bound(like_counts(views).take(i as int));
            lemma_total_bound(repost_counts(views).take(i as int));
            lemma_total_bound(play_counts(views).take(i as int));
            lemma_total_step(like_counts(views), i as int);
            lemma_total_step(repost_counts(views), i as int);
            lemma_total_step(play_counts(views), i as int);
        }
        likes = add_count(likes, track.likes_count);
        reposts = add_count(reposts, track.reposts_count);
        plays = add_count(plays, track.playback_count);
        entries.push(TrackEntry::from_track(track));
        i = i + 1;
    }
    proof {
        assert(like_counts(views).take(i as int) =~= like_counts(views));
        assert(repost_counts(views).take(i as int) =~= repost_counts(views));
        assert(play_counts(views).take(i as int) =~= play_counts(views));
        assert(entry_views(entries@) =~= views.map_values(|t: TrackView| entry_of(t)));
    }
    StatsReport {
        id: user.id,
        username: user.username.clone(),
        profile_url: user.profile_url.clone(),
        followers_count: user.followers_count,
        followings_count: user.followings_count,
        track_count: user.track_count,
        public_favorites_count: user.public_favorites_count,
        reposts_count: user.reposts_count,
        playlist_count: user.playlist_count,
        city: clone_optional_text(&user.city),
        country: clone_optional_text(&user.country),
        description: clone_optional_text(&user.description),
        avatar_url: clone_optional_text(&user.avatar_url),
        recent_tracks: entries,
        total_recent_likes: likes,
        total_recent_reposts: reposts,
        total_recent_plays: plays,
    }
}

} // verus!
