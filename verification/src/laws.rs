//! What holds of the crate's functions taken together.

use vstd::prelude::*;
use crate::account::{
    after_profile, after_token, after_tracks, first_step, page_size_or_default,
    PendingProfileView, PendingTokenView, PendingTracksView, StepView,
};
use crate::config::{configured, CredentialProviderView, CLIENT_ID_VARIABLE};
use crate::error::{message_text, rejection_body, Operation, StatsErrorView};
use crate::model::{TrackPageView, TrackView, UserProfileView};
use crate::profile::resolve_request_model;
use crate::record::{entry_fields, ValueView};
use crate::report::{
    contribution, entry_of, like_counts, play_counts, report_of, repost_counts, total,
};
use crate::text::decimal_text;
use crate::token::token_request_model;
use crate::tracks::tracks_request_model;
use crate::transport::{OutcomeView, RequestView};

verus! {

/// Whether `part` stands somewhere inside `whole`, unbroken.
pub open spec fn occurs_in(part: Seq<char>, whole: Seq<char>) -> bool {
    exists|from: int|
        0 <= from && from + part.len() <= whole.len() && #[trigger] whole.subrange(
            from,
            from + part.len(),
        ) == part
}

/// Whether a list of fields has `key` among its keys.
pub open spec fn has_key(fields: Seq<(Seq<char>, ValueView)>, key: Seq<char>) -> bool {
    exists|i: int| 0 <= i < fields.len() && (#[trigger] fields[i]).0 == key
}

/// The report lists as many tracks as were given, in the order given: the
/// entry at each place is the entry of the track at that place.
pub proof fn lemma_recent_tracks_keep_length_and_order(
    user: UserProfileView,
    tracks: Seq<TrackView>,
)
    ensures
        report_of(user, tracks).recent_tracks.len() == tracks.len(),
        forall|i: int|
            0 <= i < tracks.len() ==> #[trigger] report_of(user, tracks).recent_tracks[i]
                == entry_of(tracks[i]),
        forall|i: int|
            0 <= i < tracks.len() ==> (#[trigger] report_of(user, tracks).recent_tracks[i]).id
                == tracks[i].id,
{
}

/// A total over no tracks is zero, and one more track adds its count where
/// it has one and nothing where it has none.
pub proof fn lemma_totals_add_present_counts(tracks: Seq<TrackView>, track: TrackView)
    ensures
        total(like_counts(Seq::empty())) == 0,
        total(like_counts(tracks.push(track))) == total(like_counts(tracks)) + contribution(
            track.likes_count,
        ),
        total(repost_counts(tracks.push(track))) == total(repost_counts(tracks)) + contribution(
            track.reposts_count,
        ),
        total(play_counts(tracks.push(track))) == total(play_counts(tracks)) + contribution(
            track.playback_count,
        ),
{
    assert(like_counts(tracks.push(track)).drop_last() =~= like_counts(tracks));
    assert(repost_counts(tracks.push(track)).drop_last() =~= repost_counts(tracks));
    assert(play_counts(tracks.push(track)).drop_last() =~= play_counts(tracks));
}

/// A track without a like count is listed with a like count of zero, and
/// one with a like count with that count. A play count is listed exactly
/// where the track has one: without it the entry has no such key.
pub proof fn lemma_likes_default_and_plays_stay_absent(track: TrackView)
    ensures
        entry_of(track).likes_count == match track.likes_count {
            Some(n) => n,
            None => 0,
        },
        entry_fields(entry_of(track))[4] == (
            "likes_count"@,
            ValueView::Integer(contribution(track.likes_count)),
        ),
        entry_of(track).playback_count == track.playback_count,
        has_key(entry_fields(entry_of(track)), "playback_count"@)
            <==> track.playback_count is Some,
{
    let entry = entry_of(track);
    let fields = entry_fields(entry);
    let key = "playback_count"@;
    reveal_strlit("playback_count");
    reveal_strlit("id");
    reveal_strlit("title");
    reveal_strlit("permalink_url");
    reveal_strlit("created_at");
    reveal_strlit("likes_count");
    reveal_strlit("reposts_count");
    reveal_strlit("comment_count");
    reveal_strlit("download_count");
    reveal_strlit("description");
    reveal_strlit("genre");
    reveal_strlit("artwork_url");
    reveal_strlit("duration_seconds");
    reveal_strlit("duration_formatted");
    assert("download_count"@[0] != key[0]);
    let head = seq![
        ("id"@, ValueView::Integer(entry.id as nat)),
        ("title"@, ValueView::Text(entry.title)),
        ("permalink_url"@, ValueView::Text(entry.permalink_url)),
        ("created_at"@, ValueView::Text(entry.created_at)),
        ("likes_count"@, ValueView::Integer(entry.likes_count as nat)),
        ("reposts_count"@, ValueView::Integer(entry.reposts_count as nat)),
    ];
    assert(fields[4] == head[4]);
    match track.playback_count {
        Some(n) => {
            assert(fields[6] == (key, ValueView::Integer(n as nat)));
            assert(fields[6].0 == key);
        },
        None => {
            assert forall|i: int| 0 <= i < fields.len() implies (#[trigger] fields[i]).0 != key by {
                let plays = crate::record::count_field(key, entry.playback_count);
                let comments = crate::record::count_field("comment_count"@, entry.comment_count);
                let downloads = crate::record::count_field(
                    "download_count"@,
                    entry.download_count,
                );
                let description = crate::record::text_field("description"@, entry.description);
                let genre = crate::record::text_field("genre"@, entry.genre);
                let artwork = crate::record::text_field("artwork_url"@, entry.artwork_url);
                let seconds = crate::record::number_field(
                    "duration_seconds"@,
                    entry.duration_seconds,
                );
                let formatted = crate::record::text_field(
                    "duration_formatted"@,
                    entry.duration_formatted,
                );
                let a = head + plays;
                let b = a + comments;
                let c = b + downloads;
                let d = c + description;
                let e = d + genre;
                let f = e + artwork;
                let g = f + seconds;
                assert(fields == g + formatted);
                assert(plays.len() == 0);
                lemma_keys_of_sum(g, formatted, key);
                lemma_keys_of_sum(f, seconds, key);
                lemma_keys_of_sum(e, artwork, key);
                lemma_keys_of_sum(d, genre, key);
                lemma_keys_of_sum(c, description, key);
                lemma_keys_of_sum(b, downloads, key);
                lemma_keys_of_sum(a, comments, key);
                lemma_keys_of_sum(head, plays, key);
                assert(!has_key(head, key)) by {
                    assert(key.len() == 14);
                    assert("id"@.len() == 2);
                    assert("title"@.len() == 5);
                    assert("permalink_url"@.len() == 13);
                    assert("created_at"@.len() == 10);
                    assert("likes_count"@.len() == 11);
                    assert("reposts_count"@.len() == 13);
                    assert(head[0].0 != key);
                    assert(head[1].0 != key);
                    assert(head[2].0 != key);
                    assert(head[3].0 != key);
                    assert(head[4].0 != key);
                    assert(head[5].0 != key);
                }
                assert("comment_count"@.len() == 13);
                assert("description"@.len() == 11);
                assert("genre"@.len() == 5);
                assert("artwork_url"@.len() == 11);
                assert("duration_seconds"@.len() == 16);
                assert("duration_formatted"@.len() == 18);
                assert(!has_key(comments, key));
                assert(!has_key(downloads, key));
                assert(!has_key(description, key));
                assert(!has_key(genre, key));
                assert(!has_key(artwork, key));
                assert(!has_key(seconds, key));
                assert(!has_key(formatted, key));
                assert(!has_key(fields, key));
            }
        },
    }
}

/// A key is among the keys of two lists joined exactly where it is among
/// the keys of one of them.
pub proof fn lemma_keys_of_sum(
    first: Seq<(Seq<char>, ValueView)>,
    second: Seq<(Seq<char>, ValueView)>,
    key: Seq<char>,
)
    ensures
        has_key(first + second, key) <==> has_key(first, key) || has_key(second, key),
{
    let joined = first + second;
    if has_key(joined, key) {
        let i = choose|i: int| 0 <= i < joined.len() && (#[trigger] joined[i]).0 == key;
        if i < first.len() {
            assert(first[i].0 == key);
        } else {
            assert(second[i - first.len()].0 == key);
        }
    }
    if has_key(first, key) {
        let i = choose|i: int| 0 <= i < first.len() && (#[trigger] first[i]).0 == key;
        assert(joined[i].0 == key);
    }
    if has_key(second, key) {
        let i = choose|i: int| 0 <= i < second.len() && (#[trigger] second[i]).0 == key;
        assert(joined[i + first.len()].0 == key);
    }
}

/// Without a configured client identifier, and with none given, nothing is
/// ever sent: asking the provider fails with the configuration error that
/// names the identifier's setting, no token request is described, and the
/// operation that needs a token ends at its first step with that error.
pub proof fn lemma_missing_client_id_ends_before_any_request(
    profile_url: Seq<char>,
    page_size: Option<u32>,
    endpoint: Option<Seq<char>>,
    client_secret: Option<Seq<char>>,
    grant_type: Option<Seq<char>>,
    provider: CredentialProviderView,
)
    requires
        provider.client_id is None,
    ensures
        configured(provider.client_id, CLIENT_ID_VARIABLE@) == Err::<Seq<char>, StatsErrorView>(
            StatsErrorView::Configuration { variable: "SOUNDCLOUD_CLIENT_ID"@ },
        ),
        token_request_model(endpoint, None, client_secret, grant_type, provider) == Err::<
            RequestView,
            StatsErrorView,
        >(StatsErrorView::Configuration { variable: "SOUNDCLOUD_CLIENT_ID"@ }),
        first_step(profile_url, None, page_size, provider) == StepView::Finished(
            Err(StatsErrorView::Configuration { variable: "SOUNDCLOUD_CLIENT_ID"@ }),
        ),
        message_text(StatsErrorView::Configuration { variable: "SOUNDCLOUD_CLIENT_ID"@ })
            == "SOUNDCLOUD_CLIENT_ID"@ + " not set"@,
{
}

/// A token request that is answered with a status outside 200 to 299 ends
/// the operation: the next step is the end, with the authorisation error
/// that carries the status and the text of the response, and the profile is
/// never asked for. The error's message holds the status code in decimal
/// and the text of the response.
pub proof fn lemma_rejected_token_ends_operation(
    pending: PendingTokenView,
    status: u16,
    body: Option<Seq<char>>,
)
    ensures
        after_token(pending, OutcomeView::Rejected { status, body }) == StepView::Finished(
            Err(
                StatsErrorView::Auth { status, body: rejection_body(Operation::Token, body) },
            ),
        ),
        !(after_token(pending, OutcomeView::Rejected { status, body }) is Profile),
        occurs_in(
            decimal_text(status as nat),
            message_text(
                StatsErrorView::Auth { status, body: rejection_body(Operation::Token, body) },
            ),
        ),
        occurs_in(
            rejection_body(Operation::Token, body),
            message_text(
                StatsErrorView::Auth { status, body: rejection_body(Operation::Token, body) },
            ),
        ),
{
    let text = rejection_body(Operation::Token, body);
    let message = message_text(StatsErrorView::Auth { status, body: text });
    let prefix = "API Request failed with status code "@;
    let digits = decimal_text(status as nat);
    let at_digits: int = prefix.len() as int;
    let at_text: int = message.len() - text.len();
    assert(message.subrange(at_digits, at_digits + digits.len()) =~= digits);
    assert(message.subrange(at_text, at_text + text.len()) =~= text);
}

/// The exchanges come strictly one after another and nothing is returned
/// in part. After the token request comes the resolve request or the end
/// with an error; after the resolve request the tracks request or the end
/// with an error; after the tracks request the end. The operation ends
/// with a report only after all of a tracks response was decoded, and that
/// report is the one of the resolved user and the tracks of that response.
pub proof fn lemma_exchanges_are_sequential(
    token_pending: PendingTokenView,
    token_outcome: OutcomeView<Seq<char>>,
    profile_pending: PendingProfileView,
    profile_outcome: OutcomeView<UserProfileView>,
    tracks_pending: PendingTracksView,
    tracks_outcome: OutcomeView<TrackPageView>,
)
    ensures
        match after_token(token_pending, token_outcome) {
            StepView::Profile(_, pending) => token_outcome matches OutcomeView::Decoded { value }
                && pending.token == value,
            StepView::Finished(result) => result is Err && !(token_outcome is Decoded),
            _ => false,
        },
        match after_profile(profile_pending, profile_outcome) {
            StepView::Tracks(_, pending) => profile_outcome matches OutcomeView::Decoded { value }
                && pending.user == value,
            StepView::Finished(result) => result is Err && !(profile_outcome is Decoded),
            _ => false,
        },
        match after_tracks(tracks_pending, tracks_outcome) {
            StepView::Finished(Ok(report)) => tracks_outcome matches OutcomeView::Decoded { value }
                && report == report_of(tracks_pending.user, value.tracks),
            StepView::Finished(Err(_)) => !(tracks_outcome is Decoded),
            _ => false,
        },
{
}

/// Where every request is answered and decoded, the operation runs through
/// its three exchanges and ends with the report of the resolved user and
/// of the tracks on the page that came back.
///
/// The token request goes to the default endpoint with the configured
/// credentials, the resolve request carries the token that was returned,
/// and the tracks request names the resolved user and the page size that
/// was asked for.
pub proof fn lemma_decoded_outcomes_give_the_report(
    profile_url: Seq<char>,
    page_size: Option<u32>,
    provider: CredentialProviderView,
    token: Seq<char>,
    user: UserProfileView,
    page: TrackPageView,
)
    requires
        provider.client_id is Some,
        provider.client_secret is Some,
    ensures
        ({
            let size = page_size_or_default(page_size);
            let request = token_request_model(None, None, None, None, provider);
            let token_pending = PendingTokenView { profile_url, page_size: size };
            let profile_pending = PendingProfileView { token, page_size: size };
            let tracks_pending = PendingTracksView { user };
            &&& request is Ok
            &&& first_step(profile_url, None, page_size, provider) == StepView::Token(
                request->Ok_0,
                token_pending,
            )
            &&& after_token(token_pending, OutcomeView::Decoded { value: token })
                == StepView::Profile(resolve_request_model(profile_url, token), profile_pending)
            &&& first_step(profile_url, Some(token), page_size, provider) == StepView::Profile(
                resolve_request_model(profile_url, token),
                profile_pending,
            )
            &&& after_profile(profile_pending, OutcomeView::Decoded { value: user })
                == StepView::Tracks(tracks_request_model(user.id, token, size), tracks_pending)
            &&& after_tracks(tracks_pending, OutcomeView::Decoded { value: page })
                == StepView::Finished(Ok(report_of(user, page.tracks)))
        }),
{
}

} // verus!
