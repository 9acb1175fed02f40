use soundcloud_stats::error::{Operation, StatsError};
use soundcloud_stats::model::{Track, TrackPage, UserProfile};
use soundcloud_stats::profile::{bearer, resolve_request, resolve_result, RESOLVE_ENDPOINT};
use soundcloud_stats::tracks::{tracks_request, tracks_result, DEFAULT_PAGE_SIZE};
use soundcloud_stats::transport::{Method, Outcome, Pair, Status};

fn header(name: &str, value: &str) -> Pair {
    Pair { name: name.to_string(), value: value.to_string() }
}

fn user(id: u64) -> UserProfile {
    UserProfile {
        id,
        username: "u".to_string(),
        profile_url: "p".to_string(),
        followers_count: 1,
        followings_count: 2,
        track_count: 3,
        public_favorites_count: 4,
        reposts_count: None,
        playlist_count: None,
        city: None,
        country: None,
        description: None,
        avatar_url: None,
    }
}

fn track(id: u64) -> Track {
    Track {
        id,
        title: format!("track {}", id),
        permalink_url: format!("https://soundcloud.com/u/{}", id),
        created_at: "2020-01-01".to_string(),
        likes_count: None,
        playback_count: None,
        reposts_count: None,
        comment_count: None,
        download_count: None,
        description: None,
        genre: None,
        artwork_url: None,
        duration_ms: None,
    }
}

#[test]
fn bearer_headers_carry_the_token() {
    assert_eq!(bearer("T"), vec![header("Authorization", "Bearer T"), header("Accept", "*/*")]);
}

#[test]
fn resolve_request_embeds_the_profile_url_as_it_is() {
    assert_eq!(RESOLVE_ENDPOINT, "https://api.soundcloud.com/resolve?url=");
    let request = resolve_request("https://soundcloud.com/some artist?x=1&y=2", "tok");
    assert_eq!(request.method, Method::Get);
    assert_eq!(
        request.url,
        "https://api.soundcloud.com/resolve?url=https://soundcloud.com/some artist?x=1&y=2"
    );
    assert_eq!(request.basic_auth, None);
    assert_eq!(request.headers, vec![header("Authorization", "Bearer tok"), header("Accept", "*/*")]);
    assert!(request.form.is_empty());
}

#[test]
fn resolve_result_returns_the_user() {
    assert_eq!(resolve_result(Outcome::Decoded { value: user(42) }), Ok(user(42)));
}

#[test]
fn resolve_result_failures() {
    assert_eq!(
        resolve_result(Outcome::Unreachable { cause: "reset".to_string() }),
        Err(StatsError::Network { operation: Operation::Resolve, cause: "reset".to_string() })
    );
    assert_eq!(
        resolve_result(Outcome::Rejected {
            status: Status::new(404).unwrap(),
            body: Some("not found".to_string())
        }),
        Err(StatsError::Resolve { status: Status::new(404).unwrap(), body: "not found".to_string() })
    );
    assert_eq!(
        resolve_result(Outcome::Malformed { cause: "missing field `username`".to_string() }),
        Err(StatsError::Decode {
            operation: Operation::Resolve,
            cause: "missing field `username`".to_string()
        })
    );
}

#[test]
fn tracks_request_names_user_and_page_size() {
    assert_eq!(DEFAULT_PAGE_SIZE, 10);
    let request = tracks_request(42, "tok", 10);
    assert_eq!(request.method, Method::Get);
    assert_eq!(
        request.url,
        "https://api.soundcloud.com/users/42/tracks?linked_partitioning=true&page_size=10"
    );
    assert_eq!(request.basic_auth, None);
    assert_eq!(request.headers, vec![header("Authorization", "Bearer tok"), header("Accept", "*/*")]);
    assert!(request.form.is_empty());
}

#[test]
fn tracks_request_with_extreme_numbers() {
    let request = tracks_request(u64::MAX, "t", u32::MAX);
    assert_eq!(
        request.url,
        "https://api.soundcloud.com/users/18446744073709551615/tracks?linked_partitioning=true&page_size=4294967295"
    );
    let request = tracks_request(0, "t", 0);
    assert_eq!(
        request.url,
        "https://api.soundcloud.com/users/0/tracks?linked_partitioning=true&page_size=0"
    );
}

#[test]
fn tracks_result_returns_the_page_in_order_and_drops_the_next_link() {
    let page = TrackPage {
        tracks: vec![track(3), track(1), track(2)],
        next_page_link: Some("https://api.soundcloud.com/next".to_string()),
    };
    assert_eq!(
        tracks_result(Outcome::Decoded { value: page }),
        Ok(vec![track(3), track(1), track(2)])
    );
}

#[test]
fn tracks_result_of_an_empty_page() {
    let page = TrackPage { tracks: vec![], next_page_link: None };
    assert_eq!(tracks_result(Outcome::Decoded { value: page }), Ok(vec![]));
}

#[test]
fn tracks_result_failures() {
    assert_eq!(
        tracks_result(Outcome::Unreachable { cause: "reset".to_string() }),
        Err(StatsError::Network { operation: Operation::Tracks, cause: "reset".to_string() })
    );
    assert_eq!(
        tracks_result(Outcome::Rejected { status: Status::new(429).unwrap(), body: None }),
        Err(StatsError::TrackFetch {
            status: Status::new(429).unwrap(),
            body: "Could not read error response".to_string()
        })
    );
    assert_eq!(
        tracks_result(Outcome::Malformed { cause: "expected a sequence".to_string() }),
        Err(StatsError::Decode {
            operation: Operation::Tracks,
            cause: "expected a sequence".to_string()
        })
    );
}
