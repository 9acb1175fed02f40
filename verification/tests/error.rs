use soundcloud_stats::error::{settle, Operation, StatsError};
use soundcloud_stats::transport::{Outcome, Status};

fn status(code: u16) -> Status {
    Status::new(code).unwrap()
}

#[test]
fn message_of_configuration_error() {
    let error = StatsError::Configuration { variable: "SOUNDCLOUD_CLIENT_SECRET".to_string() };
    assert_eq!(error.message(), "SOUNDCLOUD_CLIENT_SECRET not set");
}

#[test]
fn message_of_network_error_by_operation() {
    let cause = "connection refused".to_string();
    let token = StatsError::Network { operation: Operation::Token, cause: cause.clone() };
    assert_eq!(token.message(), "Error getting access token: connection refused");
    let resolve = StatsError::Network { operation: Operation::Resolve, cause: cause.clone() };
    assert_eq!(resolve.message(), "Request failed: connection refused");
    let tracks = StatsError::Network { operation: Operation::Tracks, cause };
    assert_eq!(tracks.message(), "Request failed: connection refused");
}

#[test]
fn message_of_rejections() {
    let auth = StatsError::Auth { status: status(401), body: "invalid_client".to_string() };
    assert_eq!(
        auth.message(),
        "API Request failed with status code 401 Unauthorized: invalid_client"
    );
    let resolve = StatsError::Resolve { status: status(404), body: "no such user".to_string() };
    assert_eq!(resolve.message(), "Failed to resolve user URL: 404 Not Found - no such user");
    let tracks = StatsError::TrackFetch { status: status(500), body: "oops".to_string() };
    assert_eq!(tracks.message(), "Failed to get user tracks: 500 Internal Server Error - oops");
}

#[test]
fn message_of_decode_error_by_operation() {
    let cause = "missing field `id`".to_string();
    let token = StatsError::Decode { operation: Operation::Token, cause: cause.clone() };
    assert_eq!(token.message(), "Error parsing response: missing field `id`");
    let resolve = StatsError::Decode { operation: Operation::Resolve, cause: cause.clone() };
    assert_eq!(resolve.message(), "Failed to parse user data: missing field `id`");
    let tracks = StatsError::Decode { operation: Operation::Tracks, cause };
    assert_eq!(tracks.message(), "Failed to parse tracks data: missing field `id`");
}

#[test]
fn settle_hands_on_a_decoded_value() {
    let outcome: Outcome<u8> = Outcome::Decoded { value: 7 };
    assert_eq!(settle(Operation::Resolve, outcome), Ok(7));
}

#[test]
fn settle_turns_a_missing_response_into_a_network_error() {
    let outcome: Outcome<u8> = Outcome::Unreachable { cause: "timed out".to_string() };
    assert_eq!(
        settle(Operation::Tracks, outcome),
        Err(StatsError::Network { operation: Operation::Tracks, cause: "timed out".to_string() })
    );
}

#[test]
fn settle_turns_an_unexpected_body_into_a_decode_error() {
    let outcome: Outcome<u8> = Outcome::Malformed { cause: "expected value".to_string() };
    assert_eq!(
        settle(Operation::Token, outcome),
        Err(StatsError::Decode { operation: Operation::Token, cause: "expected value".to_string() })
    );
}

#[test]
fn settle_tags_a_rejection_with_its_operation() {
    let body = Some("nope".to_string());
    let token: Outcome<u8> = Outcome::Rejected { status: status(403), body: body.clone() };
    assert_eq!(
        settle(Operation::Token, token),
        Err(StatsError::Auth { status: status(403), body: "nope".to_string() })
    );
    let resolve: Outcome<u8> = Outcome::Rejected { status: status(403), body: body.clone() };
    assert_eq!(
        settle(Operation::Resolve, resolve),
        Err(StatsError::Resolve { status: status(403), body: "nope".to_string() })
    );
    let tracks: Outcome<u8> = Outcome::Rejected { status: status(403), body };
    assert_eq!(
        settle(Operation::Tracks, tracks),
        Err(StatsError::TrackFetch { status: status(403), body: "nope".to_string() })
    );
}

#[test]
fn settle_substitutes_a_placeholder_for_an_unreadable_body() {
    let token: Outcome<u8> = Outcome::Rejected { status: status(502), body: None };
    assert_eq!(
        settle(Operation::Token, token),
        Err(StatsError::Auth { status: status(502), body: "Could not get error text".to_string() })
    );
    let resolve: Outcome<u8> = Outcome::Rejected { status: status(502), body: None };
    assert_eq!(
        settle(Operation::Resolve, resolve),
        Err(StatsError::Resolve {
            status: status(502),
            body: "Could not read error response".to_string()
        })
    );
    let tracks: Outcome<u8> = Outcome::Rejected { status: status(502), body: None };
    assert_eq!(
        settle(Operation::Tracks, tracks),
        Err(StatsError::TrackFetch {
            status: status(502),
            body: "Could not read error response".to_string()
        })
    );
}
