//! The ways in which an operation fails, and how each failure is worded.

use vstd::prelude::*;
use crate::transport::{status_text, Outcome, OutcomeView, Status};

verus! {

/// The three exchanges with the service.
#[derive(Debug, Clone, Copy, PartialEq, Eq)]
pub enum Operation {
    /// Obtaining an access token.
    Token,
    /// Resolving a profile URL to a user.
    Resolve,
    /// Listing a user's recent tracks.
    Tracks,
}

/// Why an operation ended without a result.
#[derive(Debug, Clone, PartialEq, Eq)]
pub enum StatsError {
    /// A credential is not configured; `variable` names the missing setting.
    Configuration { variable: String },
    /// No response arrived for the request of `operation`.
    Network { operation: Operation, cause: String },
    /// The token endpoint answered with a status outside 200 to 299.
    Auth { status: Status, body: String },
    /// The resolve endpoint answered with a status outside 200 to 299.
    Resolve { status: Status, body: String },
    /// The tracks endpoint answered with a status outside 200 to 299.
    TrackFetch { status: Status, body: String },
    /// The response of `operation` did not have the expected shape.
    Decode { operation: Operation, cause: String },
}

/// The mathematical content of a [`StatsError`].
pub enum StatsErrorView {
    Configuration { variable: Seq<char> },
    Network { operation: Operation, cause: Seq<char> },
    Auth { status: u16, body: Seq<char> },
    Resolve { status: u16, body: Seq<char> },
    TrackFetch { status: u16, body: Seq<char> },
    Decode { operation: Operation, cause: Seq<char> },
}

impl View for StatsError {
    type V = StatsErrorView;

    open spec fn view(&self) -> StatsErrorView {
        match *self {
            StatsError::Configuration { variable } => StatsErrorView::Configuration {
                variable: variable@,
            },
            StatsError::Network { operation, cause } => StatsErrorView::Network {
                operation,
                cause: cause@,
            },
            StatsError::Auth { status, body } => StatsErrorView::Auth {
                status: status@,
                body: body@,
            },
            StatsError::Resolve { status, body } => StatsErrorView::Resolve {
                status: status@,
                body: body@,
            },
            StatsError::TrackFetch { status, body } => StatsErrorView::TrackFetch {
                status: status@,
                body: body@,
            },
            StatsError::Decode { operation, cause } => StatsErrorView::Decode {
                operation,
                cause: cause@,
            },
        }
    }
}

/// The content of a result whose error is a [`StatsError`].
pub open spec fn result_view<T: View>(result: Result<T, StatsError>) -> Result<T::V, StatsErrorView> {
    match result {
        Ok(value) => Ok(value@),
        Err(error) => Err(error@),
    }
}

/// How the message of a transport failure begins.
pub open spec fn network_prefix(operation: Operation) -> Seq<char> {
    match operation {
        Operation::Token => "Error getting access token: "@,
        Operation::Resolve => "Request failed: "@,
        Operation::Tracks => "Request failed: "@,
    }
}

/// How the message of an undecodable response begins.
pub open spec fn decode_prefix(operation: Operation) -> Seq<char> {
    match operation {
        Operation::Token => "Error parsing response: "@,
        Operation::Resolve => "Failed to parse user data: "@,
        Operation::Tracks => "Failed to parse tracks data: "@,
    }
}

/// The message of an error: what was attempted, the status where there is
/// one, and the text of the cause or of the response.
pub open spec fn message_text(error: StatsErrorView) -> Seq<char> {
    match error {
        StatsErrorView::Configuration { variable } => variable + " not set"@,
        StatsErrorView::Network { operation, cause } => network_prefix(operation) + cause,
        StatsErrorView::Auth { status, body } => "API Request failed with status code "@
            + status_text(status) + ": "@ + body,
        StatsErrorView::Resolve { status, body } => "Failed to resolve user URL: "@ + status_text(
            status,
        ) + " - "@ + body,
        StatsErrorView::TrackFetch { status, body } => "Failed to get user tracks: "@
            + status_text(status) + " - "@ + body,
        StatsErrorView::Decode { operation, cause } => decode_prefix(operation) + cause,
    }
}

/// The text that stands for the body of a rejected response: the body
/// itself, or a placeholder where it could not be read.
pub open spec fn rejection_body(operation: Operation, body: Option<Seq<char>>) -> Seq<char> {
    match body {
        Some(text) => text,
        None => match operation {
            Operation::Token => "Could not get error text"@,
            Operation::Resolve => "Could not read error response"@,
            Operation::Tracks => "Could not read error response"@,
        },
    }
}

/// The error for a response with a status outside 200 to 299.
pub open spec fn rejection(operation: Operation, status: u16, body: Seq<char>) -> StatsErrorView {
    match operation {
        Operation::Token => StatsErrorView::Auth { status, body },
        Operation::Resolve => StatsErrorView::Resolve { status, body },
        Operation::Tracks => StatsErrorView::TrackFetch { status, body },
    }
}

/// What an outcome means for the operation that asked: the decoded value,
/// or the error that ends the operation.
pub open spec fn settled<V>(operation: Operation, outcome: OutcomeView<V>) -> Result<
    V,
    StatsErrorView,
> {
    match outcome {
        OutcomeView::Unreachable { cause } => Err(StatsErrorView::Network { operation, cause }),
        OutcomeView::Rejected { status, body } => Err(
            rejection(operation, status, rejection_body(operation, body)),
        ),
        OutcomeView::Malformed { cause } => Err(StatsErrorView::Decode { operation, cause }),
        OutcomeView::Decoded { value } => Ok(value),
    }
}

impl StatsError {
    /// The message of this error.
    pub fn message(&self) -> (text: String)
        ensures
            text@ == message_text(self@),
    {
        match self {
            StatsError::Configuration { variable } => {
                let mut text: String = variable.clone();
                text.append(" not set");
                text
            },
            StatsError::Network { operation, cause } => {
                let mut text: String = match operation {
                    Operation::Token => String::from_str("Error getting access token: "),
                    Operation::Resolve => String::from_str("Request failed: "),
                    Operation::Tracks => String::from_str("Request failed: "),
                };
                text.append(cause.as_str());
                text
            },
            StatsError::Auth { status, body } => {
                let mut text: String = String::from_str("API Request failed with status code ");
                text.append(status.describe().as_str());
                text.append(": ");
                text.append(body.as_str());
                text
            },
            StatsError::Resolve { status, body } => {
                let mut text: String = String::from_str("Failed to resolve user URL: ");
                text.append(status.describe().as_str());
                text.append(" - ");
                text.append(body.as_str());
                text
            },
            StatsError::TrackFetch { status, body } => {
                let mut text: String = String::from_str("Failed to get user tracks: ");
                text.append(status.describe().as_str());
                text.append(" - ");
                text.append(body.as_str());
                text
            },
            StatsError::Decode { operation, cause } => {
                let mut text: String = match operation {
                    Operation::Token => String::from_str("Error parsing response: "),
                    Operation::Resolve => String::from_str("Failed to parse user data: "),
                    Operation::Tracks => String::from_str("Failed to parse tracks data: "),
                };
                text.append(cause.as_str());
                text
            },
        }
    }
}

/// Decides what an outcome means for the operation that asked.
///
/// A decoded value is handed on. Everything else ends the operation: a
/// request without a response as a network error, a status outside 200 to
/// 299 as the rejection of that operation with the response's text or a
/// placeholder for it, an unexpected body as a decode error.
pub fn settle<T: View>(operation: Operation, outcome: Outcome<T>) -> (result: Result<T, StatsError>)
    ensures
        result_view(result) == settled(operation, outcome@),
{
    match outcome {
        Outcome::Unreachable { cause } => Err(StatsError::Network { operation, cause }),
        Outcome::Rejected { status, body } => {
            let body: String = match body {
                Some(text) => text,
                None => match operation {
                    Operation::Token => String::from_str("Could not get error text"),
                    Operation::Resolve => String::from_str("Could not read error response"),
                    Operation::Tracks => String::from_str("Could not read error response"),
                },
            };
            match operation {
                Operation::Token => Err(StatsError::Auth { status, body }),
                Operation::Resolve => Err(StatsError::Resolve { status, body }),
                Operation::Tracks => Err(StatsError::TrackFetch { status, body }),
            }
        },
        Outcome::Malformed { cause } => Err(StatsError::Decode { operation, cause }),
        Outcome::Decoded { value } => Ok(value),
    }
}

} // verus!
