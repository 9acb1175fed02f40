//! Descriptions of HTTP requests and of what came back for them.
//!
//! The crate never sends anything. It hands a [`Request`] to its caller and
//! is told the [`Outcome`].

use vstd::prelude::*;
use crate::config::{optional_credentials, Credentials, CredentialsView};
use crate::model::optional_text;
use crate::text::{decimal, decimal_text};

verus! {

/// The reason phrase that `reqwest::StatusCode::canonical_reason` knows for
/// a status code, where it knows one.
pub uninterp spec fn canonical_reason(code: u16) -> Option<Seq<char>>;

/// Asks `reqwest::StatusCode::canonical_reason` for the reason phrase of a
/// status code.
///
/// Trusted: the phrase returned is the one that the table in the `http`
/// crate holds for `code`, and none is returned where the table has none.
/// `StatusCode::from_u16` accepts exactly the codes from 100 to 999.
#[verifier::external_body]
fn reason_phrase(code: u16) -> (phrase: Option<&'static str>)
    requires
        100 <= code <= 999,
    ensures
        match phrase {
            Some(p) => canonical_reason(code) == Some(p@),
            None => canonical_reason(code) is None,
        },
{
    match reqwest::StatusCode::from_u16(code) {
        Ok(status) => status.canonical_reason(),
        Err(_) => None,
    }
}

/// How a status is written in messages: the code, a space, and the reason
/// phrase or a placeholder where the code has none.
pub open spec fn status_text(code: u16) -> Seq<char> {
    decimal_text(code as nat) + seq![' '] + match canonical_reason(code) {
        Some(phrase) => phrase,
        None => "<unknown status code>"@,
    }
}

/// An HTTP status code: a number from 100 to 999.
#[derive(Debug, Clone, Copy, PartialEq, Eq)]
pub struct Status {
    code: u16,
}

impl View for Status {
    type V = u16;

    closed spec fn view(&self) -> u16 {
        self.code
    }
}

impl Status {
    #[verifier::type_invariant]
    spec fn in_range(self) -> bool {
        100 <= self.code <= 999
    }

    /// Accepts the codes from 100 to 999 and no others.
    pub fn new(code: u16) -> (status: Option<Status>)
        ensures
            status is Some <==> 100 <= code <= 999,
            status matches Some(s) ==> s@ == code,
    {
        if 100 <= code && code <= 999 {
            Some(Status { code })
        } else {
            None
        }
    }

    /// The code as a number.
    pub fn as_u16(&self) -> (code: u16)
        ensures
            code == self@,
            100 <= code <= 999,
    {
        proof {
            use_type_invariant(self);
        }
        self.code
    }

    /// Whether the code is one of 200 to 299.
    pub fn is_success(&self) -> (yes: bool)
        ensures
            yes == (200 <= self@ < 300),
    {
        200 <= self.code && self.code < 300
    }

    /// The status as messages write it, for instance `404 Not Found`.
    pub fn describe(&self) -> (text: String)
        ensures
            text@ == status_text(self@),
    {
        proof {
            use_type_invariant(self);
            reveal_strlit(" ");
        }
        let mut text: String = decimal(self.code as u64);
        text.append(" ");
        match reason_phrase(self.code) {
            Some(phrase) => text.append(phrase),
            None => text.append("<unknown status code>"),
        }
        assert(text@ =~= status_text(self@));
        text
    }
}

/// The request method.
#[derive(Debug, Clone, Copy, PartialEq, Eq)]
pub enum Method {
    Get,
    Post,
}

/// A name with its value: a header, or a field of a form.
#[derive(Debug, Clone, PartialEq, Eq)]
pub struct Pair {
    pub name: String,
    pub value: String,
}

impl View for Pair {
    type V = (Seq<char>, Seq<char>);

    open spec fn view(&self) -> (Seq<char>, Seq<char>) {
        (self.name@, self.value@)
    }
}

/// The contents of a list of pairs, in order.
pub open spec fn pair_views(pairs: Seq<Pair>) -> Seq<(Seq<char>, Seq<char>)> {
    pairs.map_values(|p: Pair| p@)
}

/// Everything the caller needs to send one request.
///
/// `basic_auth`, where present, is sent as HTTP Basic authentication with
/// the client identifier as user name and the secret as password. `form`,
/// where not empty, is the body, sent form-encoded.
#[derive(Debug, Clone, PartialEq, Eq)]
pub struct Request {
    pub method: Method,
    pub url: String,
    pub basic_auth: Option<Credentials>,
    pub headers: Vec<Pair>,
    pub form: Vec<Pair>,
}

/// The mathematical content of a [`Request`].
pub struct RequestView {
    pub method: Method,
    pub url: Seq<char>,
    pub basic_auth: Option<CredentialsView>,
    pub headers: Seq<(Seq<char>, Seq<char>)>,
    pub form: Seq<(Seq<char>, Seq<char>)>,
}

impl View for Request {
    type V = RequestView;

    open spec fn view(&self) -> RequestView {
        RequestView {
            method: self.method,
            url: self.url@,
            basic_auth: optional_credentials(self.basic_auth),
            headers: pair_views(self.headers@),
            form: pair_views(self.form@),
        }
    }
}

/// What came of one request, as the caller reports it.
#[derive(Debug, Clone, PartialEq, Eq)]
pub enum Outcome<T> {
    /// No response arrived; `cause` says why.
    Unreachable { cause: String },
    /// A response arrived with a status outside 200 to 299. `body` is its
    /// text, or `None` where the text could not be read.
    Rejected { status: Status, body: Option<String> },
    /// A response arrived with a status in 200 to 299, but its body is not
    /// what was expected; `cause` says why.
    Malformed { cause: String },
    /// A response arrived with a status in 200 to 299 and this content.
    Decoded { value: T },
}

/// The mathematical content of an [`Outcome`].
pub enum OutcomeView<V> {
    Unreachable { cause: Seq<char> },
    Rejected { status: u16, body: Option<Seq<char>> },
    Malformed { cause: Seq<char> },
    Decoded { value: V },
}

impl<T: View> View for Outcome<T> {
    type V = OutcomeView<T::V>;

    open spec fn view(&self) -> OutcomeView<T::V> {
        match *self {
            Outcome::Unreachable { cause } => OutcomeView::Unreachable { cause: cause@ },
            Outcome::Rejected { status, body } => OutcomeView::Rejected {
                status: status@,
                body: optional_text(body),
            },
            Outcome::Malformed { cause } => OutcomeView::Malformed { cause: cause@ },
            Outcome::Decoded { value } => OutcomeView::Decoded { value: value@ },
        }
    }
}

/// A pair made of two string slices.
pub fn pair(name: &str, value: &str) -> (p: Pair)
    ensures
        p@ == (name@, value@),
{
    Pair { name: String::from_str(name), value: String::from_str(value) }
}

} // verus!
