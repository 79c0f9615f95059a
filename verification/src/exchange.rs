//! What the crawler asks its driver to do, and what the driver reports back.
//!
//! The crawler never touches the network. Each operation is a small state
//! machine: it hands out an [`Action`], the driver performs it and answers
//! with a [`Reply`], and the machine says what comes next.

use vstd::prelude::*;
use crate::crawler::{NtnuCrawlerError, NtnuCrawlerErrorView};

verus! {

/// Seconds to wait before a course query is sent again.
pub const RETRY_DELAY_SECS: u64 = 5;

/// The `User-Agent` that every request to the portal carries.
pub const USER_AGENT: &'static str =
    "Mozilla/5.0 (Macintosh; Intel Mac OS X 10_15_7) AppleWebKit/605.1.15 (KHTML, like Gecko) Version/17.4 Safari/605.1.15";

/// How a request failed before its body could be used.
#[derive(Clone, Copy, Debug, PartialEq, Eq, Structural)]
pub enum Failure {
    /// The request could not be sent or no answer arrived.
    Connect,
    /// The server answered with this error status.
    Status(u16),
    /// The answer arrived but its body could not be read.
    Body,
}

/// One thing for the driver to do on behalf of the session.
#[derive(Clone, Debug, PartialEq, Eq)]
pub enum Action {
    /// GET the login-check page, which carries the login token.
    FetchToken,
    /// GET the CAPTCHA image.
    FetchCaptcha,
    /// Send the image to the recognition service.
    Solve { image: Vec<u8> },
    /// POST the login form.
    SubmitLogin { token: String, answer: String },
    /// GET the index page, which carries the display name.
    FetchName,
    /// POST the confirmation form.
    Confirm { name: String },
    /// GET the enrollment entry page.
    EnterEnroll,
    /// GET the course-query entry page.
    EnterQuery,
    /// POST the course query.
    QueryCourse { course: String },
    /// Empty the session's cookie jar.
    ClearCookies,
    /// Wait so many seconds.
    Pause { seconds: u64 },
}

/// [`Action`] over sequences.
pub enum ActionView {
    FetchToken,
    FetchCaptcha,
    Solve { image: Seq<u8> },
    SubmitLogin { token: Seq<char>, answer: Seq<char> },
    FetchName,
    Confirm { name: Seq<char> },
    EnterEnroll,
    EnterQuery,
    QueryCourse { course: Seq<char> },
    ClearCookies,
    Pause { seconds: u64 },
}

impl View for Action {
    type V = ActionView;

    open spec fn view(&self) -> ActionView {
        match self {
            Action::FetchToken => ActionView::FetchToken,
            Action::FetchCaptcha => ActionView::FetchCaptcha,
            Action::Solve { image } => ActionView::Solve { image: image@ },
            Action::SubmitLogin { token, answer } => ActionView::SubmitLogin {
                token: token@,
                answer: answer@,
            },
            Action::FetchName => ActionView::FetchName,
            Action::Confirm { name } => ActionView::Confirm { name: name@ },
            Action::EnterEnroll => ActionView::EnterEnroll,
            Action::EnterQuery => ActionView::EnterQuery,
            Action::QueryCourse { course } => ActionView::QueryCourse { course: course@ },
            Action::ClearCookies => ActionView::ClearCookies,
            Action::Pause { seconds } => ActionView::Pause { seconds: *seconds },
        }
    }
}

/// What the driver reports after an [`Action`].
#[derive(Clone, Debug, PartialEq, Eq)]
pub enum Reply {
    /// A successful response, its body read as text.
    Text(String),
    /// A successful response, its body as it came.
    Bytes(Vec<u8>),
    /// The recognition service answered with this status; `answers` holds
    /// the candidates where its body could be read as a list of candidates.
    Solver { status: u16, answers: Option<Vec<String>> },
    /// The request failed.
    Failed(Failure),
    /// The cookie jar is empty, or the pause is over.
    Done,
}

/// [`Reply`] over sequences.
pub enum ReplyView {
    Text(Seq<char>),
    Bytes(Seq<u8>),
    Solver { status: u16, answers: Option<Seq<Seq<char>>> },
    Failed(Failure),
    Done,
}

impl View for Reply {
    type V = ReplyView;

    open spec fn view(&self) -> ReplyView {
        match self {
            Reply::Text(body) => ReplyView::Text(body@),
            Reply::Bytes(body) => ReplyView::Bytes(body@),
            Reply::Solver { status, answers } => ReplyView::Solver {
                status: *status,
                answers: match answers {
                    Some(list) => Some(crate::text::views(list@)),
                    None => None,
                },
            },
            Reply::Failed(failure) => ReplyView::Failed(*failure),
            Reply::Done => ReplyView::Done,
        }
    }
}

/// Where an operation stands after a step: it either goes on from `state`
/// with one more `Action`, or it is over.
#[derive(Debug, PartialEq, Eq)]
pub enum Progress<S, T> {
    Continue(S, Action),
    Finished(Result<T, NtnuCrawlerError>),
}

/// [`Progress`] over sequences.
pub enum ProgressView<S, T> {
    Continue(S, ActionView),
    Finished(Result<T, NtnuCrawlerErrorView>),
}

impl<S: View, T> View for Progress<S, T> {
    type V = ProgressView<S::V, T>;

    open spec fn view(&self) -> ProgressView<S::V, T> {
        match self {
            Progress::Continue(state, action) => ProgressView::Continue(state@, action@),
            Progress::Finished(Ok(value)) => ProgressView::Finished(Ok(*value)),
            Progress::Finished(Err(error)) => ProgressView::Finished(Err(error@)),
        }
    }
}

/// The two request methods the portal and the recognition service are
/// spoken to with.
#[derive(Clone, Copy, Debug, PartialEq, Eq, Structural)]
pub enum Method {
    Get,
    Post,
}

/// How the driver reads the body of a successful response, and so which
/// [`Reply`] it answers with.
#[derive(Clone, Copy, Debug, PartialEq, Eq, Structural)]
pub enum Expect {
    /// As text: [`Reply::Text`].
    Text,
    /// As it comes: [`Reply::Bytes`].
    Bytes,
    /// As the JSON object `{ "response": [string, ...] }`, whatever the
    /// status: [`Reply::Solver`].
    Answers,
}

/// What a request carries in its body.
#[derive(Clone, Debug, PartialEq, Eq)]
pub enum Payload {
    /// Nothing.
    Empty,
    /// A URL-encoded form with these fields, in order.
    Form(Vec<(String, String)>),
    /// These bytes as they are, declared as `content_type`.
    Raw { content_type: String, bytes: Vec<u8> },
}

/// [`Payload`] over sequences.
pub enum PayloadView {
    Empty,
    Form(Seq<(Seq<char>, Seq<char>)>),
    Raw { content_type: Seq<char>, bytes: Seq<u8> },
}

impl View for Payload {
    type V = PayloadView;

    open spec fn view(&self) -> PayloadView {
        match self {
            Payload::Empty => PayloadView::Empty,
            Payload::Form(fields) => PayloadView::Form(pairs_view(fields@)),
            Payload::Raw { content_type, bytes } => PayloadView::Raw {
                content_type: content_type@,
                bytes: bytes@,
            },
        }
    }
}

/// One HTTP request, spelled out for the driver.
#[derive(Clone, Debug, PartialEq, Eq)]
pub struct HttpRequest {
    pub method: Method,
    pub url: String,
    /// Value of the `User-Agent` header, if one is set.
    pub user_agent: Option<String>,
    /// Parameters of the query string, in order.
    pub query: Vec<(String, String)>,
    /// Value of the `Referer` header, if one is sent.
    pub referer: Option<String>,
    pub payload: Payload,
    pub expect: Expect,
}

/// [`HttpRequest`] over sequences.
pub struct HttpRequestView {
    pub method: Method,
    pub url: Seq<char>,
    pub user_agent: Option<Seq<char>>,
    pub query: Seq<(Seq<char>, Seq<char>)>,
    pub referer: Option<Seq<char>>,
    pub payload: PayloadView,
    pub expect: Expect,
}

/// Name-value pairs as sequences of characters.
pub open spec fn pairs_view(pairs: Seq<(String, String)>) -> Seq<(Seq<char>, Seq<char>)> {
    Seq::new(pairs.len(), |i: int| (pairs[i].0@, pairs[i].1@))
}

/// An optional text as a sequence of characters.
pub open spec fn text_view(text: Option<String>) -> Option<Seq<char>> {
    match text {
        Some(t) => Some(t@),
        None => None,
    }
}

impl View for HttpRequest {
    type V = HttpRequestView;

    open spec fn view(&self) -> HttpRequestView {
        HttpRequestView {
            method: self.method,
            url: self.url@,
            user_agent: text_view(self.user_agent),
            query: pairs_view(self.query@),
            referer: text_view(self.referer),
            payload: self.payload@,
            expect: self.expect,
        }
    }
}

/// A name-value pair of owned strings.
pub(crate) fn pair(name: &str, value: &str) -> (p: (String, String))
    ensures
        p.0@ == name@,
        p.1@ == value@,
{
    (name.to_owned(), value.to_owned())
}

} // verus!
