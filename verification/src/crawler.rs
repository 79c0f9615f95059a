//! The session with the enrollment portal: reading its pages and deciding
//! what to request next.

use vstd::prelude::*;
use vstd::string::StringExecFns;
use vstd::utf8::{decode_utf8, valid_utf8};
use crate::captcha::{
    operand, spec_recognize, CaptchaServiceError, CaptchaServiceErrorView, CaptchaSolver,
};
use crate::exchange::{
    pair, Action, ActionView, Expect, Failure, HttpRequest, HttpRequestView, Method, Payload,
    PayloadView, Progress, ProgressView, Reply, ReplyView, RETRY_DELAY_SECS, USER_AGENT,
};
use crate::pattern::{
    capture_groups, captured, captures, found_view, group, COUNT_PATTERN, MAGIC_PATTERN,
    NAME_PATTERN,
};
use crate::text::{contains, parse_i32, str_contains};

verus! {

/// The sentence with which the portal refuses a session it holds to be
/// misused. It is the portal's current wording; should the portal change
/// it, corruption goes unnoticed.
pub const CORRUPTION_MARKER: &'static str = "不合法執行選課系統";

/// Why an operation on the session ended without a result.
#[derive(Clone, Debug, PartialEq, Eq)]
pub enum NtnuCrawlerError {
    /// The portal declared the session invalid.
    BrokenStateMachine,
    /// A page did not hold what was to be read from it.
    ExtractionFailed,
    /// Every login attempt failed.
    LoginExhausted,
    /// The course query kept failing until the retry budget was spent.
    QueryExhausted(Failure),
    /// A request failed where no retry is made.
    Transport(Failure),
    /// The recognition service is out of order.
    Captcha(CaptchaServiceError),
    /// The seat count on the page is no number that fits 32 bits.
    BadCount,
    /// The driver's report does not answer the action that was handed out.
    UnexpectedReply,
}

/// [`NtnuCrawlerError`] over sequences.
pub enum NtnuCrawlerErrorView {
    BrokenStateMachine,
    ExtractionFailed,
    LoginExhausted,
    QueryExhausted(Failure),
    Transport(Failure),
    Captcha(CaptchaServiceErrorView),
    BadCount,
    UnexpectedReply,
}

impl View for NtnuCrawlerError {
    type V = NtnuCrawlerErrorView;

    open spec fn view(&self) -> NtnuCrawlerErrorView {
        match self {
            NtnuCrawlerError::BrokenStateMachine => NtnuCrawlerErrorView::BrokenStateMachine,
            NtnuCrawlerError::ExtractionFailed => NtnuCrawlerErrorView::ExtractionFailed,
            NtnuCrawlerError::LoginExhausted => NtnuCrawlerErrorView::LoginExhausted,
            NtnuCrawlerError::QueryExhausted(failure) => NtnuCrawlerErrorView::QueryExhausted(
                *failure,
            ),
            NtnuCrawlerError::Transport(failure) => NtnuCrawlerErrorView::Transport(*failure),
            NtnuCrawlerError::Captcha(error) => NtnuCrawlerErrorView::Captcha(error@),
            NtnuCrawlerError::BadCount => NtnuCrawlerErrorView::BadCount,
            NtnuCrawlerError::UnexpectedReply => NtnuCrawlerErrorView::UnexpectedReply,
        }
    }
}

/// The body shows that the portal has declared the session invalid.
pub open spec fn is_corrupted(body: Seq<char>) -> bool {
    contains(body, CORRUPTION_MARKER@)
}

impl NtnuCrawlerError {
    /// Looks for the corruption marker in a response body, whatever request
    /// the body answers.
    pub fn check_response(text: &str) -> (r: Result<(), NtnuCrawlerError>)
        ensures
            is_corrupted(text@) ==> r == Err::<(), NtnuCrawlerError>(
                NtnuCrawlerError::BrokenStateMachine,
            ),
            !is_corrupted(text@) ==> r is Ok,
    {
        if str_contains(text, CORRUPTION_MARKER) {
            return Err(NtnuCrawlerError::BrokenStateMachine);
        }
        Ok(())
    }
}

/// The sentence with which the portal accepts a login.
pub const LOGIN_ACCEPTED: &'static str = "success:true";

/// A text read from a page, or why it could not be read, over sequences.
pub open spec fn reading_view(r: Result<String, NtnuCrawlerError>) -> Result<
    Seq<char>,
    NtnuCrawlerErrorView,
> {
    match r {
        Ok(text) => Ok(text@),
        Err(error) => Err(error@),
    }
}

/// An outcome without text, over sequences.
pub open spec fn outcome_view<T>(r: Result<T, NtnuCrawlerError>) -> Result<
    T,
    NtnuCrawlerErrorView,
> {
    match r {
        Ok(value) => Ok(value),
        Err(error) => Err(error@),
    }
}

/// Group `index` of a search in a page; a page without it cannot be read.
pub open spec fn spec_extract(found: Option<Seq<Option<Seq<char>>>>, index: int) -> Result<
    Seq<char>,
    NtnuCrawlerErrorView,
> {
    match captured(found, index) {
        Some(text) => Ok(text),
        None => Err(NtnuCrawlerErrorView::ExtractionFailed),
    }
}

/// The login token of a login-check page.
pub open spec fn spec_login_magic(body: Seq<char>) -> Result<Seq<char>, NtnuCrawlerErrorView> {
    if is_corrupted(body) {
        Err(NtnuCrawlerErrorView::BrokenStateMachine)
    } else {
        spec_extract(capture_groups(MAGIC_PATTERN@, false, body), 1)
    }
}

/// The display name of an index page.
pub open spec fn spec_display_name(body: Seq<char>) -> Result<Seq<char>, NtnuCrawlerErrorView> {
    spec_extract(capture_groups(NAME_PATTERN@, true, body), 2)
}

/// The seat count that a run of digits writes.
pub open spec fn spec_count(digits: Result<Seq<char>, NtnuCrawlerErrorView>) -> Result<
    i32,
    NtnuCrawlerErrorView,
> {
    match digits {
        Ok(text) => match operand(text) {
            Some(n) => Ok(n as i32),
            None => Err(NtnuCrawlerErrorView::BadCount),
        },
        Err(error) => Err(error),
    }
}

/// The seat count of a non-empty answer to a course query.
pub open spec fn spec_seat_count(body: Seq<char>) -> Result<i32, NtnuCrawlerErrorView> {
    spec_count(spec_extract(capture_groups(COUNT_PATTERN@, false, body), 1))
}

/// The bytes are text and the text carries the corruption marker.
pub open spec fn image_corrupted(image: Seq<u8>) -> bool {
    valid_utf8(image) && is_corrupted(decode_utf8(image))
}

/// The recognition failed in a way that another image may mend.
pub open spec fn worth_another_image(error: CaptchaServiceErrorView) -> bool {
    error is NoneErr || error is InvalidErr || error is ParseIntErr
}

/// Calls `std::str::from_utf8`: the bytes as a string slice where they
/// are valid UTF-8, which is when the call succeeds, and nothing otherwise.
#[verifier::external_body]
fn as_text(bytes: &[u8]) -> (text: Option<&str>)
    ensures
        text is Some <==> valid_utf8(bytes@),
        text matches Some(t) ==> t@ == decode_utf8(bytes@),
{
    std::str::from_utf8(bytes).ok()
}

/// Group `index` of a search in a page, or the failure to read the page.
pub fn extract(found: &Option<Vec<Option<String>>>, index: usize) -> (r: Result<
    String,
    NtnuCrawlerError,
>)
    ensures
        reading_view(r) == spec_extract(found_view(*found), index as int),
{
    match found {
        Some(groups) => match group(groups, index) {
            Some(text) => Ok(text),
            None => Err(NtnuCrawlerError::ExtractionFailed),
        },
        None => Err(NtnuCrawlerError::ExtractionFailed),
    }
}

/// Reads a seat count from the digits found on a page.
pub fn count_from(digits: Result<String, NtnuCrawlerError>) -> (r: Result<i32, NtnuCrawlerError>)
    ensures
        outcome_view(r) == spec_count(reading_view(digits)),
{
    match digits {
        Ok(text) => match parse_i32(text.as_str()) {
            Some(n) => Ok(n),
            None => Err(NtnuCrawlerError::BadCount),
        },
        Err(error) => Err(error),
    }
}

/// Whether the recognition failed in a way that another image may mend.
pub fn is_worth_another_image(error: &CaptchaServiceError) -> (r: bool)
    ensures
        r == worth_another_image(error@),
{
    match error {
        CaptchaServiceError::NoneErr => true,
        CaptchaServiceError::InvalidErr => true,
        CaptchaServiceError::ParseIntErr(_) => true,
        _ => false,
    }
}

/// Where a login stands: which attempt it is, counted from 0, and which
/// answer it waits for.
#[derive(Debug, PartialEq, Eq)]
pub enum LoginState {
    /// The login-check page was asked for.
    Token { attempt: u32 },
    /// The CAPTCHA image was asked for.
    Image { attempt: u32, token: String },
    /// The image is with the recognition service.
    Answer { attempt: u32, token: String },
    /// The login form was sent.
    Verdict { attempt: u32 },
    /// The attempt failed and the cookie jar is being emptied.
    Cleared { attempt: u32 },
}

/// [`LoginState`] over sequences.
pub enum LoginStateView {
    Token { attempt: u32 },
    Image { attempt: u32, token: Seq<char> },
    Answer { attempt: u32, token: Seq<char> },
    Verdict { attempt: u32 },
    Cleared { attempt: u32 },
}

impl View for LoginState {
    type V = LoginStateView;

    open spec fn view(&self) -> LoginStateView {
        match self {
            LoginState::Token { attempt } => LoginStateView::Token { attempt: *attempt },
            LoginState::Image { attempt, token } => LoginStateView::Image {
                attempt: *attempt,
                token: token@,
            },
            LoginState::Answer { attempt, token } => LoginStateView::Answer {
                attempt: *attempt,
                token: token@,
            },
            LoginState::Verdict { attempt } => LoginStateView::Verdict { attempt: *attempt },
            LoginState::Cleared { attempt } => LoginStateView::Cleared { attempt: *attempt },
        }
    }
}

/// The number of the attempt that a login is in.
pub open spec fn attempt_of(state: LoginStateView) -> u32 {
    match state {
        LoginStateView::Token { attempt } => attempt,
        LoginStateView::Image { attempt, .. } => attempt,
        LoginStateView::Answer { attempt, .. } => attempt,
        LoginStateView::Verdict { attempt } => attempt,
        LoginStateView::Cleared { attempt } => attempt,
    }
}

/// How a login begins: with the fetch of a token, unless no attempt is
/// allowed at all.
pub open spec fn spec_login(captcha_retry: int) -> ProgressView<LoginStateView, ()> {
    if captcha_retry <= 0 {
        ProgressView::Finished(Err(NtnuCrawlerErrorView::LoginExhausted))
    } else {
        ProgressView::Continue(LoginStateView::Token { attempt: 0 }, ActionView::FetchToken)
    }
}

/// How a login goes on after the driver's report.
pub open spec fn spec_login_resume(
    captcha_retry: int,
    state: LoginStateView,
    reply: ReplyView,
) -> ProgressView<LoginStateView, ()> {
    match state {
        LoginStateView::Token { attempt } => match reply {
            ReplyView::Text(body) => match spec_login_magic(body) {
                Ok(token) => ProgressView::Continue(
                    LoginStateView::Image { attempt, token },
                    ActionView::FetchCaptcha,
                ),
                Err(error) => ProgressView::Finished(Err(error)),
            },
            ReplyView::Failed(failure) => ProgressView::Finished(
                Err(NtnuCrawlerErrorView::Transport(failure)),
            ),
            _ => ProgressView::Finished(Err(NtnuCrawlerErrorView::UnexpectedReply)),
        },
        LoginStateView::Image { attempt, token } => match reply {
            ReplyView::Bytes(image) => if image_corrupted(image) {
                ProgressView::Finished(Err(NtnuCrawlerErrorView::BrokenStateMachine))
            } else {
                ProgressView::Continue(
                    LoginStateView::Answer { attempt, token },
                    ActionView::Solve { image },
                )
            },
            ReplyView::Failed(failure) => ProgressView::Finished(
                Err(NtnuCrawlerErrorView::Transport(failure)),
            ),
            _ => ProgressView::Finished(Err(NtnuCrawlerErrorView::UnexpectedReply)),
        },
        LoginStateView::Answer { attempt, token } => match reply {
            ReplyView::Text(_) | ReplyView::Bytes(_) | ReplyView::Done => ProgressView::Finished(
                Err(NtnuCrawlerErrorView::UnexpectedReply),
            ),
            ReplyView::Solver { .. } | ReplyView::Failed(_) => match spec_recognize(reply) {
                Ok(answer) => ProgressView::Continue(
                    LoginStateView::Verdict { attempt },
                    ActionView::SubmitLogin { token, answer },
                ),
                Err(error) => if worth_another_image(error) {
                    ProgressView::Continue(
                        LoginStateView::Cleared { attempt },
                        ActionView::ClearCookies,
                    )
                } else {
                    ProgressView::Finished(Err(NtnuCrawlerErrorView::Captcha(error)))
                },
            },
        },
        LoginStateView::Verdict { attempt } => match reply {
            ReplyView::Text(body) => if is_corrupted(body) {
                ProgressView::Finished(Err(NtnuCrawlerErrorView::BrokenStateMachine))
            } else if contains(body, LOGIN_ACCEPTED@) {
                ProgressView::Finished(Ok(()))
            } else {
                ProgressView::Continue(
                    LoginStateView::Cleared { attempt },
                    ActionView::ClearCookies,
                )
            },
            ReplyView::Failed(failure) => ProgressView::Finished(
                Err(NtnuCrawlerErrorView::Transport(failure)),
            ),
            _ => ProgressView::Finished(Err(NtnuCrawlerErrorView::UnexpectedReply)),
        },
        LoginStateView::Cleared { attempt } => match reply {
            ReplyView::Done => if attempt + 1 < captcha_retry {
                ProgressView::Continue(
                    LoginStateView::Token { attempt: (attempt + 1) as u32 },
                    ActionView::FetchToken,
                )
            } else {
                ProgressView::Finished(Err(NtnuCrawlerErrorView::LoginExhausted))
            },
            ReplyView::Failed(failure) => ProgressView::Finished(
                Err(NtnuCrawlerErrorView::Transport(failure)),
            ),
            _ => ProgressView::Finished(Err(NtnuCrawlerErrorView::UnexpectedReply)),
        },
    }
}

/// Which of the four pages after a login was asked for.
#[derive(Clone, Copy, Debug, PartialEq, Eq, Structural)]
pub enum LandingState {
    /// The index page, which carries the display name.
    Name,
    /// The confirmation form was sent.
    Confirm,
    /// The enrollment entry page.
    Enroll,
    /// The course-query entry page.
    Query,
}

impl View for LandingState {
    type V = LandingState;

    open spec fn view(&self) -> LandingState {
        *self
    }
}

/// How the walk over the pages after a login begins.
pub open spec fn spec_landing_page() -> ProgressView<LandingState, ()> {
    ProgressView::Continue(LandingState::Name, ActionView::FetchName)
}

/// How the walk over the pages after a login goes on. Each of the four
/// answers is searched for the corruption marker before anything else.
pub open spec fn spec_landing_resume(state: LandingState, reply: ReplyView) -> ProgressView<
    LandingState,
    (),
> {
    match reply {
        ReplyView::Text(body) => if is_corrupted(body) {
            ProgressView::Finished(Err(NtnuCrawlerErrorView::BrokenStateMachine))
        } else {
            match state {
                LandingState::Name => match spec_display_name(body) {
                    Ok(name) => ProgressView::Continue(
                        LandingState::Confirm,
                        ActionView::Confirm { name },
                    ),
                    Err(error) => ProgressView::Finished(Err(error)),
                },
                LandingState::Confirm => ProgressView::Continue(
                    LandingState::Enroll,
                    ActionView::EnterEnroll,
                ),
                LandingState::Enroll => ProgressView::Continue(
                    LandingState::Query,
                    ActionView::EnterQuery,
                ),
                LandingState::Query => ProgressView::Finished(Ok(())),
            }
        },
        ReplyView::Failed(failure) => ProgressView::Finished(
            Err(NtnuCrawlerErrorView::Transport(failure)),
        ),
        _ => ProgressView::Finished(Err(NtnuCrawlerErrorView::UnexpectedReply)),
    }
}

/// Where a course query stands. `retries` counts the failed requests
/// that were followed by another try.
#[derive(Debug, PartialEq, Eq)]
pub enum QueryState {
    /// The query was sent.
    Posted { course: String, retries: u32 },
    /// The pause before the query is sent again.
    Paused { course: String, retries: u32 },
}

/// [`QueryState`] over sequences.
pub enum QueryStateView {
    Posted { course: Seq<char>, retries: u32 },
    Paused { course: Seq<char>, retries: u32 },
}

impl View for QueryState {
    type V = QueryStateView;

    open spec fn view(&self) -> QueryStateView {
        match self {
            QueryState::Posted { course, retries } => QueryStateView::Posted {
                course: course@,
                retries: *retries,
            },
            QueryState::Paused { course, retries } => QueryStateView::Paused {
                course: course@,
                retries: *retries,
            },
        }
    }
}

/// The course that a query asks about.
pub open spec fn course_of(state: QueryStateView) -> Seq<char> {
    match state {
        QueryStateView::Posted { course, .. } => course,
        QueryStateView::Paused { course, .. } => course,
    }
}

/// The failure is one of the connection or of the status: the kind that a
/// course query tries again.
pub open spec fn is_transient(failure: Failure) -> bool {
    failure is Connect || failure is Status
}

/// How a course query begins.
pub open spec fn spec_query(course: Seq<char>) -> ProgressView<QueryStateView, i32> {
    ProgressView::Continue(
        QueryStateView::Posted { course, retries: 0 },
        ActionView::QueryCourse { course },
    )
}

/// How a course query goes on after the driver's report.
///
/// An empty answer means that the portal is not ready: the query is sent
/// again after a pause, as often as it takes and without touching the
/// retry budget. A failed request is tried again after the same pause,
/// `max_retry` times at most.
pub open spec fn spec_query_resume(
    max_retry: int,
    state: QueryStateView,
    reply: ReplyView,
) -> ProgressView<QueryStateView, i32> {
    match state {
        QueryStateView::Posted { course, retries } => match reply {
            ReplyView::Text(body) => if is_corrupted(body) {
                ProgressView::Finished(Err(NtnuCrawlerErrorView::BrokenStateMachine))
            } else if body.len() == 0 {
                ProgressView::Continue(
                    QueryStateView::Paused { course, retries },
                    ActionView::Pause { seconds: RETRY_DELAY_SECS },
                )
            } else {
                ProgressView::Finished(spec_seat_count(body))
            },
            ReplyView::Failed(failure) => if !is_transient(failure) {
                ProgressView::Finished(Err(NtnuCrawlerErrorView::Transport(failure)))
            } else if retries < max_retry {
                ProgressView::Continue(
                    QueryStateView::Paused { course, retries: (retries + 1) as u32 },
                    ActionView::Pause { seconds: RETRY_DELAY_SECS },
                )
            } else {
                ProgressView::Finished(Err(NtnuCrawlerErrorView::QueryExhausted(failure)))
            },
            _ => ProgressView::Finished(Err(NtnuCrawlerErrorView::UnexpectedReply)),
        },
        QueryStateView::Paused { course, retries } => match reply {
            ReplyView::Done => ProgressView::Continue(
                QueryStateView::Posted { course, retries },
                ActionView::QueryCourse { course },
            ),
            ReplyView::Failed(failure) => ProgressView::Finished(
                Err(NtnuCrawlerErrorView::Transport(failure)),
            ),
            _ => ProgressView::Finished(Err(NtnuCrawlerErrorView::UnexpectedReply)),
        },
    }
}

/// Whether a course query tries again after this failure.
pub fn transient(failure: Failure) -> (r: bool)
    ensures
        r == is_transient(failure),
{
    match failure {
        Failure::Connect => true,
        Failure::Status(_) => true,
        Failure::Body => false,
    }
}

/// A request to the portal that sends no form.
pub open spec fn plain_get(
    root: Seq<char>,
    path: Seq<char>,
    query: Seq<(Seq<char>, Seq<char>)>,
    expect: Expect,
) -> HttpRequestView {
    HttpRequestView {
        method: Method::Get,
        url: root + path,
        user_agent: Some(USER_AGENT@),
        query,
        referer: None,
        payload: PayloadView::Empty,
        expect,
    }
}

/// A request that sends a form to the portal, with the portal's root as
/// the page it claims to come from.
pub open spec fn form_post(
    root: Seq<char>,
    path: Seq<char>,
    query: Seq<(Seq<char>, Seq<char>)>,
    form: Seq<(Seq<char>, Seq<char>)>,
) -> HttpRequestView {
    HttpRequestView {
        method: Method::Post,
        url: root + path,
        user_agent: Some(USER_AGENT@),
        query,
        referer: Some(root),
        payload: PayloadView::Form(form),
        expect: Expect::Text,
    }
}

/// The request that each action of the session stands for. The paths and
/// the names of the parameters are the portal's; it answers to no others.
/// The three actions that are no request to the portal have none.
pub open spec fn spec_request(
    root: Seq<char>,
    account: Seq<char>,
    password: Seq<char>,
    action: ActionView,
) -> Option<HttpRequestView> {
    match action {
        ActionView::FetchToken => Some(
            plain_get(root, "/AasEnrollStudent/LoginCheckCtrl"@, Seq::empty(), Expect::Text),
        ),
        ActionView::FetchCaptcha => Some(
            plain_get(root, "/AasEnrollStudent/RandImage"@, Seq::empty(), Expect::Bytes),
        ),
        ActionView::SubmitLogin { token, answer } => Some(
            form_post(
                root,
                "/AasEnrollStudent/LoginCheckCtrl"@,
                seq![("action"@, "login"@), ("id"@, token)],
                seq![
                    ("userid"@, account),
                    ("password"@, password),
                    ("checkTW"@, "1"@),
                    ("validateCode"@, answer),
                ],
            ),
        ),
        ActionView::FetchName => Some(
            plain_get(
                root,
                "/AasEnrollStudent/IndexCtrl"@,
                seq![("language"@, "TW"@)],
                Expect::Text,
            ),
        ),
        ActionView::Confirm { name } => Some(
            form_post(
                root,
                "/AasEnrollStudent/LoginCtrl"@,
                Seq::empty(),
                seq![("userid"@, account), ("stdName"@, name), ("checkTW"@, "1"@)],
            ),
        ),
        ActionView::EnterEnroll => Some(
            plain_get(
                root,
                "/AasEnrollStudent/EnrollCtrl"@,
                seq![("action"@, "go"@)],
                Expect::Text,
            ),
        ),
        ActionView::EnterQuery => Some(
            plain_get(
                root,
                "/AasEnrollStudent/CourseQueryCtrl"@,
                seq![("action"@, "query"@)],
                Expect::Text,
            ),
        ),
        ActionView::QueryCourse { course } => Some(
            form_post(
                root,
                "/AasEnrollStudent/CourseQueryCtrl"@,
                Seq::empty(),
                seq![
                    ("serialNo"@, course),
                    ("notFull"@, "1"@),
                    ("action"@, "showGrid"@),
                    ("actionButton"@, "query"@),
                ],
            ),
        ),
        ActionView::Solve { .. } => None,
        ActionView::ClearCookies => None,
        ActionView::Pause { .. } => None,
    }
}

/// One session with the portal: the account it logs in with, the
/// recognition service it asks, and its retry budgets. The cookie jar and
/// the connection belong to the driver.
pub struct NtnuCrawler {
    captcha_solver: CaptchaSolver,
    endpoint_root: String,
    account: String,
    password: String,
    max_retry: i32,
    captcha_retry: i32,
}

impl NtnuCrawler {
    /// Root address of the portal.
    pub closed spec fn root(&self) -> Seq<char> {
        self.endpoint_root@
    }

    /// Account that logs in.
    pub closed spec fn account(&self) -> Seq<char> {
        self.account@
    }

    /// Password of the account.
    pub closed spec fn password(&self) -> Seq<char> {
        self.password@
    }

    /// How often a failed course query is sent again.
    pub closed spec fn max_retry(&self) -> i32 {
        self.max_retry
    }

    /// How many login attempts are made.
    pub closed spec fn captcha_retry(&self) -> i32 {
        self.captcha_retry
    }

    /// Root address of the recognition service.
    pub closed spec fn solver_root(&self) -> Seq<char> {
        self.captcha_solver.root()
    }

    /// A session with the portal at `ntnu_endpoint_root`.
    pub fn new(
        ntnu_endpoint_root: String,
        captcha_endpoint_root: String,
        account: String,
        password: String,
        max_retries: i32,
        captcha_retries: i32,
    ) -> (crawler: Self)
        ensures
            crawler.root() == ntnu_endpoint_root@,
            crawler.solver_root() == captcha_endpoint_root@,
            crawler.account() == account@,
            crawler.password() == password@,
            crawler.max_retry() == max_retries,
            crawler.captcha_retry() == captcha_retries,
    {
        NtnuCrawler {
            captcha_solver: CaptchaSolver::new(captcha_endpoint_root),
            endpoint_root: ntnu_endpoint_root,
            account,
            password,
            max_retry: max_retries,
            captcha_retry: captcha_retries,
        }
    }

    /// The recognition service of this session.
    pub fn solver(&self) -> (solver: &CaptchaSolver)
        ensures
            solver.root() == self.solver_root(),
    {
        &self.captcha_solver
    }

    /// Reads the login token from the login-check page.
    pub fn login_magic(&self, text: &str) -> (r: Result<String, NtnuCrawlerError>)
        ensures
            reading_view(r) == spec_login_magic(text@),
    {
        match NtnuCrawlerError::check_response(text) {
            Err(error) => {
                return Err(error);
            },
            Ok(_) => {},
        }
        let found = captures(MAGIC_PATTERN, false, text);
        extract(&found, 1)
    }

    /// Looks at a CAPTCHA image before it goes to the recognition service:
    /// where the bytes are text, the text must not carry the corruption
    /// marker.
    pub fn captcha(&self, image: &[u8]) -> (r: Result<(), NtnuCrawlerError>)
        ensures
            image_corrupted(image@) ==> r == Err::<(), NtnuCrawlerError>(
                NtnuCrawlerError::BrokenStateMachine,
            ),
            !image_corrupted(image@) ==> r is Ok,
    {
        match as_text(image) {
            Some(text) => NtnuCrawlerError::check_response(text),
            None => Ok(()),
        }
    }

    /// Begins a login.
    pub fn login(&self) -> (p: Progress<LoginState, ()>)
        ensures
            p@ == spec_login(self.captcha_retry() as int),
    {
        if self.captcha_retry <= 0 {
            Progress::Finished(Err(NtnuCrawlerError::LoginExhausted))
        } else {
            Progress::Continue(LoginState::Token { attempt: 0 }, Action::FetchToken)
        }
    }

    /// Goes on with a login after the driver's report.
    pub fn login_resume(&self, state: LoginState, reply: Reply) -> (p: Progress<LoginState, ()>)
        ensures
            p@ == spec_login_resume(self.captcha_retry() as int, state@, reply@),
    {
        match state {
            LoginState::Token { attempt } => match reply {
                Reply::Text(body) => match self.login_magic(body.as_str()) {
                    Ok(token) => Progress::Continue(
                        LoginState::Image { attempt, token },
                        Action::FetchCaptcha,
                    ),
                    Err(error) => Progress::Finished(Err(error)),
                },
                Reply::Failed(failure) => Progress::Finished(
                    Err(NtnuCrawlerError::Transport(failure)),
                ),
                _ => Progress::Finished(Err(NtnuCrawlerError::UnexpectedReply)),
            },
            LoginState::Image { attempt, token } => match reply {
                Reply::Bytes(image) => match self.captcha(image.as_slice()) {
                    Err(error) => Progress::Finished(Err(error)),
                    Ok(_) => Progress::Continue(
                        LoginState::Answer { attempt, token },
                        Action::Solve { image },
                    ),
                },
                Reply::Failed(failure) => Progress::Finished(
                    Err(NtnuCrawlerError::Transport(failure)),
                ),
                _ => Progress::Finished(Err(NtnuCrawlerError::UnexpectedReply)),
            },
            LoginState::Answer { attempt, token } => match reply {
                Reply::Text(_) | Reply::Bytes(_) | Reply::Done => Progress::Finished(
                    Err(NtnuCrawlerError::UnexpectedReply),
                ),
                _ => match self.captcha_solver.recognize(reply) {
                    Ok(answer) => Progress::Continue(
                        LoginState::Verdict { attempt },
                        Action::SubmitLogin { token, answer },
                    ),
                    Err(error) => if is_worth_another_image(&error) {
                        Progress::Continue(LoginState::Cleared { attempt }, Action::ClearCookies)
                    } else {
                        Progress::Finished(Err(NtnuCrawlerError::Captcha(error)))
                    },
                },
            },
            LoginState::Verdict { attempt } => match reply {
                Reply::Text(body) => {
                    match NtnuCrawlerError::check_response(body.as_str()) {
                        Err(error) => {
                            return Progress::Finished(Err(error));
                        },
                        Ok(_) => {},
                    }
                    if str_contains(body.as_str(), LOGIN_ACCEPTED) {
                        Progress::Finished(Ok(()))
                    } else {
                        Progress::Continue(LoginState::Cleared { attempt }, Action::ClearCookies)
                    }
                },
                Reply::Failed(failure) => Progress::Finished(
                    Err(NtnuCrawlerError::Transport(failure)),
                ),
                _ => Progress::Finished(Err(NtnuCrawlerError::UnexpectedReply)),
            },
            LoginState::Cleared { attempt } => match reply {
                Reply::Done => if (attempt as i64) + 1 < self.captcha_retry as i64 {
                    Progress::Continue(
                        LoginState::Token { attempt: attempt + 1 },
                        Action::FetchToken,
                    )
                } else {
                    Progress::Finished(Err(NtnuCrawlerError::LoginExhausted))
                },
                Reply::Failed(failure) => Progress::Finished(
                    Err(NtnuCrawlerError::Transport(failure)),
                ),
                _ => Progress::Finished(Err(NtnuCrawlerError::UnexpectedReply)),
            },
        }
    }

    /// Reads the display name from the index page.
    pub fn display_name(&self, text: &str) -> (r: Result<String, NtnuCrawlerError>)
        ensures
            reading_view(r) == spec_display_name(text@),
    {
        let found = captures(NAME_PATTERN, true, text);
        extract(&found, 2)
    }

    /// Reads the seat count from a non-empty answer to a course query.
    pub fn seat_count(&self, text: &str) -> (r: Result<i32, NtnuCrawlerError>)
        ensures
            outcome_view(r) == spec_seat_count(text@),
    {
        let found = captures(COUNT_PATTERN, false, text);
        count_from(extract(&found, 1))
    }

    /// Begins the walk over the pages that follow a login.
    pub fn landing_page(&self) -> (p: Progress<LandingState, ()>)
        ensures
            p@ == spec_landing_page(),
    {
        Progress::Continue(LandingState::Name, Action::FetchName)
    }

    /// Goes on with the walk after the driver's report.
    pub fn landing_resume(&self, state: LandingState, reply: Reply) -> (p: Progress<
        LandingState,
        (),
    >)
        ensures
            p@ == spec_landing_resume(state, reply@),
    {
        match reply {
            Reply::Text(body) => {
                match NtnuCrawlerError::check_response(body.as_str()) {
                    Err(error) => {
                        return Progress::Finished(Err(error));
                    },
                    Ok(_) => {},
                }
                match state {
                    LandingState::Name => match self.display_name(body.as_str()) {
                        Ok(name) => Progress::Continue(
                            LandingState::Confirm,
                            Action::Confirm { name },
                        ),
                        Err(error) => Progress::Finished(Err(error)),
                    },
                    LandingState::Confirm => Progress::Continue(
                        LandingState::Enroll,
                        Action::EnterEnroll,
                    ),
                    LandingState::Enroll => Progress::Continue(
                        LandingState::Query,
                        Action::EnterQuery,
                    ),
                    LandingState::Query => Progress::Finished(Ok(())),
                }
            },
            Reply::Failed(failure) => Progress::Finished(Err(NtnuCrawlerError::Transport(failure))),
            _ => Progress::Finished(Err(NtnuCrawlerError::UnexpectedReply)),
        }
    }

    /// Begins a query for the free seats of a course.
    pub fn query(&self, id: &str) -> (p: Progress<QueryState, i32>)
        ensures
            p@ == spec_query(id@),
    {
        Progress::Continue(
            QueryState::Posted { course: id.to_owned(), retries: 0 },
            Action::QueryCourse { course: id.to_owned() },
        )
    }

    /// Goes on with a course query after the driver's report.
    pub fn query_resume(&self, state: QueryState, reply: Reply) -> (p: Progress<QueryState, i32>)
        ensures
            p@ == spec_query_resume(self.max_retry() as int, state@, reply@),
    {
        match state {
            QueryState::Posted { course, retries } => match reply {
                Reply::Text(body) => {
                    match NtnuCrawlerError::check_response(body.as_str()) {
                        Err(error) => {
                            return Progress::Finished(Err(error));
                        },
                        Ok(_) => {},
                    }
                    if body.as_str().is_empty() {
                        Progress::Continue(
                            QueryState::Paused { course, retries },
                            Action::Pause { seconds: RETRY_DELAY_SECS },
                        )
                    } else {
                        Progress::Finished(self.seat_count(body.as_str()))
                    }
                },
                Reply::Failed(failure) => if !transient(failure) {
                    Progress::Finished(Err(NtnuCrawlerError::Transport(failure)))
                } else if (retries as i64) < self.max_retry as i64 {
                    Progress::Continue(
                        QueryState::Paused { course, retries: retries + 1 },
                        Action::Pause { seconds: RETRY_DELAY_SECS },
                    )
                } else {
                    Progress::Finished(Err(NtnuCrawlerError::QueryExhausted(failure)))
                },
                _ => Progress::Finished(Err(NtnuCrawlerError::UnexpectedReply)),
            },
            QueryState::Paused { course, retries } => match reply {
                Reply::Done => {
                    let again = course.clone();
                    Progress::Continue(
                        QueryState::Posted { course, retries },
                        Action::QueryCourse { course: again },
                    )
                },
                Reply::Failed(failure) => Progress::Finished(
                    Err(NtnuCrawlerError::Transport(failure)),
                ),
                _ => Progress::Finished(Err(NtnuCrawlerError::UnexpectedReply)),
            },
        }
    }

    fn get(&self, path: &str, query: Vec<(String, String)>, expect: Expect) -> (request:
        HttpRequest)
        ensures
            request@ == plain_get(self.root(), path@, crate::exchange::pairs_view(query@), expect),
    {
        let mut url = self.endpoint_root.clone();
        url.append(path);
        HttpRequest {
            method: Method::Get,
            url,
            user_agent: Some(USER_AGENT.to_owned()),
            query,
            referer: None,
            payload: Payload::Empty,
            expect,
        }
    }

    fn post(
        &self,
        path: &str,
        query: Vec<(String, String)>,
        form: Vec<(String, String)>,
    ) -> (request: HttpRequest)
        ensures
            request@ == form_post(
                self.root(),
                path@,
                crate::exchange::pairs_view(query@),
                crate::exchange::pairs_view(form@),
            ),
    {
        let mut url = self.endpoint_root.clone();
        url.append(path);
        HttpRequest {
            method: Method::Post,
            url,
            user_agent: Some(USER_AGENT.to_owned()),
            query,
            referer: Some(self.endpoint_root.clone()),
            payload: Payload::Form(form),
            expect: Expect::Text,
        }
    }

    /// Spells out the request to the portal that `action` stands for;
    /// `None` for the three actions that are no such request.
    pub fn request_for(&self, action: &Action) -> (request: Option<HttpRequest>)
        ensures
            match spec_request(self.root(), self.account(), self.password(), action@) {
                Some(view) => request matches Some(r) && r@ == view,
                None => request is None,
            },
    {
        match action {
            Action::FetchToken => {
                let query: Vec<(String, String)> = Vec::new();
                proof {
                    assert(crate::exchange::pairs_view(query@) =~= Seq::empty());
                }
                Some(self.get("/AasEnrollStudent/LoginCheckCtrl", query, Expect::Text))
            },
            Action::FetchCaptcha => {
                let query: Vec<(String, String)> = Vec::new();
                proof {
                    assert(crate::exchange::pairs_view(query@) =~= Seq::empty());
                }
                Some(self.get("/AasEnrollStudent/RandImage", query, Expect::Bytes))
            },
            Action::SubmitLogin { token, answer } => {
                let mut query: Vec<(String, String)> = Vec::new();
                query.push(pair("action", "login"));
                query.push(pair("id", token.as_str()));
                let mut form: Vec<(String, String)> = Vec::new();
                form.push(pair("userid", self.account.as_str()));
                form.push(pair("password", self.password.as_str()));
                form.push(pair("checkTW", "1"));
                form.push(pair("validateCode", answer.as_str()));
                proof {
                    assert(crate::exchange::pairs_view(query@) =~= seq![
                        ("action"@, "login"@),
                        ("id"@, token@),
                    ]);
                    assert(crate::exchange::pairs_view(form@) =~= seq![
                        ("userid"@, self.account()),
                        ("password"@, self.password()),
                        ("checkTW"@, "1"@),
                        ("validateCode"@, answer@),
                    ]);
                }
                Some(self.post("/AasEnrollStudent/LoginCheckCtrl", query, form))
            },
            Action::FetchName => {
                let mut query: Vec<(String, String)> = Vec::new();
                query.push(pair("language", "TW"));
                proof {
                    assert(crate::exchange::pairs_view(query@) =~= seq![("language"@, "TW"@)]);
                }
                Some(self.get("/AasEnrollStudent/IndexCtrl", query, Expect::Text))
            },
            Action::Confirm { name } => {
                let query: Vec<(String, String)> = Vec::new();
                let mut form: Vec<(String, String)> = Vec::new();
                form.push(pair("userid", self.account.as_str()));
                form.push(pair("stdName", name.as_str()));
                form.push(pair("checkTW", "1"));
                proof {
                    assert(crate::exchange::pairs_view(query@) =~= Seq::empty());
                    assert(crate::exchange::pairs_view(form@) =~= seq![
                        ("userid"@, self.account()),
                        ("stdName"@, name@),
                        ("checkTW"@, "1"@),
                    ]);
                }
                Some(self.post("/AasEnrollStudent/LoginCtrl", query, form))
            },
            Action::EnterEnroll => {
                let mut query: Vec<(String, String)> = Vec::new();
                query.push(pair("action", "go"));
                proof {
                    assert(crate::exchange::pairs_view(query@) =~= seq![("action"@, "go"@)]);
                }
                Some(self.get("/AasEnrollStudent/EnrollCtrl", query, Expect::Text))
            },
            Action::EnterQuery => {
                let mut query: Vec<(String, String)> = Vec::new();
                query.push(pair("action", "query"));
                proof {
                    assert(crate::exchange::pairs_view(query@) =~= seq![("action"@, "query"@)]);
                }
                Some(self.get("/AasEnrollStudent/CourseQueryCtrl", query, Expect::Text))
            },
            Action::QueryCourse { course } => {
                let query: Vec<(String, String)> = Vec::new();
                let mut form: Vec<(String, String)> = Vec::new();
                form.push(pair("serialNo", course.as_str()));
                form.push(pair("notFull", "1"));
                form.push(pair("action", "showGrid"));
                form.push(pair("actionButton", "query"));
                proof {
                    assert(crate::exchange::pairs_view(query@) =~= Seq::empty());
                    assert(crate::exchange::pairs_view(form@) =~= seq![
                        ("serialNo"@, course@),
                        ("notFull"@, "1"@),
                        ("action"@, "showGrid"@),
                        ("actionButton"@, "query"@),
                    ]);
                }
                Some(self.post("/AasEnrollStudent/CourseQueryCtrl", query, form))
            },
            Action::Solve { .. } => None,
            Action::ClearCookies => None,
            Action::Pause { .. } => None,
        }
    }
}

/// Every login attempt fetches a token of its own. The token that the login
/// form carries is the one that the state held, and a state comes to hold
/// a token only by reading it from the page that this attempt fetched; a
/// new attempt begins with the fetch of a new page.
pub proof fn lemma_token_is_fresh(captcha_retry: int, state: LoginStateView, reply: ReplyView)
    ensures
        match spec_login_resume(captcha_retry, state, reply) {
            ProgressView::Continue(next, action) => {
                &&& action matches ActionView::SubmitLogin { token, .. } ==> (state
                    matches LoginStateView::Answer { token: held, .. } && held == token)
                &&& next matches LoginStateView::Answer { token, .. } ==> (state
                    matches LoginStateView::Image { token: held, .. } && held == token)
                &&& next matches LoginStateView::Image { token, .. } ==> (state is Token && (reply
                    matches ReplyView::Text(body) && spec_login_magic(body) == Ok::<
                    Seq<char>,
                    NtnuCrawlerErrorView,
                >(token)))
                &&& attempt_of(next) != attempt_of(state) ==> next == (LoginStateView::Token {
                    attempt: (attempt_of(state) + 1) as u32,
                }) && action == ActionView::FetchToken
            },
            ProgressView::Finished(_) => true,
        },
{
}

/// A failed attempt empties the cookie jar before the next begins: the
/// fetch of a token is asked for only at the start and once the jar was
/// reported empty, and the jar is asked to be emptied exactly after a
/// recognition that is worth another image or a login that the portal did
/// not accept.
pub proof fn lemma_retry_clears_cookies(
    captcha_retry: int,
    state: LoginStateView,
    reply: ReplyView,
)
    ensures
        match spec_login_resume(captcha_retry, state, reply) {
            ProgressView::Continue(next, action) => {
                &&& action is FetchToken ==> state is Cleared && reply is Done
                &&& action is ClearCookies <==> next is Cleared
                &&& next is Cleared ==> attempt_of(next) == attempt_of(state) && (state is Answer
                    || state is Verdict)
            },
            ProgressView::Finished(_) => true,
        },
{
}

/// A login makes `captcha_retry` attempts at most: the attempt that a
/// login goes on with is below the budget whenever the one it came from
/// was.
pub proof fn lemma_attempts_are_bounded(
    captcha_retry: int,
    state: LoginStateView,
    reply: ReplyView,
)
    requires
        attempt_of(state) < captcha_retry <= i32::MAX,
    ensures
        spec_login_resume(captcha_retry, state, reply) matches ProgressView::Continue(next, _)
            ==> (attempt_of(state) <= attempt_of(next) < captcha_retry),
{
}

/// An empty answer to a course query costs nothing of the retry budget,
/// and a failed request costs one try of it.
pub proof fn lemma_empty_answer_is_free(max_retry: int, state: QueryStateView, reply: ReplyView)
    requires
        max_retry <= i32::MAX,
        state matches QueryStateView::Posted { retries, .. } && retries <= max_retry,
    ensures
        spec_query_resume(max_retry, state, reply) matches ProgressView::Continue(next, action)
            ==> action == (ActionView::Pause { seconds: 5 }) && course_of(next) == course_of(
            state,
        ) && (match (
            state,
            next,
            reply,
        ) {
            (
                QueryStateView::Posted { retries: before, .. },
                QueryStateView::Paused { retries: after, .. },
                ReplyView::Text(_),
            ) => after == before,
            (
                QueryStateView::Posted { retries: before, .. },
                QueryStateView::Paused { retries: after, .. },
                ReplyView::Failed(_),
            ) => after == before + 1 && after <= max_retry,
            _ => false,
        }),
{
}

/// The corruption marker is authoritative: whichever page of the portal
/// carries it, the operation that asked for the page ends at once, and it
/// ends with the corruption error.
pub proof fn lemma_corruption_ends_the_operation(
    captcha_retry: int,
    max_retry: int,
    login: LoginStateView,
    landing: LandingState,
    query: QueryStateView,
    body: Seq<char>,
)
    requires
        is_corrupted(body),
    ensures
        login is Token || login is Verdict ==> spec_login_resume(
            captcha_retry,
            login,
            ReplyView::Text(body),
        ) == ProgressView::<LoginStateView, ()>::Finished(
            Err(NtnuCrawlerErrorView::BrokenStateMachine),
        ),
        spec_landing_resume(landing, ReplyView::Text(body)) == ProgressView::<
            LandingState,
            (),
        >::Finished(Err(NtnuCrawlerErrorView::BrokenStateMachine)),
        query is Posted ==> spec_query_resume(max_retry, query, ReplyView::Text(body))
            == ProgressView::<QueryStateView, i32>::Finished(
            Err(NtnuCrawlerErrorView::BrokenStateMachine),
        ),
{
}

} // verus!
