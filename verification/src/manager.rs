//! Recovery from a corrupted session: the one place where "the portal has
//! invalidated the session" becomes a bounded number of fresh starts.

use vstd::prelude::*;
use vstd::string::StringExecFns;
use crate::config::Config;
use crate::crawler::{
    course_of, spec_landing_page, spec_landing_resume, spec_login, spec_login_resume, spec_query,
    spec_query_resume, LandingState, LoginState, LoginStateView, NtnuCrawler, NtnuCrawlerError,
    NtnuCrawlerErrorView, QueryState, QueryStateView,
};
use crate::exchange::{Action, ActionView, Progress, ProgressView, Reply, ReplyView};
use crate::text::{decimal, decimal_string};

verus! {

/// The answer to "is a seat free": yes unless the count is zero.
#[derive(Clone, Copy, Debug, PartialEq, Eq, Structural)]
pub struct SeatQueryResult {
    pub available: bool,
}

impl SeatQueryResult {
    /// The answer that a seat count gives.
    pub fn new(seat_count: i32) -> (result: Self)
        ensures
            result.available == (seat_count != 0),
    {
        SeatQueryResult { available: seat_count != 0 }
    }
}

/// Where a fresh start of the session stands.
#[derive(Debug, PartialEq, Eq)]
pub enum InitState {
    /// The cookie jar is being emptied.
    Clearing,
    /// The login is under way.
    Login(LoginState),
    /// The pages after the login are being walked.
    Landing(LandingState),
}

/// [`InitState`] over sequences.
pub enum InitStateView {
    Clearing,
    Login(LoginStateView),
    Landing(LandingState),
}

impl View for InitState {
    type V = InitStateView;

    open spec fn view(&self) -> InitStateView {
        match self {
            InitState::Clearing => InitStateView::Clearing,
            InitState::Login(login) => InitStateView::Login(login@),
            InitState::Landing(landing) => InitStateView::Landing(*landing),
        }
    }
}

/// Where a query through the manager stands. `retries` counts the fresh
/// starts that were followed by another query.
#[derive(Debug, PartialEq, Eq)]
pub enum ManagedQuery {
    /// The session is asked for the seats of the course.
    Asking { retries: u32, query: QueryState },
    /// The session was found corrupted and is being started afresh.
    Recovering { retries: u32, course: String, init: InitState },
}

/// [`ManagedQuery`] over sequences.
pub enum ManagedQueryView {
    Asking { retries: u32, query: QueryStateView },
    Recovering { retries: u32, course: Seq<char>, init: InitStateView },
}

impl View for ManagedQuery {
    type V = ManagedQueryView;

    open spec fn view(&self) -> ManagedQueryView {
        match self {
            ManagedQuery::Asking { retries, query } => ManagedQueryView::Asking {
                retries: *retries,
                query: query@,
            },
            ManagedQuery::Recovering { retries, course, init } => ManagedQueryView::Recovering {
                retries: *retries,
                course: course@,
                init: init@,
            },
        }
    }
}

/// What the manager does once the session has answered a query.
pub enum AfterQuery {
    /// Hand this to the caller.
    Report(Result<bool, NtnuCrawlerErrorView>),
    /// Start the session afresh.
    Recover,
}

/// What the manager does once a fresh start has ended.
pub enum AfterInit {
    /// Hand this to the caller.
    Report(Result<bool, NtnuCrawlerErrorView>),
    /// Ask again.
    Retry,
}

/// A seat count is reported as "free or not"; corruption calls for a fresh
/// start; every other failure goes to the caller as it is.
pub open spec fn after_query(outcome: Result<i32, NtnuCrawlerErrorView>) -> AfterQuery {
    match outcome {
        Ok(seat_count) => AfterQuery::Report(Ok(seat_count != 0)),
        Err(NtnuCrawlerErrorView::BrokenStateMachine) => AfterQuery::Recover,
        Err(error) => AfterQuery::Report(Err(error)),
    }
}

/// A failed fresh start goes to the caller as it is. After a successful
/// one the query is sent again, unless `retries` queries were already
/// repeated and `retries` exceeds the budget: then the corruption is
/// reported.
pub open spec fn after_init(
    max_retries: int,
    retries: int,
    outcome: Result<(), NtnuCrawlerErrorView>,
) -> AfterInit {
    match outcome {
        Err(error) => AfterInit::Report(Err(error)),
        Ok(_) => if retries > max_retries {
            AfterInit::Report(Err(NtnuCrawlerErrorView::BrokenStateMachine))
        } else {
            AfterInit::Retry
        },
    }
}

/// The walk over the pages after a login, as part of a fresh start.
pub open spec fn lift_landing(p: ProgressView<LandingState, ()>) -> ProgressView<
    InitStateView,
    (),
> {
    match p {
        ProgressView::Continue(state, action) => ProgressView::Continue(
            InitStateView::Landing(state),
            action,
        ),
        ProgressView::Finished(outcome) => ProgressView::Finished(outcome),
    }
}

/// A login as part of a fresh start: once it has succeeded the walk over
/// the pages begins.
pub open spec fn lift_login(p: ProgressView<LoginStateView, ()>) -> ProgressView<
    InitStateView,
    (),
> {
    match p {
        ProgressView::Continue(state, action) => ProgressView::Continue(
            InitStateView::Login(state),
            action,
        ),
        ProgressView::Finished(Ok(_)) => lift_landing(spec_landing_page()),
        ProgressView::Finished(Err(error)) => ProgressView::Finished(Err(error)),
    }
}

/// How a fresh start begins: with an empty cookie jar.
pub open spec fn spec_init() -> ProgressView<InitStateView, ()> {
    ProgressView::Continue(InitStateView::Clearing, ActionView::ClearCookies)
}

/// How a fresh start goes on: empty the jar, log in, walk the pages; the
/// first failure ends it.
pub open spec fn spec_init_resume(
    captcha_retry: int,
    state: InitStateView,
    reply: ReplyView,
) -> ProgressView<InitStateView, ()> {
    match state {
        InitStateView::Clearing => match reply {
            ReplyView::Done => lift_login(spec_login(captcha_retry)),
            ReplyView::Failed(failure) => ProgressView::Finished(
                Err(NtnuCrawlerErrorView::Transport(failure)),
            ),
            _ => ProgressView::Finished(Err(NtnuCrawlerErrorView::UnexpectedReply)),
        },
        InitStateView::Login(login) => lift_login(spec_login_resume(captcha_retry, login, reply)),
        InitStateView::Landing(landing) => lift_landing(spec_landing_resume(landing, reply)),
    }
}

/// A fresh start as part of a managed query: once it has ended, `after_init`
/// decides.
pub open spec fn lift_init(
    max_retries: int,
    retries: u32,
    course: Seq<char>,
    p: ProgressView<InitStateView, ()>,
) -> ProgressView<ManagedQueryView, bool> {
    match p {
        ProgressView::Continue(init, action) => ProgressView::Continue(
            ManagedQueryView::Recovering { retries, course, init },
            action,
        ),
        ProgressView::Finished(outcome) => match after_init(max_retries, retries as int, outcome) {
            AfterInit::Report(result) => ProgressView::Finished(result),
            AfterInit::Retry => ProgressView::Continue(
                ManagedQueryView::Asking {
                    retries: (retries + 1) as u32,
                    query: QueryStateView::Posted { course, retries: 0 },
                },
                ActionView::QueryCourse { course },
            ),
        },
    }
}

/// A query of the session as part of a managed query: once it has ended,
/// `after_query` decides.
pub open spec fn lift_query(
    max_retries: int,
    retries: u32,
    course: Seq<char>,
    p: ProgressView<QueryStateView, i32>,
) -> ProgressView<ManagedQueryView, bool> {
    match p {
        ProgressView::Continue(query, action) => ProgressView::Continue(
            ManagedQueryView::Asking { retries, query },
            action,
        ),
        ProgressView::Finished(outcome) => match after_query(outcome) {
            AfterQuery::Report(result) => ProgressView::Finished(result),
            AfterQuery::Recover => lift_init(max_retries, retries, course, spec_init()),
        },
    }
}

/// How a managed query begins.
pub open spec fn spec_managed_query(course: Seq<char>) -> ProgressView<ManagedQueryView, bool> {
    ProgressView::Continue(
        ManagedQueryView::Asking {
            retries: 0,
            query: QueryStateView::Posted { course, retries: 0 },
        },
        ActionView::QueryCourse { course },
    )
}

/// How a managed query goes on after the driver's report.
pub open spec fn spec_managed_resume(
    max_retries: int,
    captcha_retry: int,
    state: ManagedQueryView,
    reply: ReplyView,
) -> ProgressView<ManagedQueryView, bool> {
    match state {
        ManagedQueryView::Asking { retries, query } => lift_query(
            max_retries,
            retries,
            course_of(query),
            spec_query_resume(max_retries, query, reply),
        ),
        ManagedQueryView::Recovering { retries, course, init } => lift_init(
            max_retries,
            retries,
            course,
            spec_init_resume(captcha_retry, init, reply),
        ),
    }
}

/// The root address of the portal's site number `subsite`.
pub open spec fn site_root(subsite: i32) -> Seq<char> {
    "https://cos"@ + decimal(subsite as int) + "s.ntnu.edu.tw"@
}

/// One session with the portal and the policy that keeps it usable.
pub struct NtnuCrawlerManager {
    crawler: NtnuCrawler,
    max_retries: i32,
}

impl NtnuCrawlerManager {
    /// The session that the manager keeps.
    pub closed spec fn session(&self) -> NtnuCrawler {
        self.crawler
    }

    /// How often a query is repeated after a fresh start.
    pub closed spec fn max_retries(&self) -> i32 {
        self.max_retries
    }

    /// The budgets of the session and of the manager are the same.
    #[verifier::type_invariant]
    closed spec fn wf(&self) -> bool {
        self.crawler.max_retry() == self.max_retries
    }

    /// A manager for the portal's site number `subsite`, with the account
    /// and the budgets of `config`.
    pub fn new(config: &Config, subsite: i32) -> (manager: Self)
        ensures
            manager.max_retries() == config.api_retry,
            manager.session().root() == site_root(subsite),
            manager.session().solver_root() == config.captcha_service_uri@,
            manager.session().account() == config.ntnu_account@,
            manager.session().password() == config.ntnu_password@,
            manager.session().max_retry() == config.api_retry,
            manager.session().captcha_retry() == config.captcha_retry,
    {
        let mut root = String::from_str("https://cos");
        root.append(decimal_string(subsite as i64).as_str());
        root.append("s.ntnu.edu.tw");
        let crawler = NtnuCrawler::new(
            root,
            config.captcha_service_uri.clone(),
            config.ntnu_account.clone(),
            config.ntnu_password.clone(),
            config.api_retry,
            config.captcha_retry,
        );
        NtnuCrawlerManager { crawler, max_retries: config.api_retry }
    }

    /// The session, for spelling out its requests.
    pub fn crawler(&self) -> (crawler: &NtnuCrawler)
        ensures
            *crawler == self.session(),
    {
        &self.crawler
    }

    /// Begins a fresh start of the session.
    pub fn init(&self) -> (p: Progress<InitState, ()>)
        ensures
            p@ == spec_init(),
    {
        Progress::Continue(InitState::Clearing, Action::ClearCookies)
    }

    fn enter_landing(&self, p: Progress<LandingState, ()>) -> (lifted: Progress<InitState, ()>)
        ensures
            lifted@ == lift_landing(p@),
    {
        match p {
            Progress::Continue(state, action) => Progress::Continue(
                InitState::Landing(state),
                action,
            ),
            Progress::Finished(outcome) => Progress::Finished(outcome),
        }
    }

    fn enter_login(&self, p: Progress<LoginState, ()>) -> (lifted: Progress<InitState, ()>)
        ensures
            lifted@ == lift_login(p@),
    {
        match p {
            Progress::Continue(state, action) => Progress::Continue(
                InitState::Login(state),
                action,
            ),
            Progress::Finished(Ok(_)) => self.enter_landing(self.crawler.landing_page()),
            Progress::Finished(Err(error)) => Progress::Finished(Err(error)),
        }
    }

    /// Goes on with a fresh start after the driver's report.
    pub fn init_resume(&self, state: InitState, reply: Reply) -> (p: Progress<InitState, ()>)
        ensures
            p@ == spec_init_resume(self.session().captcha_retry() as int, state@, reply@),
    {
        match state {
            InitState::Clearing => match reply {
                Reply::Done => self.enter_login(self.crawler.login()),
                Reply::Failed(failure) => Progress::Finished(
                    Err(NtnuCrawlerError::Transport(failure)),
                ),
                _ => Progress::Finished(Err(NtnuCrawlerError::UnexpectedReply)),
            },
            InitState::Login(login) => self.enter_login(self.crawler.login_resume(login, reply)),
            InitState::Landing(landing) => self.enter_landing(
                self.crawler.landing_resume(landing, reply),
            ),
        }
    }

    fn enter_init(&self, retries: u32, course: String, p: Progress<InitState, ()>) -> (lifted:
        Progress<ManagedQuery, bool>)
        ensures
            lifted@ == lift_init(self.max_retries() as int, retries, course@, p@),
    {
        match p {
            Progress::Continue(init, action) => Progress::Continue(
                ManagedQuery::Recovering { retries, course, init },
                action,
            ),
            Progress::Finished(Err(error)) => Progress::Finished(Err(error)),
            Progress::Finished(Ok(_)) => if retries as i64 > self.max_retries as i64 {
                Progress::Finished(Err(NtnuCrawlerError::BrokenStateMachine))
            } else {
                let again = course.clone();
                Progress::Continue(
                    ManagedQuery::Asking {
                        retries: retries + 1,
                        query: QueryState::Posted { course, retries: 0 },
                    },
                    Action::QueryCourse { course: again },
                )
            },
        }
    }

    fn enter_query(&self, retries: u32, course: String, p: Progress<QueryState, i32>) -> (lifted:
        Progress<ManagedQuery, bool>)
        ensures
            lifted@ == lift_query(self.max_retries() as int, retries, course@, p@),
    {
        match p {
            Progress::Continue(query, action) => Progress::Continue(
                ManagedQuery::Asking { retries, query },
                action,
            ),
            Progress::Finished(Ok(seat_count)) => Progress::Finished(
                Ok(SeatQueryResult::new(seat_count).available),
            ),
            Progress::Finished(Err(NtnuCrawlerError::BrokenStateMachine)) => self.enter_init(
                retries,
                course,
                self.init(),
            ),
            Progress::Finished(Err(error)) => Progress::Finished(Err(error)),
        }
    }

    /// Begins a query for the free seats of a course.
    pub fn query(&self, course_id: &str) -> (p: Progress<ManagedQuery, bool>)
        ensures
            p@ == spec_managed_query(course_id@),
    {
        Progress::Continue(
            ManagedQuery::Asking {
                retries: 0,
                query: QueryState::Posted { course: course_id.to_owned(), retries: 0 },
            },
            Action::QueryCourse { course: course_id.to_owned() },
        )
    }

    /// Goes on with a query after the driver's report.
    ///
    /// An answer with a seat count ends the query with "free or not". A
    /// corrupted session is started afresh and asked again, `max_retries`
    /// times and once more; every other failure ends the query at once.
    pub fn resume(&self, state: ManagedQuery, reply: Reply) -> (p: Progress<ManagedQuery, bool>)
        ensures
            p@ == spec_managed_resume(
                self.max_retries() as int,
                self.session().captcha_retry() as int,
                state@,
                reply@,
            ),
    {
        proof {
            use_type_invariant(self);
        }
        match state {
            ManagedQuery::Asking { retries, query } => {
                let course = course_in(&query);
                self.enter_query(retries, course, self.crawler.query_resume(query, reply))
            },
            ManagedQuery::Recovering { retries, course, init } => self.enter_init(
                retries,
                course,
                self.init_resume(init, reply),
            ),
        }
    }
}

/// The course that a query asks about, copied out.
fn course_in(query: &QueryState) -> (course: String)
    ensures
        course@ == course_of(query@),
{
    match query {
        QueryState::Posted { course, .. } => course.clone(),
        QueryState::Paused { course, .. } => course.clone(),
    }
}

/// What the session does in one round of a managed query, as far as the
/// manager can tell: how its query ends and, should a fresh start follow,
/// how that ends.
pub struct Round {
    pub query: Result<i32, NtnuCrawlerErrorView>,
    pub init: Result<(), NtnuCrawlerErrorView>,
}

/// A finished managed query: what the caller gets, and how often the
/// session was asked and started afresh on the way.
pub struct Run {
    pub result: Result<bool, NtnuCrawlerErrorView>,
    pub queries: nat,
    pub inits: nat,
}

/// The managed query that has repeated `retries` queries so far, run
/// against a session that behaves as `script` says, round by round. `None`
/// where the script ends before the query does.
pub open spec fn drive(max_retries: int, retries: int, script: Seq<Round>) -> Option<Run>
    decreases script.len(),
{
    if script.len() == 0 {
        None
    } else {
        match after_query(script[0].query) {
            AfterQuery::Report(result) => Some(Run { result, queries: 1, inits: 0 }),
            AfterQuery::Recover => match after_init(max_retries, retries, script[0].init) {
                AfterInit::Report(result) => Some(Run { result, queries: 1, inits: 1 }),
                AfterInit::Retry => match drive(max_retries, retries + 1, script.drop_first()) {
                    Some(rest) => Some(
                        Run {
                            result: rest.result,
                            queries: rest.queries + 1,
                            inits: rest.inits + 1,
                        },
                    ),
                    None => None,
                },
            },
        }
    }
}

/// The number of rounds after which a managed query gives up on a session
/// that stays corrupted, `retries` queries having been repeated already.
pub open spec fn rounds_left(max_retries: int, retries: int) -> nat {
    if retries > max_retries {
        1
    } else {
        (max_retries - retries + 2) as nat
    }
}

/// Against a session whose every query meets corruption and whose every
/// fresh start succeeds, a managed query ends, and it ends with the
/// corruption error: after `max_retries + 2` queries where the budget is
/// not negative, each of them followed by one fresh start.
pub proof fn lemma_corrupted_session_gives_up(max_retries: int, retries: int, script: Seq<Round>)
    requires
        0 <= retries,
        script.len() >= rounds_left(max_retries, retries),
        forall|i: int|
            0 <= i < script.len() ==> (#[trigger] script[i]).query == Err::<
                i32,
                NtnuCrawlerErrorView,
            >(NtnuCrawlerErrorView::BrokenStateMachine) && script[i].init is Ok,
    ensures
        drive(max_retries, retries, script) == Some(
            Run {
                result: Err(NtnuCrawlerErrorView::BrokenStateMachine),
                queries: rounds_left(max_retries, retries),
                inits: rounds_left(max_retries, retries),
            },
        ),
    decreases script.len(),
{
    let first = script[0];
    assert(after_query(first.query) == AfterQuery::Recover);
    if retries <= max_retries {
        let rest = script.drop_first();
        assert forall|i: int| 0 <= i < rest.len() implies (#[trigger] rest[i]).query == Err::<
            i32,
            NtnuCrawlerErrorView,
        >(NtnuCrawlerErrorView::BrokenStateMachine) && rest[i].init is Ok by {
            assert(rest[i] == script[i + 1]);
        }
        lemma_corrupted_session_gives_up(max_retries, retries + 1, rest);
    }
}

/// Against a session that is corrupted once, starts afresh and then
/// reports `seat_count`, a managed query with a budget of at least zero
/// answers "free or not" for that count, after two queries and exactly one
/// fresh start.
pub proof fn lemma_recovers_once(max_retries: int, seat_count: i32, script: Seq<Round>)
    requires
        max_retries >= 0,
        script.len() >= 2,
        script[0].query == Err::<i32, NtnuCrawlerErrorView>(
            NtnuCrawlerErrorView::BrokenStateMachine,
        ),
        script[0].init is Ok,
        script[1].query == Ok::<i32, NtnuCrawlerErrorView>(seat_count),
    ensures
        drive(max_retries, 0, script) == Some(
            Run { result: Ok(seat_count != 0), queries: 2, inits: 1 },
        ),
{
    let rest = script.drop_first();
    assert(rest[0] == script[1]);
    assert(drive(max_retries, 1, rest) == Some(
        Run { result: Ok(seat_count != 0), queries: 1, inits: 0 },
    ));
}

/// A managed query reports success only on a seat count, and then whether
/// the count is other than zero.
pub proof fn lemma_success_has_a_count(outcome: Result<i32, NtnuCrawlerErrorView>, available: bool)
    requires
        after_query(outcome) == AfterQuery::Report(Ok(available)),
    ensures
        outcome matches Ok(seat_count) && available == (seat_count != 0),
{
}

/// The manager goes by `after_query` and `after_init`, which is what ties
/// `drive` to the machine. When the session ends a query, the managed query
/// ends with what `after_query` reports, or a fresh start begins with an
/// empty cookie jar. When a fresh start ends, the managed query ends with
/// what `after_init` reports, or the same course is asked about again with
/// one more retry on the count.
pub proof fn lemma_manager_follows_policy(
    max_retries: int,
    captcha_retry: int,
    state: ManagedQueryView,
    reply: ReplyView,
)
    ensures
        match state {
            ManagedQueryView::Asking { retries, query } => spec_query_resume(
                max_retries,
                query,
                reply,
            ) matches ProgressView::Finished(outcome) ==> spec_managed_resume(
                max_retries,
                captcha_retry,
                state,
                reply,
            ) == (match after_query(outcome) {
                AfterQuery::Report(result) => ProgressView::Finished(result),
                AfterQuery::Recover => ProgressView::Continue(
                    ManagedQueryView::Recovering {
                        retries,
                        course: course_of(query),
                        init: InitStateView::Clearing,
                    },
                    ActionView::ClearCookies,
                ),
            }),
            ManagedQueryView::Recovering { retries, course, init } => spec_init_resume(
                captcha_retry,
                init,
                reply,
            ) matches ProgressView::Finished(outcome) ==> spec_managed_resume(
                max_retries,
                captcha_retry,
                state,
                reply,
            ) == (match after_init(max_retries, retries as int, outcome) {
                AfterInit::Report(result) => ProgressView::Finished(result),
                AfterInit::Retry => ProgressView::Continue(
                    ManagedQueryView::Asking {
                        retries: (retries + 1) as u32,
                        query: QueryStateView::Posted { course, retries: 0 },
                    },
                    ActionView::QueryCourse { course },
                ),
            }),
        },
{
}

/// A managed query ends with success only when the session has just
/// reported a seat count, and then with "free" exactly when the count is
/// other than zero. No fresh start ends a query with success.
pub proof fn lemma_success_comes_from_a_count(
    max_retries: int,
    captcha_retry: int,
    state: ManagedQueryView,
    reply: ReplyView,
    available: bool,
)
    requires
        spec_managed_resume(max_retries, captcha_retry, state, reply) == ProgressView::<
            ManagedQueryView,
            bool,
        >::Finished(Ok(available)),
    ensures
        state matches ManagedQueryView::Asking { query, .. } && (spec_query_resume(
            max_retries,
            query,
            reply,
        ) matches ProgressView::Finished(Ok(seat_count)) && available == (seat_count != 0)),
{
}

} // verus!
