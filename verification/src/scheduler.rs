//! The polling pass over the watchlist: whom to ask about next, what to
//! write back, whom to notify, and when to rest.
//!
//! The scheduler owns neither the store nor the messenger nor the clock.
//! It hands out a [`PassAction`], the driver performs it and answers with a
//! [`PassEvent`]. Users and courses are taken in the order of the snapshot;
//! every course query of a pass goes through the one session, one after
//! the other.

use vstd::prelude::*;
use vstd::string::StringExecFns;
use crate::crawler::NtnuCrawlerError;
use crate::text::{join, joined, views};
use crate::watchlist::{strike, without};

verus! {

/// Seconds between two passes, unless a manual trigger cuts them short.
pub const POLL_INTERVAL_SECS: u64 = 180;

/// One subscriber and the courses watched for them.
#[derive(Clone, Debug, PartialEq, Eq)]
pub struct Watch {
    pub user: String,
    pub courses: Vec<String>,
}

/// [`Watch`] over sequences.
pub struct WatchView {
    pub user: Seq<char>,
    pub courses: Seq<Seq<char>>,
}

impl View for Watch {
    type V = WatchView;

    open spec fn view(&self) -> WatchView {
        WatchView { user: self.user@, courses: views(self.courses@) }
    }
}

/// A snapshot of the watchlist over sequences.
pub open spec fn watches(list: Seq<Watch>) -> Seq<WatchView> {
    Seq::new(list.len(), |i: int| list[i]@)
}

/// How the query for one course ended.
#[derive(Clone, Copy, Debug, PartialEq, Eq, Structural)]
pub enum Check {
    /// A seat is free.
    Available,
    /// No seat is free.
    Full,
    /// The query failed; the course stays on the list for the next pass.
    Failed,
}

/// One thing for the driver to do on behalf of the pass.
#[derive(Clone, Debug, PartialEq, Eq)]
pub enum PassAction {
    /// Read the whole watchlist.
    LoadWatchlist,
    /// Open the direct-message channel to the user and show there that
    /// work is under way, until the user's list has been written.
    Attend { user: String },
    /// Ask the portal whether the course has a free seat.
    Query { course: String },
    /// Read the list of one user as it stands now.
    Reload { user: String },
    /// Write the list of one user.
    Store { user: String, courses: Vec<String> },
    /// Send the user a direct message.
    Notify { user: String, message: String },
    /// Rest until so many seconds have passed or a manual trigger arrives,
    /// whichever comes first.
    Wait { seconds: u64 },
}

/// [`PassAction`] over sequences.
pub enum PassActionView {
    LoadWatchlist,
    Attend { user: Seq<char> },
    Query { course: Seq<char> },
    Reload { user: Seq<char> },
    Store { user: Seq<char>, courses: Seq<Seq<char>> },
    Notify { user: Seq<char>, message: Seq<char> },
    Wait { seconds: u64 },
}

impl View for PassAction {
    type V = PassActionView;

    open spec fn view(&self) -> PassActionView {
        match self {
            PassAction::LoadWatchlist => PassActionView::LoadWatchlist,
            PassAction::Attend { user } => PassActionView::Attend { user: user@ },
            PassAction::Query { course } => PassActionView::Query { course: course@ },
            PassAction::Reload { user } => PassActionView::Reload { user: user@ },
            PassAction::Store { user, courses } => PassActionView::Store {
                user: user@,
                courses: views(courses@),
            },
            PassAction::Notify { user, message } => PassActionView::Notify {
                user: user@,
                message: message@,
            },
            PassAction::Wait { seconds } => PassActionView::Wait { seconds: *seconds },
        }
    }
}

/// What the driver reports after a [`PassAction`].
#[derive(Clone, Debug, PartialEq, Eq)]
pub enum PassEvent {
    /// The watchlist as it was read.
    Watchlist(Vec<Watch>),
    /// The channel to the user is open.
    Attending,
    /// The outcome of the course query.
    Checked(Check),
    /// The user's list as it stands now; empty where the store has none.
    Current(Vec<String>),
    /// The list was written.
    Stored,
    /// The message was sent, or could not be sent.
    Notified,
    /// The rest is over.
    Woken,
}

/// [`PassEvent`] over sequences.
pub enum PassEventView {
    Watchlist(Seq<WatchView>),
    Attending,
    Checked(Check),
    Current(Seq<Seq<char>>),
    Stored,
    Notified,
    Woken,
}

impl View for PassEvent {
    type V = PassEventView;

    open spec fn view(&self) -> PassEventView {
        match self {
            PassEvent::Watchlist(list) => PassEventView::Watchlist(watches(list@)),
            PassEvent::Attending => PassEventView::Attending,
            PassEvent::Checked(check) => PassEventView::Checked(*check),
            PassEvent::Current(courses) => PassEventView::Current(views(courses@)),
            PassEvent::Stored => PassEventView::Stored,
            PassEvent::Notified => PassEventView::Notified,
            PassEvent::Woken => PassEventView::Woken,
        }
    }
}

/// Where a pass stands. `user` and `course` are positions in the snapshot
/// `list`; `found` holds the courses of the user at hand that were found
/// to have a free seat, in the order in which they were asked about.
pub enum Phase {
    /// The watchlist was asked for.
    Loading,
    /// The channel to the user is being opened.
    Attending { list: Vec<Watch>, user: usize },
    /// The portal is asked about a course.
    Checking { list: Vec<Watch>, user: usize, course: usize, found: Vec<String> },
    /// The user's list was asked for once more.
    Reloading { list: Vec<Watch>, user: usize, found: Vec<String> },
    /// The user's list is being written.
    Storing { list: Vec<Watch>, user: usize, found: Vec<String> },
    /// The user is being told.
    Notifying { list: Vec<Watch>, user: usize },
    /// The pass is over.
    Waiting,
}

/// [`Phase`] over sequences.
pub enum PhaseView {
    Loading,
    Attending { list: Seq<WatchView>, user: int },
    Checking { list: Seq<WatchView>, user: int, course: int, found: Seq<Seq<char>> },
    Reloading { list: Seq<WatchView>, user: int, found: Seq<Seq<char>> },
    Storing { list: Seq<WatchView>, user: int, found: Seq<Seq<char>> },
    Notifying { list: Seq<WatchView>, user: int },
    Waiting,
}

impl View for Phase {
    type V = PhaseView;

    open spec fn view(&self) -> PhaseView {
        match self {
            Phase::Loading => PhaseView::Loading,
            Phase::Attending { list, user } => PhaseView::Attending {
                list: watches(list@),
                user: *user as int,
            },
            Phase::Checking { list, user, course, found } => PhaseView::Checking {
                list: watches(list@),
                user: *user as int,
                course: *course as int,
                found: views(found@),
            },
            Phase::Reloading { list, user, found } => PhaseView::Reloading {
                list: watches(list@),
                user: *user as int,
                found: views(found@),
            },
            Phase::Storing { list, user, found } => PhaseView::Storing {
                list: watches(list@),
                user: *user as int,
                found: views(found@),
            },
            Phase::Notifying { list, user } => PhaseView::Notifying {
                list: watches(list@),
                user: *user as int,
            },
            Phase::Waiting => PhaseView::Waiting,
        }
    }
}

/// The positions of a phase lie inside its snapshot.
pub open spec fn in_range(phase: PhaseView) -> bool {
    match phase {
        PhaseView::Loading => true,
        PhaseView::Attending { list, user } => 0 <= user < list.len(),
        PhaseView::Checking { list, user, course, .. } => 0 <= user < list.len() && 0 <= course
            < list[user].courses.len(),
        PhaseView::Reloading { list, user, .. } => 0 <= user < list.len(),
        PhaseView::Storing { list, user, .. } => 0 <= user < list.len(),
        PhaseView::Notifying { list, user } => 0 <= user < list.len(),
        PhaseView::Waiting => true,
    }
}

/// What a user is told about the courses that were found to have a free
/// seat: which they are, that they were taken off the list, and that they
/// must be added again if no seat was had.
pub open spec fn notice(found: Seq<Seq<char>>) -> Seq<char> {
    "Course "@ + joined(found, " & "@)
        + " available detected! Go get your course.\n (Courses listed above are remove from list, added again if you did not get the course)"@
}

/// How the turn of the user at position `user` begins: with the channel to
/// that user; past the last user the pass rests.
pub open spec fn turn(list: Seq<WatchView>, user: int) -> (PhaseView, PassActionView) {
    if user >= list.len() {
        (PhaseView::Waiting, PassActionView::Wait { seconds: POLL_INTERVAL_SECS })
    } else {
        (PhaseView::Attending { list, user }, PassActionView::Attend { user: list[user].user })
    }
}

/// What became of the query for a course: a seat is free, none is free, or
/// the query failed, whatever the failure.
pub open spec fn spec_check_of(answer: Result<bool, NtnuCrawlerError>) -> Check {
    match answer {
        Ok(true) => Check::Available,
        Ok(false) => Check::Full,
        Err(_) => Check::Failed,
    }
}

/// The next thing to do from position `user`, `course` of the snapshot: ask
/// about that course; past the user's last course, read the user's list
/// once more; past the last user, rest.
pub open spec fn advance(list: Seq<WatchView>, user: int, course: int, found: Seq<Seq<char>>) -> (
    PhaseView,
    PassActionView,
) {
    if user >= list.len() {
        (PhaseView::Waiting, PassActionView::Wait { seconds: POLL_INTERVAL_SECS })
    } else if course < list[user].courses.len() {
        (
            PhaseView::Checking { list, user, course, found },
            PassActionView::Query { course: list[user].courses[course] },
        )
    } else {
        (
            PhaseView::Reloading { list, user, found },
            PassActionView::Reload { user: list[user].user },
        )
    }
}

/// How a pass begins.
pub open spec fn spec_start() -> (PhaseView, PassActionView) {
    (PhaseView::Loading, PassActionView::LoadWatchlist)
}

/// How a pass goes on after the driver's report. An event that does not
/// answer the action that is out changes nothing and calls for nothing.
///
/// The turn of a user begins with the channel to the user, before the
/// first course is asked about. A failed query leaves its course alone.
/// After the last course of a
/// user the user's list is read once more, the courses found free are
/// struck from what was read, and the outcome is written; the user is told
/// only if a course was found free.
pub open spec fn spec_step(phase: PhaseView, event: PassEventView) -> (
    PhaseView,
    Option<PassActionView>,
) {
    match (phase, event) {
        (PhaseView::Loading, PassEventView::Watchlist(list)) => {
            let (next, action) = turn(list, 0);
            (next, Some(action))
        },
        (PhaseView::Attending { list, user }, PassEventView::Attending) => {
            let (next, action) = advance(list, user, 0, Seq::empty());
            (next, Some(action))
        },
        (PhaseView::Checking { list, user, course, found }, PassEventView::Checked(check)) => {
            let found = if check is Available {
                found.push(list[user].courses[course])
            } else {
                found
            };
            let (next, action) = advance(list, user, course + 1, found);
            (next, Some(action))
        },
        (PhaseView::Reloading { list, user, found }, PassEventView::Current(current)) => (
            PhaseView::Storing { list, user, found },
            Some(PassActionView::Store { user: list[user].user, courses: without(current, found) }),
        ),
        (PhaseView::Storing { list, user, found }, PassEventView::Stored) => if found.len() > 0 {
            (
                PhaseView::Notifying { list, user },
                Some(PassActionView::Notify { user: list[user].user, message: notice(found) }),
            )
        } else {
            let (next, action) = turn(list, user + 1);
            (next, Some(action))
        },
        (PhaseView::Notifying { list, user }, PassEventView::Notified) => {
            let (next, action) = turn(list, user + 1);
            (next, Some(action))
        },
        (PhaseView::Waiting, PassEventView::Woken) => (
            PhaseView::Loading,
            Some(PassActionView::LoadWatchlist),
        ),
        _ => (phase, None),
    }
}

impl Check {
    /// Reads the answer of the course query: a failed query is no reason to
    /// stop the pass, and it is no verdict on the course either.
    pub fn from_answer(answer: &Result<bool, NtnuCrawlerError>) -> (check: Check)
        ensures
            check == spec_check_of(*answer),
    {
        match answer {
            Ok(true) => Check::Available,
            Ok(false) => Check::Full,
            Err(_) => Check::Failed,
        }
    }
}

/// The polling loop, between two actions.
pub struct Scheduler {
    phase: Phase,
}

impl View for Scheduler {
    type V = PhaseView;

    closed spec fn view(&self) -> PhaseView {
        self.phase@
    }
}

impl Scheduler {
    #[verifier::type_invariant]
    closed spec fn wf(&self) -> bool {
        in_range(self.phase@)
    }

    /// Begins the first pass.
    pub fn start() -> (begun: (Scheduler, PassAction))
        ensures
            (begun.0@, begun.1@) == spec_start(),
    {
        (Scheduler { phase: Phase::Loading }, PassAction::LoadWatchlist)
    }

    /// Words the message about the courses found free.
    pub fn notice(found: &Vec<String>) -> (message: String)
        ensures
            message@ == notice(views(found@)),
    {
        let mut message = String::from_str("Course ");
        message.append(join(found, " & ").as_str());
        message.append(
            " available detected! Go get your course.\n (Courses listed above are remove from list, added again if you did not get the course)",
        );
        message
    }

    fn turn(list: Vec<Watch>, user: usize) -> (next: (Scheduler, PassAction))
        requires
            user <= list.len(),
        ensures
            (next.0@, next.1@) == turn(watches(list@), user as int),
    {
        if user >= list.len() {
            (
                Scheduler { phase: Phase::Waiting },
                PassAction::Wait { seconds: POLL_INTERVAL_SECS },
            )
        } else {
            let action = PassAction::Attend { user: list[user].user.clone() };
            (Scheduler { phase: Phase::Attending { list, user } }, action)
        }
    }

    fn advance(list: Vec<Watch>, user: usize, course: usize, found: Vec<String>) -> (next: (
        Scheduler,
        PassAction,
    ))
        requires
            user <= list.len(),
        ensures
            (next.0@, next.1@) == advance(
                watches(list@),
                user as int,
                course as int,
                views(found@),
            ),
    {
        if user >= list.len() {
            (
                Scheduler { phase: Phase::Waiting },
                PassAction::Wait { seconds: POLL_INTERVAL_SECS },
            )
        } else if course < list[user].courses.len() {
            let action = PassAction::Query { course: list[user].courses[course].clone() };
            (Scheduler { phase: Phase::Checking { list, user, course, found } }, action)
        } else {
            let action = PassAction::Reload { user: list[user].user.clone() };
            (Scheduler { phase: Phase::Reloading { list, user, found } }, action)
        }
    }

    /// Goes on with the pass after the driver's report.
    pub fn step(self, event: PassEvent) -> (next: (Scheduler, Option<PassAction>))
        ensures
            next.0@ == spec_step(self@, event@).0,
            match spec_step(self@, event@).1 {
                Some(action) => next.1 matches Some(a) && a@ == action,
                None => next.1 is None,
            },
    {
        proof {
            use_type_invariant(&self);
        }
        match (self.phase, event) {
            (Phase::Loading, PassEvent::Watchlist(list)) => {
                let (next, action) = Self::turn(list, 0);
                (next, Some(action))
            },
            (Phase::Attending { list, user }, PassEvent::Attending) => {
                let found: Vec<String> = Vec::new();
                proof {
                    assert(views(found@) =~= Seq::empty());
                    assert(watches(list@).len() == list.len());
                }
                let (next, action) = Self::advance(list, user, 0, found);
                (next, Some(action))
            },
            (Phase::Checking { list, user, course, found }, PassEvent::Checked(check)) => {
                let mut found = found;
                let ghost before = views(found@);
                proof {
                    assert(watches(list@)[user as int].courses.len()
                        == list@[user as int].courses.len());
                }
                match check {
                    Check::Available => {
                        found.push(list[user].courses[course].clone());
                        proof {
                            assert(views(found@) =~= before.push(
                                watches(list@)[user as int].courses[course as int],
                            ));
                        }
                    },
                    _ => {},
                }
                let (next, action) = Self::advance(list, user, course + 1, found);
                (next, Some(action))
            },
            (Phase::Reloading { list, user, found }, PassEvent::Current(current)) => {
                let action = PassAction::Store {
                    user: list[user].user.clone(),
                    courses: strike(&current, &found),
                };
                (Scheduler { phase: Phase::Storing { list, user, found } }, Some(action))
            },
            (Phase::Storing { list, user, found }, PassEvent::Stored) => {
                if found.len() > 0 {
                    let action = PassAction::Notify {
                        user: list[user].user.clone(),
                        message: Self::notice(&found),
                    };
                    (Scheduler { phase: Phase::Notifying { list, user } }, Some(action))
                } else {
                    proof {
                        assert(watches(list@).len() == list.len());
                    }
                    let (next, action) = Self::turn(list, user + 1);
                    (next, Some(action))
                }
            },
            (Phase::Notifying { list, user }, PassEvent::Notified) => {
                proof {
                    assert(watches(list@).len() == list.len());
                }
                let (next, action) = Self::turn(list, user + 1);
                (next, Some(action))
            },
            (Phase::Waiting, PassEvent::Woken) => (
                Scheduler { phase: Phase::Loading },
                Some(PassAction::LoadWatchlist),
            ),
            (phase, _) => (Scheduler { phase }, None),
        }
    }
}

} // verus!
