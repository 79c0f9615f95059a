use ntnu_course_bot::config::Config;
use ntnu_course_bot::crawler::NtnuCrawlerError;
use ntnu_course_bot::exchange::{Action, Progress, Reply};
use ntnu_course_bot::manager::NtnuCrawlerManager;
use ntnu_course_bot::scheduler::{Check, PassAction, PassEvent, Scheduler, Watch, POLL_INTERVAL_SECS};

fn texts(items: &[&str]) -> Vec<String> {
    items.iter().map(|s| s.to_string()).collect()
}

fn watch(user: &str, courses: &[&str]) -> Watch {
    Watch { user: user.to_string(), courses: texts(courses) }
}

fn config() -> Config {
    Config {
        ntnu_account: "40012345S".to_owned(),
        ntnu_password: "hunter2".to_owned(),
        captcha_service_uri: "http://localhost:8080".to_owned(),
        api_retry: 3,
        captcha_retry: 3,
        discord_token: "SECRET-REDACTED".to_owned(),
        db_path: "./db".to_owned(),
    }
}

/// A store, a messenger and a portal in memory. The portal answers the
/// query for a course with the count that `seats` gives it and fails for a
/// course that `seats` does not know.
struct World {
    store: Vec<Watch>,
    seats: Vec<(String, i32)>,
    messages: Vec<(String, String)>,
    asked: Vec<String>,
    attended: Vec<String>,
    manager: NtnuCrawlerManager,
}

impl World {
    fn new(store: Vec<Watch>, seats: &[(&str, i32)]) -> World {
        World {
            store,
            seats: seats.iter().map(|(c, n)| (c.to_string(), *n)).collect(),
            messages: Vec::new(),
            asked: Vec::new(),
            attended: Vec::new(),
            manager: NtnuCrawlerManager::new(&config(), 1),
        }
    }

    fn portal(&self, action: Action) -> Reply {
        match action {
            Action::QueryCourse { course } => {
                match self.seats.iter().find(|(c, _)| *c == course) {
                    Some((_, n)) => Reply::Text(format!("{{\"Count\":{}}}", n)),
                    None => Reply::Text("<html>unknown</html>".to_owned()),
                }
            }
            other => panic!("unexpected {:?}", other),
        }
    }

    fn check(&mut self, course: &str) -> Check {
        self.asked.push(course.to_string());
        let mut progress = self.manager.query(course);
        loop {
            match progress {
                Progress::Finished(answer) => return Check::from_answer(&answer),
                Progress::Continue(state, action) => {
                    progress = self.manager.resume(state, self.portal(action));
                }
            }
        }
    }

    fn perform(&mut self, action: PassAction) -> PassEvent {
        match action {
            PassAction::LoadWatchlist => PassEvent::Watchlist(self.store.clone()),
            PassAction::Attend { user } => {
                self.attended.push(user);
                PassEvent::Attending
            }
            PassAction::Query { course } => PassEvent::Checked(self.check(&course)),
            PassAction::Reload { user } => PassEvent::Current(
                self.store
                    .iter()
                    .find(|w| w.user == user)
                    .map(|w| w.courses.clone())
                    .unwrap_or(Vec::new()),
            ),
            PassAction::Store { user, courses } => {
                match self.store.iter_mut().find(|w| w.user == user) {
                    Some(w) => w.courses = courses,
                    None => self.store.push(Watch { user, courses }),
                }
                PassEvent::Stored
            }
            PassAction::Notify { user, message } => {
                self.messages.push((user, message));
                PassEvent::Notified
            }
            PassAction::Wait { .. } => PassEvent::Woken,
        }
    }

    /// Runs one pass: from the load of the watchlist to the rest.
    fn pass(&mut self, scheduler: Scheduler, first: PassAction) -> Scheduler {
        let mut scheduler = scheduler;
        let mut action = first;
        loop {
            if action == (PassAction::Wait { seconds: POLL_INTERVAL_SECS }) {
                return scheduler;
            }
            let event = self.perform(action);
            let (next, then) = scheduler.step(event);
            scheduler = next;
            action = then.expect("the event answers the action");
        }
    }
}

#[test]
fn one_pass_strikes_the_free_course_and_tells_the_user() {
    let mut world = World::new(vec![watch("U", &["101", "202"])], &[("101", 0), ("202", 3)]);
    let (scheduler, first) = Scheduler::start();
    assert_eq!(first, PassAction::LoadWatchlist);
    world.pass(scheduler, first);
    assert_eq!(world.store, vec![watch("U", &["101"])]);
    assert_eq!(world.asked, texts(&["101", "202"]));
    assert_eq!(world.attended, texts(&["U"]));
    assert_eq!(world.messages.len(), 1);
    assert_eq!(world.messages[0].0, "U");
    assert_eq!(
        world.messages[0].1,
        "Course 202 available detected! Go get your course.\n (Courses listed above are remove from list, added again if you did not get the course)"
    );
}

#[test]
fn a_pass_names_every_free_course_of_a_user() {
    let mut world = World::new(
        vec![watch("7", &["1", "2", "3"]), watch("8", &["2"]), watch("9", &[])],
        &[("1", 4), ("2", 0), ("3", 1)],
    );
    let (scheduler, first) = Scheduler::start();
    world.pass(scheduler, first);
    assert_eq!(world.store, vec![watch("7", &["2"]), watch("8", &["2"]), watch("9", &[])]);
    assert_eq!(world.asked, texts(&["1", "2", "3", "2"]));
    assert_eq!(world.attended, texts(&["7", "8", "9"]));
    assert_eq!(world.messages.len(), 1);
    assert_eq!(world.messages[0].0, "7");
    assert!(world.messages[0].1.starts_with("Course 1 & 3 available detected!"));
}

#[test]
fn a_failed_query_leaves_the_course_on_the_list() {
    let mut world = World::new(vec![watch("U", &["404", "202"])], &[("202", 1)]);
    let (scheduler, first) = Scheduler::start();
    world.pass(scheduler, first);
    assert_eq!(world.store, vec![watch("U", &["404"])]);
    assert_eq!(world.messages.len(), 1);
}

#[test]
fn the_write_back_goes_by_the_list_as_it_stands_then() {
    let (scheduler, _) = Scheduler::start();
    let (scheduler, action) = scheduler.step(PassEvent::Watchlist(vec![watch("U", &["1", "2"])]));
    assert_eq!(action, Some(PassAction::Attend { user: "U".to_string() }));
    let (scheduler, action) = scheduler.step(PassEvent::Attending);
    assert_eq!(action, Some(PassAction::Query { course: "1".to_string() }));
    let (scheduler, action) = scheduler.step(PassEvent::Checked(Check::Available));
    assert_eq!(action, Some(PassAction::Query { course: "2".to_string() }));
    let (scheduler, action) = scheduler.step(PassEvent::Checked(Check::Full));
    assert_eq!(action, Some(PassAction::Reload { user: "U".to_string() }));
    let (scheduler, action) = scheduler.step(PassEvent::Current(texts(&["0", "1", "2", "5"])));
    assert_eq!(
        action,
        Some(PassAction::Store { user: "U".to_string(), courses: texts(&["0", "2", "5"]) })
    );
    let (scheduler, action) = scheduler.step(PassEvent::Stored);
    match action {
        Some(PassAction::Notify { user, message }) => {
            assert_eq!(user, "U");
            assert_eq!(message, Scheduler::notice(&texts(&["1"])));
        }
        other => panic!("unexpected {:?}", other),
    }
    let (scheduler, action) = scheduler.step(PassEvent::Notified);
    assert_eq!(action, Some(PassAction::Wait { seconds: 180 }));
    let (_, action) = scheduler.step(PassEvent::Woken);
    assert_eq!(action, Some(PassAction::LoadWatchlist));
}

#[test]
fn a_user_without_free_course_is_written_back_and_not_told() {
    let (scheduler, _) = Scheduler::start();
    let (scheduler, _) = scheduler.step(PassEvent::Watchlist(vec![watch("U", &["1"])]));
    let (scheduler, _) = scheduler.step(PassEvent::Attending);
    let (scheduler, action) = scheduler.step(PassEvent::Checked(Check::Failed));
    assert_eq!(action, Some(PassAction::Reload { user: "U".to_string() }));
    let (scheduler, action) = scheduler.step(PassEvent::Current(texts(&["1"])));
    assert_eq!(action, Some(PassAction::Store { user: "U".to_string(), courses: texts(&["1"]) }));
    let (_, action) = scheduler.step(PassEvent::Stored);
    assert_eq!(action, Some(PassAction::Wait { seconds: 180 }));
}

#[test]
fn an_empty_watchlist_goes_straight_to_rest() {
    let (scheduler, _) = Scheduler::start();
    let (_, action) = scheduler.step(PassEvent::Watchlist(Vec::new()));
    assert_eq!(action, Some(PassAction::Wait { seconds: 180 }));
}

#[test]
fn an_event_out_of_turn_changes_nothing() {
    let (scheduler, _) = Scheduler::start();
    let (scheduler, action) = scheduler.step(PassEvent::Woken);
    assert_eq!(action, None);
    let (scheduler, action) = scheduler.step(PassEvent::Stored);
    assert_eq!(action, None);
    let (scheduler, action) = scheduler.step(PassEvent::Watchlist(vec![watch("U", &["1"])]));
    assert_eq!(action, Some(PassAction::Attend { user: "U".to_string() }));
    let (scheduler, action) = scheduler.step(PassEvent::Checked(Check::Full));
    assert_eq!(action, None);
    let (scheduler, action) = scheduler.step(PassEvent::Attending);
    assert_eq!(action, Some(PassAction::Query { course: "1".to_string() }));
    let (scheduler, action) = scheduler.step(PassEvent::Notified);
    assert_eq!(action, None);
    let (_, action) = scheduler.step(PassEvent::Checked(Check::Full));
    assert_eq!(action, Some(PassAction::Reload { user: "U".to_string() }));
}

#[test]
fn the_rest_lasts_three_minutes() {
    assert_eq!(POLL_INTERVAL_SECS, 180);
}

#[test]
fn the_answer_of_a_query_becomes_a_check() {
    assert_eq!(Check::from_answer(&Ok(true)), Check::Available);
    assert_eq!(Check::from_answer(&Ok(false)), Check::Full);
    assert_eq!(Check::from_answer(&Err(NtnuCrawlerError::BrokenStateMachine)), Check::Failed);
    assert_eq!(Check::from_answer(&Err(NtnuCrawlerError::ExtractionFailed)), Check::Failed);
    assert_eq!(Check::from_answer(&Err(NtnuCrawlerError::LoginExhausted)), Check::Failed);
}

#[test]
fn a_user_without_courses_is_attended_and_written_back() {
    let (scheduler, _) = Scheduler::start();
    let (scheduler, action) = scheduler.step(PassEvent::Watchlist(vec![watch("U", &[])]));
    assert_eq!(action, Some(PassAction::Attend { user: "U".to_string() }));
    let (scheduler, action) = scheduler.step(PassEvent::Attending);
    assert_eq!(action, Some(PassAction::Reload { user: "U".to_string() }));
    let (scheduler, action) = scheduler.step(PassEvent::Current(texts(&["9"])));
    assert_eq!(action, Some(PassAction::Store { user: "U".to_string(), courses: texts(&["9"]) }));
    let (_, action) = scheduler.step(PassEvent::Stored);
    assert_eq!(action, Some(PassAction::Wait { seconds: 180 }));
}
