use ntnu_course_bot::config::Config;
use ntnu_course_bot::crawler::NtnuCrawlerError;
use ntnu_course_bot::exchange::{Action, Failure, Progress, Reply};
use ntnu_course_bot::manager::{InitState, NtnuCrawlerManager, SeatQueryResult};

const TOKEN_PAGE: &str = "url:'LoginCheckCtrl?action=login&id=' + 'a1b2c3',";

const INDEX_PAGE: &str = "name: 'stdName',\r\n    readOnly: true,\r\n    value: 'Somebody'";

const MARKED: &str = "<html>不合法執行選課系統</html>";

fn config(api_retry: i32, captcha_retry: i32) -> Config {
    Config {
        ntnu_account: "40012345S".to_owned(),
        ntnu_password: "hunter2".to_owned(),
        captcha_service_uri: "http://localhost:8080".to_owned(),
        api_retry,
        captcha_retry,
        discord_token: "SECRET-REDACTED".to_owned(),
        db_path: "./db".to_owned(),
    }
}

/// A portal that lets everybody in and answers each course query with the
/// next of `answers`, the last of them for ever.
struct Portal {
    answers: Vec<String>,
    queries: usize,
    clears: usize,
    logins: usize,
    landings: usize,
}

impl Portal {
    fn new(answers: &[&str]) -> Portal {
        Portal {
            answers: answers.iter().map(|s| s.to_string()).collect(),
            queries: 0,
            clears: 0,
            logins: 0,
            landings: 0,
        }
    }

    fn perform(&mut self, action: Action) -> Reply {
        match action {
            Action::FetchToken => Reply::Text(TOKEN_PAGE.to_owned()),
            Action::FetchCaptcha => Reply::Bytes(vec![0x89, 0x50, 0x4E, 0x47]),
            Action::Solve { .. } => Reply::Solver { status: 200, answers: Some(vec!["1+1".to_owned()]) },
            Action::SubmitLogin { token, answer } => {
                assert_eq!(token, "a1b2c3");
                assert_eq!(answer, "2");
                self.logins += 1;
                Reply::Text("{success:true}".to_owned())
            }
            Action::FetchName => Reply::Text(INDEX_PAGE.to_owned()),
            Action::Confirm { name } => {
                assert_eq!(name, "Somebody");
                Reply::Text("".to_owned())
            }
            Action::EnterEnroll => Reply::Text("<html></html>".to_owned()),
            Action::EnterQuery => {
                self.landings += 1;
                Reply::Text("<html></html>".to_owned())
            }
            Action::QueryCourse { .. } => {
                let at = self.queries.min(self.answers.len() - 1);
                self.queries += 1;
                Reply::Text(self.answers[at].clone())
            }
            Action::ClearCookies => {
                self.clears += 1;
                Reply::Done
            }
            Action::Pause { .. } => Reply::Done,
        }
    }
}

fn run_query(
    manager: &NtnuCrawlerManager,
    portal: &mut Portal,
    course: &str,
) -> Result<bool, NtnuCrawlerError> {
    let mut progress = manager.query(course);
    let mut steps = 0;
    loop {
        steps += 1;
        assert!(steps < 10_000, "the query does not end");
        match progress {
            Progress::Finished(outcome) => return outcome,
            Progress::Continue(state, action) => {
                progress = manager.resume(state, portal.perform(action));
            }
        }
    }
}

#[test]
fn seats_are_available_unless_the_count_is_zero() {
    assert!(!SeatQueryResult::new(0).available);
    assert!(SeatQueryResult::new(1).available);
    assert!(SeatQueryResult::new(3).available);
    assert!(SeatQueryResult::new(i32::MAX).available);
    assert!(SeatQueryResult::new(-1).available);
}

#[test]
fn new_points_the_session_at_the_subsite() {
    let manager = NtnuCrawlerManager::new(&config(10, 20), 1);
    let r = manager.crawler().request_for(&Action::FetchCaptcha).unwrap();
    assert_eq!(r.url, "https://cos1s.ntnu.edu.tw/AasEnrollStudent/RandImage");
    let manager = NtnuCrawlerManager::new(&config(10, 20), 23);
    let r = manager.crawler().request_for(&Action::FetchCaptcha).unwrap();
    assert_eq!(r.url, "https://cos23s.ntnu.edu.tw/AasEnrollStudent/RandImage");
    let r = manager.crawler().solver().solve_request(&[0xFF, 0xD8, 0xFF, 0xAA]).unwrap();
    assert_eq!(r.url, "http://localhost:8080/solve");
}

#[test]
fn query_reports_free_and_full() {
    let manager = NtnuCrawlerManager::new(&config(3, 3), 1);
    let mut portal = Portal::new(&["{\"Count\":3}"]);
    assert_eq!(run_query(&manager, &mut portal, "202"), Ok(true));
    assert_eq!(portal.queries, 1);
    assert_eq!(portal.clears, 0);
    let mut portal = Portal::new(&["{\"Count\":0}"]);
    assert_eq!(run_query(&manager, &mut portal, "101"), Ok(false));
}

#[test]
fn query_against_a_session_that_stays_corrupted_gives_up() {
    for max_retries in [0, 1, 3, 10] {
        let manager = NtnuCrawlerManager::new(&config(max_retries, 3), 1);
        let mut portal = Portal::new(&[MARKED]);
        assert_eq!(
            run_query(&manager, &mut portal, "101"),
            Err(NtnuCrawlerError::BrokenStateMachine)
        );
        let rounds = max_retries as usize + 2;
        assert_eq!(portal.queries, rounds);
        assert_eq!(portal.clears, rounds);
        assert_eq!(portal.logins, rounds);
        assert_eq!(portal.landings, rounds);
    }
}

#[test]
fn query_without_budget_starts_afresh_once_and_gives_up() {
    let manager = NtnuCrawlerManager::new(&config(-1, 3), 1);
    let mut portal = Portal::new(&[MARKED, "{\"Count\":3}"]);
    assert_eq!(run_query(&manager, &mut portal, "101"), Err(NtnuCrawlerError::BrokenStateMachine));
    assert_eq!(portal.queries, 1);
    assert_eq!(portal.landings, 1);
}

#[test]
fn query_recovers_from_one_corruption() {
    let manager = NtnuCrawlerManager::new(&config(3, 3), 1);
    let mut portal = Portal::new(&[MARKED, "{\"Count\":5}"]);
    assert_eq!(run_query(&manager, &mut portal, "101"), Ok(true));
    assert_eq!(portal.queries, 2);
    assert_eq!(portal.clears, 1);
    assert_eq!(portal.logins, 1);
    assert_eq!(portal.landings, 1);

    let mut portal = Portal::new(&[MARKED, "{\"Count\":0}"]);
    assert_eq!(run_query(&manager, &mut portal, "101"), Ok(false));
    assert_eq!(portal.landings, 1);
}

#[test]
fn query_hands_on_every_other_failure_at_once() {
    let manager = NtnuCrawlerManager::new(&config(3, 3), 1);
    let mut portal = Portal::new(&["<html>changed</html>"]);
    assert_eq!(run_query(&manager, &mut portal, "101"), Err(NtnuCrawlerError::ExtractionFailed));
    assert_eq!(portal.queries, 1);
    assert_eq!(portal.clears, 0);
}

#[test]
fn query_hands_on_the_failure_of_a_fresh_start() {
    let manager = NtnuCrawlerManager::new(&config(3, 3), 1);
    let mut progress = manager.query("101");
    let mut asked = 0;
    let outcome = loop {
        match progress {
            Progress::Finished(outcome) => break outcome,
            Progress::Continue(state, action) => {
                let reply = match action {
                    Action::QueryCourse { .. } => {
                        asked += 1;
                        Reply::Text(MARKED.to_owned())
                    }
                    Action::ClearCookies => Reply::Done,
                    Action::FetchToken => Reply::Failed(Failure::Connect),
                    other => panic!("unexpected {:?}", other),
                };
                progress = manager.resume(state, reply);
            }
        }
    };
    assert_eq!(outcome, Err(NtnuCrawlerError::Transport(Failure::Connect)));
    assert_eq!(asked, 1);
}

#[test]
fn init_clears_logs_in_and_lands() {
    let manager = NtnuCrawlerManager::new(&config(3, 3), 1);
    let mut portal = Portal::new(&["{\"Count\":1}"]);
    let mut progress = manager.init();
    assert_eq!(progress, Progress::Continue(InitState::Clearing, Action::ClearCookies));
    let mut order = Vec::new();
    let outcome = loop {
        match progress {
            Progress::Finished(outcome) => break outcome,
            Progress::Continue(state, action) => {
                order.push(format!("{:?}", action).split(' ').next().unwrap().to_string());
                progress = manager.init_resume(state, portal.perform(action));
            }
        }
    };
    assert_eq!(outcome, Ok(()));
    assert_eq!(
        order,
        vec![
            "ClearCookies",
            "FetchToken",
            "FetchCaptcha",
            "Solve",
            "SubmitLogin",
            "FetchName",
            "Confirm",
            "EnterEnroll",
            "EnterQuery"
        ]
    );
}

#[test]
fn init_without_login_budget_fails() {
    let manager = NtnuCrawlerManager::new(&config(3, 0), 1);
    assert_eq!(
        manager.init_resume(InitState::Clearing, Reply::Done),
        Progress::Finished(Err(NtnuCrawlerError::LoginExhausted))
    );
}
