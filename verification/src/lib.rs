//! Decision logic of a watcher for free seats on a CAPTCHA-protected course
//! enrollment portal.
//!
//! The library decides; it performs nothing. Every operation that needs
//! the network, the watchlist store, the messenger or the clock is a state
//! machine: it hands out an action, a driver performs the action and
//! reports what came back, and the machine says what follows.
//!
//! - [`captcha`] chooses the answer to a CAPTCHA among the guesses of a
//!   recognition service.
//! - [`crawler`] is the session with the portal: login, the walk over the
//!   pages after it, and the course query, with their retries.
//! - [`manager`] starts a corrupted session afresh, a bounded number of
//!   times.
//! - [`scheduler`] runs the polling pass over the watchlist.
//! - [`watchlist`] decides the commands on one subscriber's list of courses.
//! - [`trigger`] is the queue of requests for a pass at once.
//! - [`exchange`] holds the actions and reports, [`pattern`] the markup
//!   patterns, [`text`] the text routines, [`config`] the settings.

pub mod captcha;
pub mod config;
pub mod crawler;
pub mod exchange;
pub mod manager;
pub mod pattern;
pub mod scheduler;
pub mod text;
pub mod trigger;
pub mod watchlist;
