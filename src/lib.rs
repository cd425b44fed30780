//! Live scoreboard overlay for a two-team war of sequential races: the
//! display state derived from the per-race differentials, and the session
//! logic that streams it to clients with change suppression and liveness
//! checks.
pub mod history;
pub mod overlay;
pub mod session;
