//! A ranked score-submission service: a participant submits a score with a
//! hash commitment and a proof verdict; a submission that passes every
//! integrity check is inserted into a bounded, sorted leaderboard, and a
//! match session is opened and closed around it on an external registry.
//! The whole pipeline is all-or-nothing: a failed submission leaves the
//! leaderboard exactly as it was.

pub mod commitment;
pub mod leaderboard;
pub mod pipeline;
pub mod session;
