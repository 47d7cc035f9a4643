//! The records of the platform: users, courses, forum, quizzes and
//! submissions, with the requests that create them and the responses that
//! show them.
//!
//! Points in time are whole seconds since the Unix epoch.

pub mod course;
pub mod forum;
pub mod quiz;
pub mod record;
pub mod submission;
pub mod user;
