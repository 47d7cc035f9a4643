//! Grading core of a code-learning platform: it classifies sandboxed runs of
//! submitted programs, scores them against test cases and renders feedback.

pub mod auth;
pub mod config;
pub mod error;
pub mod evaluation;
pub mod execution;
pub mod ids;
pub mod models;
pub mod queries;
pub mod routing;
pub mod rules;
pub mod text;
