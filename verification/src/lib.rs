//! Grading of learner-submitted code against the hidden test cases of an
//! exercise: the artifact that a submission is written to, the life of one
//! sandboxed run, the classification of its outcome and the sequencing of a
//! whole battery behind the admission permit.
pub mod artifact;
pub mod auth;
pub mod battery;
pub mod admission;
pub mod model;
pub mod runner;
