//! Conventional-commit helper: a fixed catalog of change types, an interactive
//! input collector modelled as a state machine, a pure message formatter, and
//! the staging and commit steps over a `git2` repository.

pub mod catalog;
pub mod collector;
pub mod error;
pub mod message;
pub mod mode;
pub mod repo;
