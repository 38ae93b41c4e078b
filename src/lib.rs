//! Summarises a repository through the GitHub REST API: checks the quota,
//! reads the repository's attributes, statistics and languages, then looks for
//! a list of well-known files. The analysis is a state machine: the caller
//! performs each HTTP call it asks for and hands back the answer.
use vstd::prelude::*;

pub mod analysis;
pub mod auth;
pub mod content;
pub mod error;
pub mod model;

verus! {

} // verus!
