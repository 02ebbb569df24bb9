//! Turns a snapshot of pending repository changes and a proposed commit plan
//! into verified staging and commit decisions.
pub mod text;
pub mod config;
pub mod types;
pub mod semantic;
pub mod diff_text;
pub mod hash;
pub mod git;
pub mod apply;
pub mod schema;
pub mod cli;
pub mod llm;
pub mod report;

use vstd::prelude::*;

verus! {

/// Version tag carried by every wire payload.
pub const SCHEMA_VERSION: &'static str = "v1";

} // verus!
