//! Query and control logic for the COSMIC desktop: selector resolution,
//! JSON models of workspaces, windows and outputs, the monitor event diff,
//! capture pixel handling and the decisions behind every command.

use vstd::prelude::*;

pub mod seqs;
pub mod text;
pub mod types;
pub mod sort;
pub mod state;
pub mod capture;
pub mod workspaces;
pub mod toplevels;
pub mod output;
pub mod monitor;
pub mod human;
pub mod input;
pub mod cli;
pub mod mcp;

pub use types::{Error, OutputFormat};

verus! {

} // verus!
