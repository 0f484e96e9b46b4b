use vstd::prelude::*;

pub mod text;
pub mod json;
pub mod error;
pub mod config;
pub mod sources;
pub mod model;
pub mod providers;
pub mod mcp;
pub mod cli;

verus! {
}
