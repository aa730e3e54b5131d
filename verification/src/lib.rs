use vstd::prelude::*;

pub mod arith;
pub mod cli;
pub mod config;
pub mod decimal;
pub mod discord;
pub mod json;
pub mod monitoring;
pub mod paths;
pub mod pattern;
pub mod platform;
pub mod startup;
pub mod stream;
pub mod template;
pub mod strings;
pub mod text;
pub mod types;
pub mod unicode;
pub mod uploaders;
pub mod utils;

verus! {

} // verus!
