use vstd::prelude::*;

pub mod config;
pub mod platform;
pub mod thumbnail;
pub mod token;
pub mod upload;

verus! {

} // verus!
