use vstd::prelude::*;

pub mod api;
pub mod encoding;
pub mod messages;
pub mod monitor;
pub mod postprocess;
pub mod recording;
pub mod types;

verus! {

} // verus!
