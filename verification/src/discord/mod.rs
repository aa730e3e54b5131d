use vstd::prelude::*;

pub mod threads;
pub mod webhook;

verus! {

} // verus!
