use vstd::prelude::*;

pub mod duration;
pub mod duration_laws;
pub mod file_size_laws;
pub mod file_size;

verus! {

} // verus!
