use vstd::prelude::*;

pub mod error;
pub mod task;
pub mod store;
pub mod laws;
pub mod migration;
pub mod window;

verus! {

} // verus!
