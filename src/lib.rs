use vstd::prelude::*;

pub mod api;
pub mod json;
pub mod monitor;
pub mod persistence;
pub mod time;
pub mod util;

verus! {

} // verus!
