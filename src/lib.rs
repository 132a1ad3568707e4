use vstd::prelude::*;

pub mod api;
pub mod errors;
pub mod models;
pub mod text;

verus! {

} // verus!
