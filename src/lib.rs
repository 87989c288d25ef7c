use vstd::prelude::*;

pub mod error;
pub mod geometry;
pub mod input;
pub mod sprite;
pub mod states;

verus! {

} // verus!
