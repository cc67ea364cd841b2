use vstd::prelude::*;

pub mod error;
pub mod graph;
pub mod operator_options;
pub mod operators;
pub mod backends;
pub mod converters;
pub mod text;
pub mod shape_inference;

verus! {

} // verus!
