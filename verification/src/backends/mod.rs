use vstd::prelude::*;

pub mod cann;
pub mod layout4;
pub mod litert;
pub mod litert_graph;

verus! {

} // verus!
