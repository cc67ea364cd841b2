use vstd::prelude::*;

pub mod cann;

verus! {

} // verus!
