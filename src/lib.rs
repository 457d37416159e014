use vstd::prelude::*;

pub mod card;
pub mod odds;
pub mod trend;

verus! {

} // verus!
