use vstd::prelude::*;

pub mod conditioner;
pub mod capture;
pub mod device;
pub mod transcription;
pub mod orchestrator;

verus! {

} // verus!
