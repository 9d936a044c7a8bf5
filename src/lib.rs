//! A bearer-token gate in front of a single HTTP backend: the verification
//! decisions, the forwarding transformations and the CORS policy, each with
//! its contract.
use vstd::prelude::*;

pub mod cors;
pub mod forward;
pub mod gate;
pub mod token;

verus! {

} // verus!
