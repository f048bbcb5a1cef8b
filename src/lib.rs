//! A single-endpoint on/off device: its startup policy, its state controller,
//! the descriptor tree that declares its clusters, and the router that
//! dispatches decoded invocations to them.
use vstd::prelude::*;

pub mod controller;
pub mod descriptor;
pub mod policy;
pub mod router;

verus! {

} // verus!
