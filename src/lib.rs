//! Configuration layer of a streaming Random Cut Forest: the forest's options,
//! their checks, and the plan by which the engine's builder is configured.
use vstd::prelude::*;

pub mod error;
pub mod options;

verus! {

} // verus!
