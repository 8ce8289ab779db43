//! The agents: the wrapper around `aider`, and the data the agents share.
pub mod aider;
pub mod impl_agent;
pub mod plan_agent;
pub mod state;

use crate::error::Error;
use vstd::prelude::*;

verus! {

/// A unit of work that turns an input into an output.
pub trait Agent {
    type Input;
    type Output;

    fn run(&self, input: Self::Input) -> Result<Self::Output, Error>;
}

} // verus!
