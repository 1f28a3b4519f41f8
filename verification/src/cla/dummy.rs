//! A convergence layer agent that sends nothing, for tests and setups
//! without a network.
use vstd::prelude::*;
use super::ConvergenceLayerAgent;

verus! {

/// The agent that accepts every submission and sends nothing.
#[derive(Debug, Clone, Copy, Default)]
pub struct DummyConvergenceLayer {
    pub counter: u64,
}

impl DummyConvergenceLayer {
    /// A fresh agent.
    pub fn new() -> (r: DummyConvergenceLayer)
        ensures
            r.counter == 0,
    {
        DummyConvergenceLayer { counter: 0 }
    }

    /// Accepts the bundles for `dest` without sending them: the submission
    /// always succeeds.
    pub fn scheduled_submission(&self, dest: &str, ready: &[Vec<u8>]) -> (r: bool)
        ensures
            r,
    {
        true
    }
}

impl ConvergenceLayerAgent for DummyConvergenceLayer {
    fn port(&self) -> (r: u16)
        ensures
            r == 0,
    {
        0
    }

    fn name(&self) -> (r: &str)
        ensures
            r@ == seq!['d', 'u', 'm', 'm', 'y'],
    {
        proof {
            reveal_strlit("dummy");
        }
        "dummy"
    }
}

impl DummyConvergenceLayer {
    /// The agent as text: `dummy`.
    pub fn to_string(&self) -> (r: String)
        ensures
            r@ == "dummy"@,
    {
        "dummy".to_owned()
    }
}

} // verus!
