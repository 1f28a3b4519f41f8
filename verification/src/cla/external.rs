//! A convergence layer agent that lives outside the node and talks to it
//! through the external convergence layer interface.
use vstd::prelude::*;
use super::ConvergenceLayerAgent;

verus! {

/// An agent known by the name it registered with.
#[derive(Clone, Default)]
pub struct ExternalConvergenceLayer {
    pub name: String,
}

impl ExternalConvergenceLayer {
    /// The agent registered as `name`.
    pub fn new(name: String) -> (r: ExternalConvergenceLayer)
        ensures
            r.name@ == name@,
    {
        ExternalConvergenceLayer { name }
    }
}

impl ConvergenceLayerAgent for ExternalConvergenceLayer {
    fn port(&self) -> (r: u16)
        ensures
            r == 0,
    {
        0
    }

    fn name(&self) -> (r: &str)
        ensures
            r@ == self.name@,
    {
        self.name.as_str()
    }
}

impl ExternalConvergenceLayer {
    /// The agent as text: `external`.
    pub fn to_string(&self) -> (r: String)
        ensures
            r@ == "external"@,
    {
        "external".to_owned()
    }
}

} // verus!
