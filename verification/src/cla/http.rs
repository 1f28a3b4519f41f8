//! The HTTP convergence layer agent, which pushes bundles to the web
//! interface of its peers.
use vstd::prelude::*;
use super::ConvergenceLayerAgent;

verus! {

/// The HTTP agent and the port of the local web interface.
#[derive(Debug, Clone, Copy, Default)]
pub struct HttpConvergenceLayer {
    pub counter: u64,
    pub local_port: u16,
}

impl HttpConvergenceLayer {
    /// An agent on `port`, or on `web_port`, the port of the node's web
    /// interface in its configuration, where none is given.
    pub fn new(port: Option<u16>, web_port: u16) -> (r: HttpConvergenceLayer)
        ensures
            r.counter == 0,
            r.local_port == match port {
                Some(p) => p,
                None => web_port,
            },
    {
        HttpConvergenceLayer {
            counter: 0,
            local_port: match port {
                Some(p) => p,
                None => web_port,
            },
        }
    }
}

impl ConvergenceLayerAgent for HttpConvergenceLayer {
    fn port(&self) -> (r: u16)
        ensures
            r == self.local_port,
    {
        self.local_port
    }

    fn name(&self) -> (r: &str)
        ensures
            r@ == seq!['h', 't', 't', 'p'],
    {
        proof {
            reveal_strlit("http");
        }
        "http"
    }
}

impl HttpConvergenceLayer {
    /// The agent as text: `http:` and its local port.
    pub fn to_string(&self) -> (r: String)
        ensures
            r@ == "http:"@ + crate::text::decimal(self.local_port as nat),
    {
        let mut r = "http:".to_owned();
        crate::text::push_decimal(&mut r, self.local_port as u64);
        r
    }
}

} // verus!
