//! A verified core of a disruption-tolerant networking node: Bundle Protocol
//! version 7 blocks and endpoint identifiers, the framing of the TCP
//! convergence layers, the IP neighbourhood discovery service block and the
//! bookkeeping around convergence layer agents.
use vstd::prelude::*;

pub mod assoc;
pub mod bp;
pub mod cla;
pub mod client;
pub mod config;
pub mod dtnd;
pub mod node;
pub mod ipnd;
pub mod octets;
pub mod text;

verus! {

} // verus!
