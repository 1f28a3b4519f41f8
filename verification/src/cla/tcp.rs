//! The TCP convergence layer agent (TCPCLv4).
use vstd::prelude::*;
use super::ConvergenceLayerAgent;
use super::tcpcl::{SessInitData, TcpClPacket, TcpClError};

verus! {

/// The TCPCL agent: its port and what the peer announced in its session
/// initialisation.
#[derive(Debug, Clone)]
pub struct TcpConvergenceLayer {
    pub counter: u64,
    pub local_port: u16,
    pub remote_config: SessInitData,
}

impl TcpConvergenceLayer {
    /// An agent on `port`, or on 4556 where none is given, expecting a
    /// keepalive of 30 seconds and segments and transfers of up to 64000
    /// bytes until the peer says otherwise.
    pub fn new(port: Option<u16>) -> (r: TcpConvergenceLayer)
        ensures
            r.counter == 0,
            r.local_port == match port {
                Some(p) => p,
                None => 4556u16,
            },
            r.remote_config.keepalive == 30,
            r.remote_config.segment_mru == 64000,
            r.remote_config.transfer_mru == 64000,
            r.remote_config.node_id@ == Seq::<char>::empty(),
    {
        proof {
            reveal_strlit("");
        }
        TcpConvergenceLayer {
            counter: 0,
            local_port: match port {
                Some(p) => p,
                None => 4556,
            },
            remote_config: SessInitData {
                keepalive: 30,
                segment_mru: 64000,
                transfer_mru: 64000,
                node_id: "".to_owned(),
            },
        }
    }
}

impl ConvergenceLayerAgent for TcpConvergenceLayer {
    fn port(&self) -> (r: u16)
        ensures
            r == self.local_port,
    {
        self.local_port
    }

    fn name(&self) -> (r: &str)
        ensures
            r@ == seq!['t', 'c', 'p'],
    {
        proof {
            reveal_strlit("tcp");
        }
        "tcp"
    }
}

/// The phases of a TCPCL session.
#[derive(Debug, Clone, Copy, PartialEq, Eq, Structural)]
pub enum State {
    Unconnected,
    Setup,
    Idle,
    Sending,
    Receiving,
    Teardown,
    Disconnected,
}

/// What an established session keeps between packets: its phase, the
/// transfer in progress, the lengths still to be acknowledged and whether
/// all segments of the transfer went out.
#[derive(Debug)]
pub struct Session {
    pub state: State,
    pub active_tid: Option<u64>,
    pub ack_sizes: Vec<u64>,
    pub all_sent: bool,
}

/// What the session does after reading from the peer.
#[derive(Debug, Clone, Copy, PartialEq, Eq, Structural)]
pub enum SessionStep {
    /// Wait for more bytes: the buffer holds no whole message yet.
    ReadMore,
    /// Go on with the next message.
    Continue,
    /// End the session.
    Disconnect,
}

/// Whether the session has a rule for the outcome `event` of parsing the
/// peer's bytes. It has none (and gives up) for session termination,
/// transfer refusal, message rejection, data segments, and for an
/// acknowledgement outside a transfer it is sending or that does not match
/// the transfer and the next expected length.
pub open spec fn session_handles(s: Session, event: Result<TcpClPacket, TcpClError>) -> bool {
    match event {
        Err(_) => true,
        Ok(TcpClPacket::KeepAlive) => true,
        Ok(TcpClPacket::SessInit(_)) => true,
        Ok(TcpClPacket::XferAck(d)) => s.state == State::Sending && s.ack_sizes@.len() > 0
            && s.active_tid == Some(d.tid) && s.ack_sizes@[0] == d.len,
        _ => false,
    }
}

/// The step the session takes on `event`.
pub open spec fn spec_session_step(event: Result<TcpClPacket, TcpClError>) -> SessionStep {
    match event {
        Err(TcpClError::NotEnoughBytesReceived) => SessionStep::ReadMore,
        Err(_) => SessionStep::Disconnect,
        Ok(TcpClPacket::KeepAlive) => SessionStep::Continue,
        Ok(TcpClPacket::XferAck(_)) => SessionStep::Continue,
        _ => SessionStep::Disconnect,
    }
}

impl Session {
    /// An idle session, with no transfer in progress.
    pub fn new() -> (r: Session)
        ensures
            r.state == State::Idle,
            r.active_tid is None,
            r.ack_sizes@.len() == 0,
            !r.all_sent,
    {
        Session { state: State::Idle, active_tid: None, ack_sizes: Vec::new(), all_sent: false }
    }

    /// The step after the outcome `event` of parsing the peer's bytes: wait
    /// for more bytes, go on, or end the session on a parse error or a
    /// message that does not belong in an established session. An
    /// acknowledgement of the next expected length of the transfer being
    /// sent leaves the session as it is.
    pub fn step(&mut self, event: &Result<TcpClPacket, TcpClError>) -> (r: SessionStep)
        requires
            session_handles(*old(self), *event),
        ensures
            r == spec_session_step(*event),
            final(self).state == old(self).state,
            final(self).active_tid == old(self).active_tid,
            final(self).ack_sizes@ == old(self).ack_sizes@,
            final(self).all_sent == old(self).all_sent,
    {
        match event {
            Err(TcpClError::NotEnoughBytesReceived) => SessionStep::ReadMore,
            Err(_) => SessionStep::Disconnect,
            Ok(TcpClPacket::KeepAlive) => SessionStep::Continue,
            Ok(TcpClPacket::XferAck(_)) => SessionStep::Continue,
            Ok(_) => SessionStep::Disconnect,
        }
    }
}

impl TcpConvergenceLayer {
    /// The agent as text: `tcp`.
    pub fn to_string(&self) -> (r: String)
        ensures
            r@ == "tcp"@,
    {
        "tcp".to_owned()
    }
}

} // verus!
