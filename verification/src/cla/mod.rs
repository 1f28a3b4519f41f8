//! Convergence layer agents: the kinds a node knows, and the framing and
//! session rules of the TCP-based ones.
use vstd::prelude::*;
use crate::text::string_push_str;

pub mod dummy;
pub mod dummy_cl;
pub mod external;
pub mod http;
pub mod mtcp;
pub mod tcp;
pub mod tcpcl;

verus! {

/// What every convergence layer agent tells about itself.
pub trait ConvergenceLayerAgent {
    /// The local port it listens on (0 where it listens on none).
    fn port(&self) -> u16;

    /// Its short name.
    fn name(&self) -> &str;
}

/// The kinds of convergence layer agent.
#[derive(Debug, Clone, Copy, PartialEq, Eq, Structural, Hash)]
pub enum ConvergenceLayerAgents {
    DummyConvergenceLayer,
    MtcpConvergenceLayer,
    HttpConvergenceLayer,
    TcpConvergenceLayer,
}

/// The short name of each kind.
pub open spec fn agent_name(a: ConvergenceLayerAgents) -> Seq<char> {
    match a {
        ConvergenceLayerAgents::DummyConvergenceLayer => seq!['d', 'u', 'm', 'm', 'y'],
        ConvergenceLayerAgents::MtcpConvergenceLayer => seq!['m', 't', 'c', 'p'],
        ConvergenceLayerAgents::HttpConvergenceLayer => seq!['h', 't', 't', 'p'],
        ConvergenceLayerAgents::TcpConvergenceLayer => seq!['t', 'c', 'p'],
    }
}

/// The kinds in the order of their declaration.
pub open spec fn all_agents() -> Seq<ConvergenceLayerAgents> {
    seq![
        ConvergenceLayerAgents::DummyConvergenceLayer,
        ConvergenceLayerAgents::MtcpConvergenceLayer,
        ConvergenceLayerAgents::HttpConvergenceLayer,
        ConvergenceLayerAgents::TcpConvergenceLayer,
    ]
}

/// The kind that `s` names, if any.
pub open spec fn spec_agent_from_name(s: Seq<char>) -> Option<ConvergenceLayerAgents> {
    if s == agent_name(ConvergenceLayerAgents::DummyConvergenceLayer) {
        Some(ConvergenceLayerAgents::DummyConvergenceLayer)
    } else if s == agent_name(ConvergenceLayerAgents::MtcpConvergenceLayer) {
        Some(ConvergenceLayerAgents::MtcpConvergenceLayer)
    } else if s == agent_name(ConvergenceLayerAgents::HttpConvergenceLayer) {
        Some(ConvergenceLayerAgents::HttpConvergenceLayer)
    } else if s == agent_name(ConvergenceLayerAgents::TcpConvergenceLayer) {
        Some(ConvergenceLayerAgents::TcpConvergenceLayer)
    } else {
        None
    }
}

/// The message for a name that is no kind's.
pub open spec fn unknown_agent_message(s: Seq<char>) -> Seq<char> {
    "Unknown convergence layer agent agent "@ + s
}

pub open spec fn agent_result_view(r: Result<ConvergenceLayerAgents, String>) -> Result<
    ConvergenceLayerAgents,
    Seq<char>,
> {
    match r {
        Ok(a) => Ok(a),
        Err(e) => Err(e@),
    }
}

/// The names of all kinds, each followed by a comma and a space.
pub open spec fn help_text(agents: Seq<ConvergenceLayerAgents>) -> Seq<char>
    decreases agents.len(),
{
    if agents.len() == 0 {
        Seq::empty()
    } else {
        help_text(agents.drop_last()) + agent_name(agents.last()) + seq![',', ' ']
    }
}

/// Every kind is found again under its name: `from_str` of `name` gives
/// the kind back.
pub proof fn law_agent_name_roundtrip(a: ConvergenceLayerAgents)
    ensures
        spec_agent_from_name(agent_name(a)) == Some(a),
{
    assert(agent_name(ConvergenceLayerAgents::MtcpConvergenceLayer) != agent_name(
        ConvergenceLayerAgents::DummyConvergenceLayer,
    ));
    assert(agent_name(ConvergenceLayerAgents::HttpConvergenceLayer) != agent_name(
        ConvergenceLayerAgents::DummyConvergenceLayer,
    ));
    assert(agent_name(ConvergenceLayerAgents::HttpConvergenceLayer) != agent_name(
        ConvergenceLayerAgents::MtcpConvergenceLayer,
    ));
    assert(agent_name(ConvergenceLayerAgents::TcpConvergenceLayer) != agent_name(
        ConvergenceLayerAgents::DummyConvergenceLayer,
    ));
    assert(agent_name(ConvergenceLayerAgents::TcpConvergenceLayer) != agent_name(
        ConvergenceLayerAgents::MtcpConvergenceLayer,
    ));
    assert(agent_name(ConvergenceLayerAgents::TcpConvergenceLayer) != agent_name(
        ConvergenceLayerAgents::HttpConvergenceLayer,
    ));
}

impl ConvergenceLayerAgents {
    /// The short name of this kind.
    pub fn name(self) -> (r: &'static str)
        ensures
            r@ == agent_name(self),
    {
        proof {
            reveal_strlit("dummy");
            reveal_strlit("mtcp");
            reveal_strlit("http");
            reveal_strlit("tcp");
        }
        match self {
            ConvergenceLayerAgents::DummyConvergenceLayer => "dummy",
            ConvergenceLayerAgents::MtcpConvergenceLayer => "mtcp",
            ConvergenceLayerAgents::HttpConvergenceLayer => "http",
            ConvergenceLayerAgents::TcpConvergenceLayer => "tcp",
        }
    }

    /// The kind that `s` names; an error message for any other text.
    pub fn from_str(s: &str) -> (r: Result<ConvergenceLayerAgents, String>)
        ensures
            agent_result_view(r) == match spec_agent_from_name(s@) {
                Some(a) => Ok(a),
                None => Err(unknown_agent_message(s@)),
            },
    {
        let text = s.to_owned();
        let all = [
            ConvergenceLayerAgents::DummyConvergenceLayer,
            ConvergenceLayerAgents::MtcpConvergenceLayer,
            ConvergenceLayerAgents::HttpConvergenceLayer,
            ConvergenceLayerAgents::TcpConvergenceLayer,
        ];
        let mut i: usize = 0;
        while i < 4
            invariant
                0 <= i <= 4,
                all@ == all_agents(),
                text@ == s@,
                forall|j: int| 0 <= j < i ==> s@ != agent_name(#[trigger] all_agents()[j]),
            decreases 4 - i,
        {
            let a = all[i];
            if text == a.name().to_owned() {
                return Ok(a);
            }
            i = i + 1;
        }
        assert(s@ != agent_name(all_agents()[0]));
        assert(s@ != agent_name(all_agents()[1]));
        assert(s@ != agent_name(all_agents()[2]));
        assert(s@ != agent_name(all_agents()[3]));
        let mut message = "Unknown convergence layer agent agent ".to_owned();
        string_push_str(&mut message, s);
        Err(message)
    }

    /// The kind that `s` names; `s` must name one.
    pub fn from(s: &str) -> (r: ConvergenceLayerAgents)
        requires
            spec_agent_from_name(s@) is Some,
        ensures
            spec_agent_from_name(s@) == Some(r),
    {
        match Self::from_str(s) {
            Ok(a) => a,
            Err(_) => {
                assert(false);
                ConvergenceLayerAgents::DummyConvergenceLayer
            },
        }
    }

    /// The names of all kinds, for a help text.
    pub fn enumerate_help_str() -> (r: String)
        ensures
            r@ == help_text(all_agents()),
    {
        let all = [
            ConvergenceLayerAgents::DummyConvergenceLayer,
            ConvergenceLayerAgents::MtcpConvergenceLayer,
            ConvergenceLayerAgents::HttpConvergenceLayer,
            ConvergenceLayerAgents::TcpConvergenceLayer,
        ];
        let mut text = String::new();
        let mut i: usize = 0;
        while i < 4
            invariant
                0 <= i <= 4,
                all@ == all_agents(),
                text@ == help_text(all_agents().take(i as int)),
            decreases 4 - i,
        {
            string_push_str(&mut text, all[i].name());
            string_push_str(&mut text, ", ");
            proof {
                reveal_strlit(", ");
                assert(all_agents().take(i + 1).drop_last() =~= all_agents().take(i as int));
            }
            i = i + 1;
        }
        assert(all_agents().take(4) =~= all_agents());
        text
    }
}

impl std::str::FromStr for ConvergenceLayerAgents {
    type Err = String;

    fn from_str(s: &str) -> (r: Result<ConvergenceLayerAgents, String>)
        ensures
            agent_result_view(r) == match spec_agent_from_name(s@) {
                Some(a) => Ok(a),
                None => Err(unknown_agent_message(s@)),
            },
    {
        ConvergenceLayerAgents::from_str(s)
    }
}

} // verus!
