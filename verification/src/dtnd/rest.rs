//! The daemon's REST interface: which local endpoint a request's path
//! names, and what registering, unregistering and fetching from that
//! endpoint do to the node's core.
use vstd::prelude::*;
use crate::bp::eid::{EndpointID, spec_eid_parse, eid_opt_view, dtn_chars, sep_chars};
use crate::node::application_agent::{DtnCore, SimpleApplicationAgent, first_agent, lemma_first_agent_found};
use crate::text::{string_push, string_push_str, str_all_alphanumeric, all_alphanumeric};

verus! {

/// The URI of the endpoint `path` under the node `nodeid`:
/// `dtn://nodeid/path`.
pub open spec fn local_endpoint_text(nodeid: Seq<char>, path: Seq<char>) -> Seq<char> {
    dtn_chars() + sep_chars() + nodeid + seq!['/'] + path
}

/// The answer to a path that is not all alphanumeric.
pub open spec fn malformed_path_message() -> Seq<char> {
    "Malformed endpoint path, only alphanumeric strings allowed!"@
}

/// The answer to a request for an endpoint that no agent serves.
pub open spec fn unknown_endpoint_message() -> Seq<char> {
    "No such endpoint registered!"@
}

/// The answer to a request for a bundle where none waits.
pub open spec fn nothing_to_receive_message() -> Seq<char> {
    "Nothing to receive"@
}

/// The local endpoint that a request's `path` names under the node
/// `nodeid`: its URI, and the endpoint where that URI names one. A path
/// that is not all alphanumeric is refused.
pub fn local_endpoint(nodeid: &str, path: &str) -> (r: Result<(String, Option<EndpointID>), String>)
    ensures
        match r {
            Ok(p) => {
                &&& all_alphanumeric(path@)
                &&& p.0@ == local_endpoint_text(nodeid@, path@)
                &&& eid_opt_view(p.1) == spec_eid_parse(p.0@)
            },
            Err(m) => !all_alphanumeric(path@) && m@ == malformed_path_message(),
        },
{
    if !str_all_alphanumeric(path) {
        return Err("Malformed endpoint path, only alphanumeric strings allowed!".to_owned());
    }
    let mut text = "dtn".to_owned();
    string_push_str(&mut text, "://");
    string_push_str(&mut text, nodeid);
    string_push(&mut text, '/');
    string_push_str(&mut text, path);
    proof {
        reveal_strlit("dtn");
        reveal_strlit("://");
        assert(text@ =~= local_endpoint_text(nodeid@, path@));
    }
    let eid = EndpointID::try_from(text.clone());
    Ok((text, eid))
}

/// Registers an agent for the endpoint `eid`, whose URI is `text`, after
/// those registered before, and answers `Registered` with the URI.
pub fn register<D>(core: &mut DtnCore<D>, text: &str, eid: EndpointID) -> (r: String)
    ensures
        final(core).endpoints@.len() == old(core).endpoints@.len() + 1,
        final(core).endpoints@.drop_last() == old(core).endpoints@,
        final(core).endpoints@.last()@.eid == eid@,
        final(core).endpoints@.last()@.bundles.len() == 0,
        final(core).endpoints@.last()@.delivery is None,
        r@ == "Registered "@ + text@,
{
    core.register_application_agent(SimpleApplicationAgent::with(eid));
    proof {
        assert(final(core).endpoints@.drop_last() =~= old(core).endpoints@);
    }
    let mut r = "Registered ".to_owned();
    string_push_str(&mut r, text);
    r
}

/// Removes the first agent of the endpoint `eid`, whose URI is `text`, if
/// there is one, and answers `Unregistered` with the URI.
pub fn unregister<D>(core: &mut DtnCore<D>, text: &str, eid: &EndpointID) -> (r: String)
    ensures
        match first_agent(old(core).endpoints@, eid@) {
            Some(i) => final(core).endpoints@ == old(core).endpoints@.remove(i),
            None => final(core).endpoints@ == old(core).endpoints@,
        },
        r@ == "Unregistered "@ + text@,
{
    core.unregister_application_agent(eid);
    let mut r = "Unregistered ".to_owned();
    string_push_str(&mut r, text);
    r
}

/// Takes the oldest bundle waiting for the endpoint `eid` out of the first
/// agent that serves it. Refused where no agent serves the endpoint or no
/// bundle waits; then nothing changes.
pub fn endpoint<D>(core: &mut DtnCore<D>, eid: &EndpointID) -> (r: Result<bp7::Bundle, String>)
    ensures
        match first_agent(old(core).endpoints@, eid@) {
            None => {
                &&& r matches Err(m) && m@ == unknown_endpoint_message()
                &&& final(core).endpoints@ == old(core).endpoints@
            },
            Some(i) => if old(core).endpoints@[i]@.bundles.len() == 0 {
                &&& r matches Err(m) && m@ == nothing_to_receive_message()
                &&& final(core).endpoints@ == old(core).endpoints@.update(i, final(core).endpoints@[i])
                &&& final(core).endpoints@[i]@ == old(core).endpoints@[i]@
            } else {
                &&& r == Ok::<bp7::Bundle, String>(old(core).endpoints@[i]@.bundles[0])
                &&& final(core).endpoints@ == old(core).endpoints@.update(i, final(core).endpoints@[i])
                &&& final(core).endpoints@[i]@.eid == old(core).endpoints@[i]@.eid
                &&& final(core).endpoints@[i]@.delivery == old(core).endpoints@[i]@.delivery
                &&& final(core).endpoints@[i]@.bundles == old(core).endpoints@[i]@.bundles.drop_first()
            },
        },
{
    proof {
        lemma_first_agent_found(core.endpoints@, eid@);
    }
    match core.get_endpoint_mut(eid) {
        Some(aa) => match aa.pop() {
            Some(b) => Ok(b),
            None => Err("Nothing to receive".to_owned()),
        },
        None => Err("No such endpoint registered!".to_owned()),
    }
}

} // verus!
