//! Static peers given as URLs: `agent://address:port/node`.
use vstd::prelude::*;
use vstd::string::StrSliceExecFns;
use std::collections::HashMap;
use crate::bp::eid::{
    EndpointID, EidView, spec_eid_parse, url_parse, url_parts, colon_only_bracketed, dtn_chars,
    sep_chars,
};
use crate::cla::{ConvergenceLayerAgents, spec_agent_from_name};
use crate::text::{string_push, string_push_str, digits_value, decimal_digits, is_decimal_digit};
use super::peer::{DtnPeer, IpAddress, PeerAddress, PeerType};

verus! {

/// The fields of `s` between dots, in order; a text without dots is one
/// field.
pub open spec fn dot_fields(s: Seq<char>) -> Seq<Seq<char>>
    decreases s.len(),
{
    if s.len() == 0 {
        seq![Seq::empty()]
    } else {
        let w = dot_fields(s.drop_last());
        if s.last() == '.' {
            w.push(Seq::empty())
        } else {
            w.update(w.len() - 1, w.last().push(s.last()))
        }
    }
}

proof fn lemma_dot_fields_nonempty(s: Seq<char>)
    ensures
        dot_fields(s).len() >= 1,
    decreases s.len(),
{
    if s.len() > 0 {
        lemma_dot_fields_nonempty(s.drop_last());
    }
}

/// Whether `f` is one number of a dotted-decimal IPv4 address as the
/// standard library reads it: one to three decimal digits, without a
/// leading zero, at most 255.
pub open spec fn octet_text(f: Seq<char>) -> bool {
    &&& decimal_digits(f)
    &&& f.len() <= 3
    &&& (f.len() == 1 || f[0] != '0')
    &&& digits_value(f) <= 255
}

/// The IPv4 address that `s` writes in dotted decimal: four numbers
/// separated by dots; `None` for any other text.
pub open spec fn spec_ipv4_parse(s: Seq<char>) -> Option<Seq<u8>> {
    let f = dot_fields(s);
    if f.len() == 4 && (forall|i: int| 0 <= i < 4 ==> #[trigger] octet_text(f[i])) {
        Some(seq![digits_value(f[0]) as u8, digits_value(f[1]) as u8, digits_value(f[2]) as u8, digits_value(f[3]) as u8])
    } else {
        None
    }
}

pub open spec fn strings_view(v: Seq<String>) -> Seq<Seq<char>> {
    v.map_values(|x: String| x@)
}

fn split_dots(s: &str) -> (r: Vec<String>)
    ensures
        strings_view(r@) == dot_fields(s@),
{
    let mut out: Vec<String> = Vec::new();
    out.push(String::new());
    proof {
        assert(strings_view(out@) =~= dot_fields(s@.take(0)));
    }
    for c in it: s.chars()
        invariant
            it.seq() == s@,
            strings_view(out@) == dot_fields(s@.take(it.index())),
    {
        let ghost i = it.index();
        let ghost t = s@.take(i + 1);
        proof {
            assert(t.drop_last() =~= s@.take(i));
            assert(t.last() == c);
            lemma_dot_fields_nonempty(t.drop_last());
        }
        if c == '.' {
            out.push(String::new());
            proof {
                assert(strings_view(out@) =~= dot_fields(s@.take(i)).push(Seq::empty()));
            }
        } else {
            let ghost before = out@;
            let mut w = out.pop().unwrap();
            string_push(&mut w, c);
            out.push(w);
            proof {
                assert(strings_view(before).len() > 0);
                assert(strings_view(out@) =~= strings_view(before).update(
                    strings_view(before).len() - 1,
                    strings_view(before).last().push(c),
                ));
            }
        }
    }
    assert(s@.take(s@.len() as int) =~= s@);
    out
}

/// The number that `f` writes, where it is one number of an IPv4 address.
fn octet(f: &str) -> (r: Option<u8>)
    ensures
        match r {
            Some(v) => octet_text(f@) && v == digits_value(f@),
            None => !octet_text(f@),
        },
{
    let n = f.unicode_len();
    if n == 0 || n > 3 {
        return None;
    }
    if n > 1 && f.get_char(0) == '0' {
        return None;
    }
    let mut v: u32 = 0;
    let mut i: usize = 0;
    while i < n
        invariant
            n == f@.len(),
            1 <= n <= 3,
            i <= n,
            forall|j: int| 0 <= j < i ==> is_decimal_digit(#[trigger] f@[j]),
            v == digits_value(f@.take(i as int)),
            i == 0 ==> v == 0,
            i == 1 ==> v < 10,
            i == 2 ==> v < 100,
            i == 3 ==> v < 1000,
        decreases n - i,
    {
        let c = f.get_char(i);
        if !('0' <= c && c <= '9') {
            return None;
        }
        proof {
            assert(f@.take(i + 1).drop_last() =~= f@.take(i as int));
        }
        v = v * 10 + (c as u32 - '0' as u32);
        i = i + 1;
    }
    assert(f@.take(n as int) =~= f@);
    if v > 255 {
        None
    } else {
        Some(v as u8)
    }
}

/// The IPv4 address that `s` writes in dotted decimal.
pub fn parse_ipv4(s: &str) -> (r: Option<[u8; 4]>)
    ensures
        match r {
            Some(a) => spec_ipv4_parse(s@) == Some(a@),
            None => spec_ipv4_parse(s@) is None,
        },
{
    let fields = split_dots(s);
    proof {
        assert(strings_view(fields@).len() == fields@.len());
    }
    if fields.len() != 4 {
        return None;
    }
    let ghost f = dot_fields(s@);
    let mut out: [u8; 4] = [0, 0, 0, 0];
    let mut i: usize = 0;
    while i < 4
        invariant
            fields@.len() == 4,
            strings_view(fields@) == f,
            f == dot_fields(s@),
            i <= 4,
            forall|j: int| 0 <= j < i ==> octet_text(#[trigger] f[j]),
            forall|j: int| 0 <= j < i ==> #[trigger] out@[j] == digits_value(f[j]) as u8,
        decreases 4 - i,
    {
        assert(strings_view(fields@)[i as int] == fields@[i as int]@);
        match octet(fields[i].as_str()) {
            Some(v) => {
                out.set(i, v);
            },
            None => {
                return None;
            },
        }
        i = i + 1;
    }
    assert(out@[0] == digits_value(f[0]) as u8 && out@[1] == digits_value(f[1]) as u8);
    assert(out@[2] == digits_value(f[2]) as u8 && out@[3] == digits_value(f[3]) as u8);
    assert(forall|j: int| 0 <= j < 4 ==> #[trigger] octet_text(f[j]));
    assert(out@ =~= seq![digits_value(f[0]) as u8, digits_value(f[1]) as u8, digits_value(f[2]) as u8, digits_value(f[3]) as u8]);
    Some(out)
}

/// `p` without its slashes.
pub open spec fn remove_slashes(p: Seq<char>) -> Seq<char>
    decreases p.len(),
{
    if p.len() == 0 {
        Seq::empty()
    } else {
        remove_slashes(p.drop_last()) + if p.last() == '/' {
            Seq::<char>::empty()
        } else {
            seq![p.last()]
        }
    }
}

/// The URI of the node that a peer URL's path names: `dtn://` and the path
/// without its slashes.
pub open spec fn peer_node_text(path: Seq<char>) -> Seq<char> {
    dtn_chars() + sep_chars() + remove_slashes(path)
}

/// What a static peer URL gives: its agent, its port, its IPv4 address and
/// its node's endpoint. `None` where the URL does not parse, its scheme is
/// no agent, it has no host, its path is empty or `/`, the path gives no
/// endpoint, or the host is no address. The standard library reads an
/// address from a host text as IPv4 dotted decimal or IPv6; a host of a
/// parsed URL holds `:` only in brackets, which neither form accepts, so
/// of such hosts exactly the dotted-decimal ones are addresses.
pub open spec fn spec_peer_url(s: Seq<char>) -> Option<(ConvergenceLayerAgents, Option<u16>, Seq<u8>, EidView)> {
    match url_parse(s) {
        None => None,
        Some((scheme, host, port, path)) => match (spec_agent_from_name(scheme), host) {
            (Some(a), Some(h)) => if path.len() == 0 || path == seq!['/'] {
                None
            } else {
                match (spec_eid_parse(peer_node_text(path)), spec_ipv4_parse(h)) {
                    (Some(e), Some(ip)) => Some((a, port, ip, e)),
                    _ => None,
                }
            },
            _ => None,
        },
    }
}

fn without_slashes(p: &str) -> (r: String)
    ensures
        r@ == remove_slashes(p@),
{
    let mut out = String::new();
    for c in it: p.chars()
        invariant
            it.seq() == p@,
            out@ == remove_slashes(p@.take(it.index())),
    {
        let ghost i = it.index();
        proof {
            assert(p@.take(i + 1).drop_last() =~= p@.take(i));
        }
        if c != '/' {
            string_push(&mut out, c);
        }
        proof {
            assert(out@ =~= remove_slashes(p@.take(i + 1)));
        }
    }
    assert(p@.take(p@.len() as int) =~= p@);
    out
}

/// The static peer that `peer_url` describes, as `agent://address:port/node`,
/// last seen at `now`: its node's `dtn` endpoint, its IPv4 address, the one
/// agent with the URL's port, no beacon period and no services. `None`
/// where the URL describes no such peer.
pub fn parse_peer_url(peer_url: &str, now: u64) -> (r: Option<DtnPeer>)
    ensures
        match spec_peer_url(peer_url@) {
            None => r is None,
            Some((a, port, ip, e)) => r matches Some(p) && {
                &&& p.eid@ == e
                &&& p.addr matches PeerAddress::Ip(IpAddress::V4(x)) && x@ == ip
                &&& p.con_type == PeerType::Static
                &&& p.period is None
                &&& p.cla_list@ == seq![(a, port)]
                &&& p.services@ == Map::<u8, String>::empty()
                &&& p.last_contact == now
            },
        },
{
    let parts = url_parts(peer_url);
    let (scheme, host, port, path) = match parts {
        None => return None,
        Some(t) => t,
    };
    let agent = match ConvergenceLayerAgents::from_str(scheme.as_str()) {
        Ok(a) => a,
        Err(_) => return None,
    };
    let h = match host {
        None => return None,
        Some(h) => h,
    };
    let n = path.as_str().unicode_len();
    if n == 0 || (n == 1 && path.as_str().get_char(0) == '/') {
        proof {
            if n == 1 {
                assert(path@ =~= seq!['/']);
            }
        }
        return None;
    }
    proof {
        if path@ == seq!['/'] {
            assert(path@[0] == '/');
        }
    }
    let node = without_slashes(path.as_str());
    let mut text = "dtn".to_owned();
    string_push_str(&mut text, "://");
    string_push_str(&mut text, node.as_str());
    proof {
        reveal_strlit("dtn");
        reveal_strlit("://");
        assert(text@ =~= peer_node_text(path@));
    }
    let eid = match EndpointID::try_from(text) {
        None => return None,
        Some(e) => e,
    };
    let ip = match parse_ipv4(h.as_str()) {
        None => return None,
        Some(ip) => ip,
    };
    let mut cla_list: Vec<(ConvergenceLayerAgents, Option<u16>)> = Vec::new();
    cla_list.push((agent, port));
    assert(cla_list@ =~= seq![(agent, port)]);
    Some(
        DtnPeer::new(
            eid,
            PeerAddress::Ip(IpAddress::V4(ip)),
            PeerType::Static,
            None,
            cla_list,
            HashMap::new(),
            now,
        ),
    )
}

} // verus!
