//! The daemon's configuration: defaults, the values a configuration file
//! may set, and how they are applied.
use vstd::prelude::*;
use crate::bp::eid::{EndpointID, EidView, spec_eid_parse, eid_opt_view};
use crate::cla::{ConvergenceLayerAgents, spec_agent_from_name};
use crate::node::peer::DtnPeer;
use crate::text::{decimal, push_decimal, string_push, string_push_str, spec_parse_u64, str_parse_u64};

verus! {

/// The seconds and nanoseconds of the duration that
/// `humantime::parse_duration` reads from `s`, or `None` where it reads none.
pub uninterp spec fn humantime_duration(s: Seq<char>) -> Option<(u64, u32)>;

/// Calls `humantime::parse_duration` and reads the seconds and the
/// nanoseconds of the duration; they are the ones named by
/// `humantime_duration`. Claimed besides, as `Duration` documents: the
/// nanoseconds are fewer than a second's.
#[verifier::external_body]
fn parse_duration_parts(s: &str) -> (r: Option<(u64, u32)>)
    ensures
        r == humantime_duration(s@),
        r matches Some(p) ==> p.1 < 1_000_000_000,
{
    match humantime::parse_duration(s) {
        Ok(d) => Some((d.as_secs(), d.subsec_nanos())),
        Err(_) => None,
    }
}

/// An interval text of the configuration in milliseconds: the duration
/// that humantime reads from it, cut to whole milliseconds and held at the
/// largest `u64`; zero where the text is no duration.
pub open spec fn spec_interval_ms(t: Seq<char>) -> u64 {
    match humantime_duration(t) {
        Some((secs, nanos)) => if secs * 1000 + nanos / 1_000_000 > u64::MAX {
            u64::MAX
        } else {
            (secs * 1000 + nanos / 1_000_000) as u64
        },
        None => 0,
    }
}

/// The interval that the text `t` gives, in milliseconds.
pub fn interval_ms(t: &str) -> (r: u64)
    ensures
        r == spec_interval_ms(t@),
{
    match parse_duration_parts(t) {
        Some((secs, nanos)) => {
            let ms_of_nanos: u64 = (nanos / 1_000_000) as u64;
            if secs > (u64::MAX - ms_of_nanos) / 1000 {
                u64::MAX
            } else {
                secs * 1000 + ms_of_nanos
            }
        },
        None => 0,
    }
}

/// The daemon's configuration. Intervals and timeouts are in milliseconds.
#[derive(Debug)]
pub struct DtnConfig {
    pub debug: bool,
    pub v4: bool,
    pub v6: bool,
    pub nodeid: String,
    pub host_eid: EndpointID,
    pub webport: u16,
    pub announcement_interval: u64,
    pub janitor_interval: u64,
    pub endpoints: Vec<String>,
    pub clas: Vec<String>,
    pub routing: String,
    pub peer_timeout: u64,
    pub statics: Vec<DtnPeer>,
}

/// The values a configuration file set, each `None` where the file does not
/// set it. Intervals are the file's texts (such as `10s` or `2m`); one that
/// cannot be read as a duration counts as zero. Static peers come already
/// read from their URLs.
#[derive(Debug)]
pub struct ConfigSettings {
    pub debug: Option<bool>,
    pub ipv4: Option<bool>,
    pub ipv6: Option<bool>,
    pub nodeid: Option<String>,
    pub routing: Option<String>,
    pub webport: Option<i64>,
    pub janitor_interval: Option<String>,
    pub announcement_interval: Option<String>,
    pub peer_timeout: Option<String>,
    pub statics: Vec<DtnPeer>,
    pub endpoints: Vec<String>,
    /// Each agent's identifier and the port it is given, if any.
    pub clas: Vec<(String, Option<i64>)>,
}

/// `dtn://` followed by the node's name.
pub open spec fn host_text(node: Seq<char>) -> Seq<char> {
    "dtn://"@ + node
}

/// Whether the node name makes a valid `dtn` endpoint.
pub open spec fn valid_node_name(node: Seq<char>) -> bool {
    spec_eid_parse(host_text(node)) is Some
}

/// The configuration entry of an agent: its identifier, a colon, its port.
pub open spec fn cla_entry(id: Seq<char>, port: u16) -> Seq<char> {
    id + seq![':'] + decimal(port as nat)
}

/// The agent entries that a configuration file gives: those of known kinds,
/// in order, with port 0 where none is given.
pub open spec fn cla_entries(clas: Seq<(String, Option<i64>)>) -> Seq<Seq<char>>
    decreases clas.len(),
{
    if clas.len() == 0 {
        Seq::empty()
    } else {
        let rest = cla_entries(clas.drop_last());
        let (id, port) = clas.last();
        if spec_agent_from_name(id@) is Some {
            rest.push(
                cla_entry(
                    id@,
                    match port {
                        Some(p) => p as u16,
                        None => 0u16,
                    },
                ),
            )
        } else {
            rest
        }
    }
}

pub open spec fn texts(v: Seq<String>) -> Seq<Seq<char>> {
    v.map_values(|s: String| s@)
}

fn host_eid_of(node: &str) -> (r: Option<EndpointID>)
    ensures
        eid_opt_view(r) == spec_eid_parse(host_text(node@)),
{
    let mut text = "dtn://".to_owned();
    string_push_str(&mut text, node);
    EndpointID::try_from(text)
}

/// Appends the entries of the agents of known kinds among `clas`.
fn append_cla_entries(list: &mut Vec<String>, clas: &Vec<(String, Option<i64>)>)
    ensures
        texts(final(list)@) == texts(old(list)@) + cla_entries(clas@),
{
    let ghost clas0 = texts(list@);
    let mut i: usize = 0;
    while i < clas.len()
        invariant
            0 <= i <= clas@.len(),
            texts(list@) == clas0 + cla_entries(clas@.take(i as int)),
        decreases clas@.len() - i,
    {
        let id = &clas[i].0;
        let known = match ConvergenceLayerAgents::from_str(id.as_str()) {
            Ok(_) => true,
            Err(_) => false,
        };
        proof {
            assert(clas@.take(i + 1).drop_last() =~= clas@.take(i as int));
            assert(clas@.take(i + 1).last() == clas@[i as int]);
        }
        if known {
            let port: u16 = match clas[i].1 {
                Some(p) => p as u16,
                None => 0,
            };
            let mut entry = id.clone();
            string_push(&mut entry, ':');
            push_decimal(&mut entry, port as u64);
            assert(entry@ =~= cla_entry(id@, port));
            let ghost before = list@;
            list.push(entry);
            assert(texts(list@) =~= texts(before).push(cla_entry(id@, port)));
        }
        i = i + 1;
    }
    assert(clas@.take(clas@.len() as int) =~= clas@);
}

/// The text of the host endpoint for a node id given on the command line:
/// `ipn://n.0` for a number `n`, `dtn://` and the id otherwise.
pub open spec fn host_text_for(nodeid: Seq<char>) -> Seq<char> {
    match spec_parse_u64(nodeid) {
        Some(n) => "ipn://"@ + decimal(n as nat) + ".0"@,
        None => "dtn://"@ + nodeid,
    }
}

/// The host endpoint for a node id given on the command line: an `ipn`
/// node for a number, a `dtn` node otherwise; `None` where the text makes
/// no valid endpoint.
pub fn host_eid_for(nodeid: &str) -> (r: Option<EndpointID>)
    ensures
        eid_opt_view(r) == spec_eid_parse(host_text_for(nodeid@)),
{
    let mut text = String::new();
    match str_parse_u64(nodeid) {
        Some(n) => {
            string_push_str(&mut text, "ipn://");
            push_decimal(&mut text, n);
            string_push_str(&mut text, ".0");
        },
        None => {
            string_push_str(&mut text, "dtn://");
            string_push_str(&mut text, nodeid);
        },
    }
    EndpointID::try_from(text)
}

/// `s` up to its first `:`.
pub open spec fn before_colon(s: Seq<char>) -> Seq<char>
    decreases s.len(),
{
    if s.len() == 0 {
        s
    } else if s[0] == ':' {
        Seq::empty()
    } else {
        seq![s[0]] + before_colon(s.drop_first())
    }
}

/// Whether an agent given on the command line (`kind` or `kind:port`)
/// names a known kind.
pub fn cla_argument_accepted(cla: &str) -> (r: bool)
    ensures
        r == (spec_agent_from_name(before_colon(cla@)) is Some),
{
    let mut kind = String::new();
    let mut done = false;
    for c in it: cla.chars()
        invariant
            it.seq() == cla@,
            !done ==> kind@ == cla@.take(it.index()) && forall|j: int| 0 <= j < it.index() ==> #[trigger] cla@[j] != ':',
            done ==> kind@ == before_colon(cla@),
    {
        if !done {
            if c == ':' {
                proof {
                    lemma_before_colon(cla@, it.index());
                }
                done = true;
            } else {
                string_push(&mut kind, c);
                assert(kind@ =~= cla@.take(it.index() + 1));
            }
        }
    }
    proof {
        if !done {
            lemma_before_colon(cla@, cla@.len() as int);
            assert(cla@.take(cla@.len() as int) =~= cla@);
        }
    }
    match ConvergenceLayerAgents::from_str(kind.as_str()) {
        Ok(_) => true,
        Err(_) => false,
    }
}

proof fn lemma_before_colon(s: Seq<char>, k: int)
    requires
        0 <= k <= s.len(),
        forall|j: int| 0 <= j < k ==> #[trigger] s[j] != ':',
        k == s.len() || s[k] == ':',
    ensures
        before_colon(s) == s.take(k),
    decreases k,
{
    if k == 0 {
        assert(s.take(0) =~= Seq::<char>::empty());
    } else {
        let t = s.drop_first();
        assert forall|j: int| 0 <= j < k - 1 implies #[trigger] t[j] != ':' by {
            assert(t[j] == s[j + 1]);
        }
        if k < s.len() {
            assert(t[k - 1] == s[k]);
        }
        lemma_before_colon(t, k - 1);
        assert(seq![s[0]] + t.take(k - 1) =~= s.take(k));
    }
}

impl DtnConfig {
    /// The defaults for a node named `node`: IPv4 only, web port 3000,
    /// beacons every 2 s, the janitor every 10 s, peers forgotten after
    /// 20 s, epidemic routing, no endpoints, agents or static peers. `None`
    /// where the name makes no valid endpoint.
    pub fn try_new(node: String) -> (r: Option<DtnConfig>)
        ensures
            r is Some == valid_node_name(node@),
            r matches Some(c) ==> {
                &&& !c.debug && c.v4 && !c.v6
                &&& c.nodeid@ == node@
                &&& Some(c.host_eid@) == spec_eid_parse(host_text(node@))
                &&& c.webport == 3000
                &&& c.announcement_interval == 2000
                &&& c.janitor_interval == 10000
                &&& c.peer_timeout == 20000
                &&& c.routing@ == "epidemic"@
                &&& c.endpoints@.len() == 0 && c.clas@.len() == 0 && c.statics@.len() == 0
            },
    {
        match host_eid_of(node.as_str()) {
            Some(host_eid) => Some(
                DtnConfig {
                    debug: false,
                    v4: true,
                    v6: false,
                    nodeid: node,
                    host_eid,
                    webport: 3000,
                    announcement_interval: 2000,
                    janitor_interval: 10000,
                    endpoints: Vec::new(),
                    clas: Vec::new(),
                    routing: "epidemic".to_owned(),
                    peer_timeout: 20000,
                    statics: Vec::new(),
                },
            ),
            None => None,
        }
    }

    /// The defaults for a node named `node`, which must make a valid
    /// endpoint.
    pub fn new(node: String) -> (r: DtnConfig)
        requires
            valid_node_name(node@),
        ensures
            r.nodeid@ == node@,
            Some(r.host_eid@) == spec_eid_parse(host_text(node@)),
            !r.debug && r.v4 && !r.v6,
            r.webport == 3000,
            r.announcement_interval == 2000,
            r.janitor_interval == 10000,
            r.peer_timeout == 20000,
            r.routing@ == "epidemic"@,
            r.endpoints@.len() == 0 && r.clas@.len() == 0 && r.statics@.len() == 0,
    {
        match Self::try_new(node) {
            Some(c) => c,
            None => {
                assert(false);
                Self::try_new("none".to_owned()).unwrap()
            },
        }
    }

    /// The configuration after reading a file's settings over these
    /// defaults: each setting the file gives replaces the default; a web
    /// port keeps its lowest 16 bits; static peers and endpoints are
    /// appended; agents of known kinds are appended as `id:port`.
    pub fn apply_settings(self, settings: ConfigSettings) -> (r: DtnConfig)
        ensures
            r.debug == match settings.debug {
                Some(b) => b,
                None => self.debug,
            },
            r.v4 == match settings.ipv4 {
                Some(b) => b,
                None => self.v4,
            },
            r.v6 == match settings.ipv6 {
                Some(b) => b,
                None => self.v6,
            },
            r.nodeid@ == match settings.nodeid {
                Some(n) => n@,
                None => self.nodeid@,
            },
            r.routing@ == match settings.routing {
                Some(n) => n@,
                None => self.routing@,
            },
            r.webport == match settings.webport {
                Some(p) => p as u16,
                None => self.webport,
            },
            r.janitor_interval == match settings.janitor_interval {
                Some(t) => spec_interval_ms(t@),
                None => self.janitor_interval,
            },
            r.announcement_interval == match settings.announcement_interval {
                Some(t) => spec_interval_ms(t@),
                None => self.announcement_interval,
            },
            r.peer_timeout == match settings.peer_timeout {
                Some(t) => spec_interval_ms(t@),
                None => self.peer_timeout,
            },
            r.host_eid == self.host_eid,
            r.statics@ == self.statics@ + settings.statics@,
            texts(r.endpoints@) == texts(self.endpoints@) + texts(settings.endpoints@),
            texts(r.clas@) == texts(self.clas@) + cla_entries(settings.clas@),
    {
        let mut cfg = self;
        let ConfigSettings {
            debug,
            ipv4,
            ipv6,
            nodeid,
            routing,
            webport,
            janitor_interval,
            announcement_interval,
            peer_timeout,
            statics,
            endpoints,
            clas,
        } = settings;
        match debug {
            Some(b) => cfg.debug = b,
            None => {},
        }
        match ipv4 {
            Some(b) => cfg.v4 = b,
            None => {},
        }
        match ipv6 {
            Some(b) => cfg.v6 = b,
            None => {},
        }
        match nodeid {
            Some(n) => cfg.nodeid = n,
            None => {},
        }
        match routing {
            Some(n) => cfg.routing = n,
            None => {},
        }
        match webport {
            Some(p) => cfg.webport = p as u16,
            None => {},
        }
        match janitor_interval {
            Some(t) => cfg.janitor_interval = interval_ms(t.as_str()),
            None => {},
        }
        match announcement_interval {
            Some(t) => cfg.announcement_interval = interval_ms(t.as_str()),
            None => {},
        }
        match peer_timeout {
            Some(t) => cfg.peer_timeout = interval_ms(t.as_str()),
            None => {},
        }
        let ghost statics0 = cfg.statics@;
        let mut statics = statics;
        cfg.statics.append(&mut statics);
        let ghost endpoints0 = texts(cfg.endpoints@);
        let mut endpoints = endpoints;
        let ghost added = texts(endpoints@);
        cfg.endpoints.append(&mut endpoints);
        assert(texts(cfg.endpoints@) =~= endpoints0 + added);
        append_cla_entries(&mut cfg.clas, &clas);
        cfg
    }

    /// Takes over another configuration, the endpoint of the host from its
    /// node name; `None`, leaving this one as it is, where that name makes
    /// no valid endpoint.
    pub fn try_set(&mut self, cfg: DtnConfig) -> (r: bool)
        ensures
            r == valid_node_name(cfg.nodeid@),
            r ==> {
                &&& final(self).debug == cfg.debug && final(self).v4 == cfg.v4 && final(self).v6 == cfg.v6
                &&& final(self).nodeid@ == cfg.nodeid@
                &&& Some(final(self).host_eid@) == spec_eid_parse(host_text(cfg.nodeid@))
                &&& final(self).webport == cfg.webport
                &&& final(self).announcement_interval == cfg.announcement_interval
                &&& final(self).janitor_interval == cfg.janitor_interval
                &&& final(self).peer_timeout == cfg.peer_timeout
                &&& final(self).routing == cfg.routing
                &&& final(self).endpoints == cfg.endpoints
                &&& final(self).clas == cfg.clas
                &&& final(self).statics == cfg.statics
            },
            !r ==> *final(self) == *old(self),
    {
        match host_eid_of(cfg.nodeid.as_str()) {
            Some(host_eid) => {
                let DtnConfig {
                    debug,
                    v4,
                    v6,
                    nodeid,
                    host_eid: _,
                    webport,
                    announcement_interval,
                    janitor_interval,
                    endpoints,
                    clas,
                    routing,
                    peer_timeout,
                    statics,
                } = cfg;
                self.debug = debug;
                self.v4 = v4;
                self.v6 = v6;
                self.nodeid = nodeid;
                self.host_eid = host_eid;
                self.webport = webport;
                self.announcement_interval = announcement_interval;
                self.janitor_interval = janitor_interval;
                self.endpoints = endpoints;
                self.clas = clas;
                self.routing = routing;
                self.peer_timeout = peer_timeout;
                self.statics = statics;
                true
            },
            None => false,
        }
    }
}

} // verus!
