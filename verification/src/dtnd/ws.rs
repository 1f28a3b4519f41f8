//! WebSocket application agents: the text commands a client sends, and what
//! a session does with them.
use vstd::prelude::*;
use crate::bp::eid::{EndpointID, EidView, eid_eq, spec_eid_parse, eid_opt_view};
use crate::bp::bundle::{BundleControlFlags, BUNDLE_MUST_NOT_FRAGMENTED, BUNDLE_STATUS_REQUEST_DELIVERY};
use crate::text::{decimal, push_decimal, string_push, string_push_str, is_white_space, white_space, spec_parse_u64, str_parse_u64};
use crate::bp::eid::{IpnAddress, ENDPOINT_URI_SCHEME_IPN, dtn_chars, sep_chars};
use crate::node::peers::{spec_node_name, node_name};
use crate::node::application_agent::{DtnCore, first_agent, lemma_first_agent_found};

verus! {

/// Whether `bp7::EndpointID::try_from` accepts the text `s` as an endpoint.
pub uninterp spec fn bp7_eid_accepts(s: Seq<char>) -> bool;

/// Whether `s` starts with `dtn:` followed by `none` or by `//`, or starts
/// with `ipn:`.
pub open spec fn bp7_eid_shape(s: Seq<char>) -> bool {
    ||| s.len() >= 4 && s.take(4) == seq!['d', 't', 'n', ':'] && (s.skip(4) == seq!['n', 'o', 'n', 'e'] || (
    s.len() >= 6 && s[4] == '/' && s[5] == '/'))
    ||| s.len() >= 4 && s.take(4) == seq!['i', 'p', 'n', ':']
}

/// Calls `bp7::EndpointID::try_from` on a text and tells whether it gives
/// an endpoint; the answer is the one named by `bp7_eid_accepts`. Claimed
/// besides, from bp7's source: it accepts only `dtn:none`, `dtn://...` and
/// `ipn:...` texts.
#[verifier::external_body]
fn bp7_accepts_eid(s: &str) -> (r: bool)
    ensures
        r == bp7_eid_accepts(s@),
        r ==> bp7_eid_shape(s@),
{
    bp7::EndpointID::try_from(s).is_ok()
}

/// The endpoint a session reads from a client's text: texts that bp7
/// refuses name none; the others name what the URI gives.
pub open spec fn session_eid(t: Seq<char>) -> Option<EidView> {
    if bp7_eid_accepts(t) {
        spec_eid_parse(t)
    } else {
        None
    }
}

/// The endpoint a session reads from the client's text `t`.
pub fn session_endpoint(t: String) -> (r: Option<EndpointID>)
    ensures
        eid_opt_view(r) == session_eid(t@),
{
    if bp7_accepts_eid(t.as_str()) {
        EndpointID::try_from(t)
    } else {
        None
    }
}

/// How a client's data frames are encoded.
#[derive(Debug, Clone, Copy, PartialEq, Eq, Structural)]
pub enum DataReceiveFormat {
    CBOR,
    JSON,
}

/// What a client's binary frames hold: whole bundles, or data to wrap in a
/// bundle.
#[derive(Debug, Clone, Copy, PartialEq, Eq, Structural)]
pub enum WsReceiveMode {
    Bundle,
    Data(DataReceiveFormat),
}

/// `s` without its leading white space.
pub open spec fn trim_start(s: Seq<char>) -> Seq<char>
    decreases s.len(),
{
    if s.len() > 0 && is_white_space(s[0]) {
        trim_start(s.drop_first())
    } else {
        s
    }
}

/// `s` without its trailing white space.
pub open spec fn trim_end(s: Seq<char>) -> Seq<char>
    decreases s.len(),
{
    if s.len() > 0 && is_white_space(s.last()) {
        trim_end(s.drop_last())
    } else {
        s
    }
}

/// `s` without white space at either end, as `str::trim` gives it.
pub open spec fn trim(s: Seq<char>) -> Seq<char> {
    trim_end(trim_start(s))
}

proof fn lemma_trim_start_shape(s: Seq<char>)
    ensures
        trim_start(s).len() == 0 || !is_white_space(trim_start(s)[0]),
        trim_start(s).len() <= s.len(),
        trim_start(s) == s.subrange(s.len() - trim_start(s).len(), s.len() as int),
    decreases s.len(),
{
    if s.len() > 0 && is_white_space(s[0]) {
        lemma_trim_start_shape(s.drop_first());
        let t = trim_start(s.drop_first());
        assert(s.drop_first().subrange(s.drop_first().len() - t.len(), s.drop_first().len() as int) =~= s.subrange(s.len() - t.len(), s.len() as int));
    } else {
        assert(s.subrange(0, s.len() as int) =~= s);
    }
}

proof fn lemma_trim_end_shape(s: Seq<char>)
    ensures
        trim_end(s).len() == 0 || !is_white_space(trim_end(s).last()),
        trim_end(s).len() <= s.len(),
        trim_end(s) == s.subrange(0, trim_end(s).len() as int),
    decreases s.len(),
{
    if s.len() > 0 && is_white_space(s.last()) {
        lemma_trim_end_shape(s.drop_last());
        let t = trim_end(s.drop_last());
        assert(s.drop_last().subrange(0, t.len() as int) =~= s.subrange(0, t.len() as int));
    } else {
        assert(s.subrange(0, s.len() as int) =~= s);
    }
}

/// Trimming twice is trimming once: a trimmed message starts and ends
/// with no white space, so `parse_ws_command` reads a message and its
/// trimmed text alike.
pub proof fn law_trim_idempotent(s: Seq<char>)
    ensures
        trim(trim(s)) == trim(s),
        spec_ws_command(trim(s)) == spec_ws_command(s),
{
    let a = trim_start(s);
    lemma_trim_start_shape(s);
    let u = trim_end(a);
    lemma_trim_end_shape(a);
    if u.len() > 0 {
        assert(u[0] == a[0]);
    }
    assert(trim_start(u) == u);
    if u.len() > 0 {
        assert(is_white_space(u.last()) == false);
    }
    assert(trim_end(u) == u);
}

/// `s` cut at its first space: what comes before it, and what comes after
/// it if there is one, as `str::splitn(2, ' ')` gives them.
pub open spec fn split_first_space(s: Seq<char>) -> (Seq<char>, Option<Seq<char>>)
    decreases s.len(),
{
    if s.len() == 0 {
        (s, None)
    } else if s[0] == ' ' {
        (Seq::empty(), Some(s.drop_first()))
    } else {
        let (a, b) = split_first_space(s.drop_first());
        (seq![s[0]] + a, b)
    }
}

/// A command of a client, as values.
pub enum WsCommandView {
    NotACommand,
    Node,
    Bundle,
    Data,
    Json,
    Unsubscribe(Option<Seq<char>>),
    Subscribe(Option<Seq<char>>),
    Unknown(Seq<char>),
}

/// A text message of a client, read as a command.
#[derive(Debug)]
pub enum WsCommand {
    /// The message does not start with `/`.
    NotACommand,
    /// `/node`: the node's identifier is asked for.
    Node,
    /// `/bundle`: binary frames will hold bundles.
    Bundle,
    /// `/data`: binary frames will hold data in CBOR.
    Data,
    /// `/json`: binary frames will hold data in JSON.
    Json,
    /// `/unsubscribe`, with its argument if it has one.
    Unsubscribe(Option<String>),
    /// `/subscribe`, with its argument if it has one.
    Subscribe(Option<String>),
    /// Any other command; the trimmed message.
    Unknown(String),
}

pub open spec fn opt_text_view(o: Option<String>) -> Option<Seq<char>> {
    match o {
        Some(s) => Some(s@),
        None => None,
    }
}

impl View for WsCommand {
    type V = WsCommandView;

    open spec fn view(&self) -> WsCommandView {
        match self {
            WsCommand::NotACommand => WsCommandView::NotACommand,
            WsCommand::Node => WsCommandView::Node,
            WsCommand::Bundle => WsCommandView::Bundle,
            WsCommand::Data => WsCommandView::Data,
            WsCommand::Json => WsCommandView::Json,
            WsCommand::Unsubscribe(a) => WsCommandView::Unsubscribe(opt_text_view(*a)),
            WsCommand::Subscribe(a) => WsCommandView::Subscribe(opt_text_view(*a)),
            WsCommand::Unknown(m) => WsCommandView::Unknown(m@),
        }
    }
}

/// The command that the text message `msg` gives.
pub open spec fn spec_ws_command(msg: Seq<char>) -> WsCommandView {
    let m = trim(msg);
    if m.len() == 0 || m[0] != '/' {
        WsCommandView::NotACommand
    } else {
        let (word, arg) = split_first_space(m);
        if word == "/node"@ {
            WsCommandView::Node
        } else if word == "/bundle"@ {
            WsCommandView::Bundle
        } else if word == "/data"@ {
            WsCommandView::Data
        } else if word == "/json"@ {
            WsCommandView::Json
        } else if word == "/unsubscribe"@ {
            WsCommandView::Unsubscribe(arg)
        } else if word == "/subscribe"@ {
            WsCommandView::Subscribe(arg)
        } else {
            WsCommandView::Unknown(m)
        }
    }
}

proof fn lemma_trim_start(s: Seq<char>, i: int)
    requires
        0 <= i <= s.len(),
        forall|j: int| 0 <= j < i ==> is_white_space(#[trigger] s[j]),
        i == s.len() || !is_white_space(s[i]),
    ensures
        trim_start(s) == s.subrange(i, s.len() as int),
    decreases i,
{
    if i > 0 {
        let t = s.drop_first();
        assert forall|j: int| 0 <= j < i - 1 implies is_white_space(#[trigger] t[j]) by {
            assert(t[j] == s[j + 1]);
        }
        if i - 1 < t.len() {
            assert(t[i - 1] == s[i]);
        }
        lemma_trim_start(t, i - 1);
        assert(t.subrange(i - 1, t.len() as int) =~= s.subrange(i, s.len() as int));
    } else {
        assert(s.subrange(0, s.len() as int) =~= s);
    }
}

proof fn lemma_trim_end(s: Seq<char>, k: int)
    requires
        0 <= k <= s.len(),
        forall|j: int| k <= j < s.len() ==> is_white_space(#[trigger] s[j]),
        k == 0 || !is_white_space(s[k - 1]),
    ensures
        trim_end(s) == s.subrange(0, k),
    decreases s.len() - k,
{
    if k < s.len() {
        let t = s.drop_last();
        assert forall|j: int| k <= j < t.len() implies is_white_space(#[trigger] t[j]) by {
            assert(t[j] == s[j]);
        }
        if k > 0 {
            assert(t[k - 1] == s[k - 1]);
        }
        assert(is_white_space(s[s.len() - 1]));
        lemma_trim_end(t, k);
        assert(t.subrange(0, k) =~= s.subrange(0, k));
    } else {
        assert(s.subrange(0, k) =~= s);
    }
}

proof fn lemma_split(s: Seq<char>, k: int)
    requires
        0 <= k <= s.len(),
        forall|j: int| 0 <= j < k ==> #[trigger] s[j] != ' ',
        k == s.len() || s[k] == ' ',
    ensures
        split_first_space(s) == if k == s.len() {
            (s, None::<Seq<char>>)
        } else {
            (s.subrange(0, k), Some(s.subrange(k + 1, s.len() as int)))
        },
    decreases k,
{
    if k == 0 {
        if s.len() > 0 {
            assert(s.subrange(0, 0) =~= Seq::<char>::empty());
            assert(s.drop_first() =~= s.subrange(1, s.len() as int));
        }
    } else {
        let t = s.drop_first();
        assert forall|j: int| 0 <= j < k - 1 implies #[trigger] t[j] != ' ' by {
            assert(t[j] == s[j + 1]);
        }
        if k < s.len() {
            assert(t[k - 1] == s[k]);
        }
        lemma_split(t, k - 1);
        if k == s.len() {
            assert(seq![s[0]] + t =~= s);
        } else {
            assert(seq![s[0]] + t.subrange(0, k - 1) =~= s.subrange(0, k));
            assert(t.subrange(k, t.len() as int) =~= s.subrange(k + 1, s.len() as int));
        }
    }
}

fn chars_of(s: &str) -> (r: Vec<char>)
    ensures
        r@ == s@,
{
    let mut out: Vec<char> = Vec::new();
    for c in it: s.chars()
        invariant
            it.seq() == s@,
            out@ == s@.take(it.index()),
    {
        out.push(c);
        proof {
            assert(out@ =~= s@.take(it.index() + 1));
        }
    }
    assert(s@.take(s@.len() as int) =~= s@);
    out
}

fn string_of(v: &Vec<char>, from: usize, to: usize) -> (r: String)
    requires
        from <= to <= v@.len(),
    ensures
        r@ == v@.subrange(from as int, to as int),
{
    let mut out = String::new();
    let mut i = from;
    while i < to
        invariant
            from <= i <= to <= v@.len(),
            out@ == v@.subrange(from as int, i as int),
        decreases to - i,
    {
        string_push(&mut out, v[i]);
        proof {
            assert(out@ =~= v@.subrange(from as int, i + 1));
        }
        i = i + 1;
    }
    out
}

/// Reads the text message `msg` of a client as a command.
pub fn parse_ws_command(msg: &str) -> (r: WsCommand)
    ensures
        r@ == spec_ws_command(msg@),
{
    let cs = chars_of(msg);
    let n = cs.len();
    let mut start: usize = 0;
    while start < n && white_space(cs[start])
        invariant
            cs@ == msg@,
            n == cs@.len(),
            start <= n,
            forall|j: int| 0 <= j < start ==> is_white_space(#[trigger] cs@[j]),
        decreases n - start,
    {
        start = start + 1;
    }
    proof {
        lemma_trim_start(msg@, start as int);
    }
    let ghost front = msg@.subrange(start as int, n as int);
    let mut end: usize = n;
    while end > start && white_space(cs[end - 1])
        invariant
            cs@ == msg@,
            n == cs@.len(),
            start <= end <= n,
            forall|j: int| end <= j < n ==> is_white_space(#[trigger] cs@[j]),
        decreases end - start,
    {
        end = end - 1;
    }
    proof {
        assert forall|j: int| end - start <= j < front.len() implies is_white_space(#[trigger] front[j]) by {
            assert(front[j] == cs@[j + start]);
        }
        if end > start {
            assert(front[end - start - 1] == cs@[end - 1]);
        }
        lemma_trim_end(front, end - start);
        assert(front.subrange(0, end - start) =~= msg@.subrange(start as int, end as int));
    }
    let ghost m = msg@.subrange(start as int, end as int);
    assert(trim(msg@) == m);
    if end == start || cs[start] != '/' {
        return WsCommand::NotACommand;
    }
    let mut k = start;
    while k < end && cs[k] != ' '
        invariant
            cs@ == msg@,
            n == cs@.len(),
            start <= k <= end <= n,
            forall|j: int| start <= j < k ==> #[trigger] cs@[j] != ' ',
        decreases end - k,
    {
        k = k + 1;
    }
    proof {
        assert forall|j: int| 0 <= j < k - start implies #[trigger] m[j] != ' ' by {
            assert(m[j] == cs@[j + start]);
        }
        if k < end {
            assert(m[k - start] == cs@[k as int]);
        }
        lemma_split(m, k - start);
    }
    let word = string_of(&cs, start, k);
    let arg = if k < end {
        Some(string_of(&cs, k + 1, end))
    } else {
        None
    };
    proof {
        assert(word@ =~= m.subrange(0, k - start));
        if k < end {
            assert(msg@.subrange(k + 1, end as int) =~= m.subrange(k - start + 1, m.len() as int));
        } else {
            assert(word@ =~= m);
        }
    }
    if word == "/node".to_owned() {
        WsCommand::Node
    } else if word == "/bundle".to_owned() {
        WsCommand::Bundle
    } else if word == "/data".to_owned() {
        WsCommand::Data
    } else if word == "/json".to_owned() {
        WsCommand::Json
    } else if word == "/unsubscribe".to_owned() {
        WsCommand::Unsubscribe(arg)
    } else if word == "/subscribe".to_owned() {
        WsCommand::Subscribe(arg)
    } else {
        WsCommand::Unknown(string_of(&cs, start, end))
    }
}

/// The text that `format!("{:?}", ..)` writes for the text `s`: quoted,
/// with escapes.
pub uninterp spec fn debug_text(s: Seq<char>) -> Seq<char>;

/// Calls `format!("{:?}", s)`. Claimed: the text named by `debug_text`, a
/// function of `s` alone.
#[verifier::external_body]
fn debug_quoted(s: &str) -> (r: String)
    ensures
        r@ == debug_text(s@),
{
    format!("{:?}", s)
}

/// The endpoints a session subscribed to, as a set, if it subscribed at all.
pub open spec fn endpoints_view(o: Option<Vec<EndpointID>>) -> Option<Set<EidView>> {
    match o {
        Some(v) => Some(v@.map_values(|e: EndpointID| e@).to_set()),
        None => None,
    }
}

/// The state of a WebSocket session: what binary frames hold, and the
/// endpoints it subscribed to.
#[derive(Debug)]
pub struct WsSession {
    pub mode: WsReceiveMode,
    pub endpoints: Option<Vec<EndpointID>>,
}

/// What the daemon does besides replying.
#[derive(Debug)]
pub enum WsAction {
    /// Nothing.
    Nothing,
    /// Stop delivering the endpoint's bundles to this session.
    ClearDelivery(EndpointID),
    /// Subscribe to the endpoint if the node has it (`subscribe_checked`).
    CheckSubscription(EndpointID),
    /// Subscribe to the endpoint that this name gives under the node's own
    /// identifier, if that combination is valid and the node has it
    /// (`subscribe_relative`).
    CheckRelativeSubscription(String),
}

/// What a session answers to a command, and what the daemon does.
#[derive(Debug)]
pub struct WsStep {
    pub reply: Option<String>,
    pub action: WsAction,
}

pub open spec fn reply_view(s: WsStep) -> Option<Seq<char>> {
    opt_text_view(s.reply)
}

/// The reply to a subscription of an endpoint the node does not have.
pub fn unknown_endpoint_reply() -> (r: String)
    ensures
        r@ == "404 unknown endpoint"@,
{
    "404 unknown endpoint".to_owned()
}

/// The reply to a name that gives no endpoint under the node's identifier.
pub fn invalid_combination_reply() -> (r: String)
    ensures
        r@ == "400 invalid endpoint combination"@,
{
    "400 invalid endpoint combination".to_owned()
}

/// The reply to a frame whose payload of `len` bytes was sent on.
pub fn sent_payload_reply(len: usize) -> (r: String)
    ensures
        r@ == "200 Sent payload with "@ + decimal(len as nat) + " bytes"@,
{
    let mut r = "200 Sent payload with ".to_owned();
    push_decimal(&mut r, len as u64);
    string_push_str(&mut r, " bytes");
    r
}

/// The reply to a binary frame that holds no bundle, in bundle mode.
pub fn invalid_bundle_reply() -> (r: String)
    ensures
        r@ == "400 Invalid binary bundle"@,
{
    "400 Invalid binary bundle".to_owned()
}

/// The reply to a binary frame that holds no data request, in data mode.
pub fn unexpected_binary_reply() -> (r: String)
    ensures
        r@ == "400 Unexpected binary"@,
{
    "400 Unexpected binary".to_owned()
}

pub open spec fn eid_views(v: Seq<EndpointID>) -> Seq<EidView> {
    v.map_values(|e: EndpointID| e@)
}

fn without_eid(v: Vec<EndpointID>, eid: &EndpointID) -> (r: Vec<EndpointID>)
    ensures
        eid_views(r@).to_set() == eid_views(v@).to_set().remove(eid@),
{
    let ghost all = eid_views(v@);
    let mut kept: Vec<EndpointID> = Vec::new();
    for e in it: v.into_iter()
        invariant
            eid_views(it.seq()) == all,
            forall|x: EidView| #[trigger] eid_views(kept@).contains(x) <==> (x != eid@ && exists|j: int| 0 <= j < it.index() && all[j] == x),
    {
        let ghost before = eid_views(kept@);
        let ghost x0 = e@;
        assert(all[it.index()] == x0);
        if !eid_eq(&e, eid) {
            kept.push(e);
            assert(eid_views(kept@) =~= before.push(x0));
        } else {
            assert(eid_views(kept@) =~= before);
        }
        proof {
            assert forall|x: EidView| #[trigger] eid_views(kept@).contains(x) <==> (x != eid@ && exists|j: int| 0 <= j < it.index() + 1 && all[j] == x) by {
                if eid_views(kept@).contains(x) {
                    let k = choose|k: int| 0 <= k < eid_views(kept@).len() && eid_views(kept@)[k] == x;
                    if k < before.len() {
                        assert(before[k] == x);
                        assert(before.contains(x));
                    }
                }
                if x != eid@ && exists|j: int| 0 <= j < it.index() + 1 && all[j] == x {
                    let j = choose|j: int| 0 <= j < it.index() + 1 && all[j] == x;
                    if j < it.index() {
                        assert(before.contains(x));
                        let k = choose|k: int| 0 <= k < before.len() && before[k] == x;
                        assert(eid_views(kept@)[k] == x);
                    } else {
                        assert(eid_views(kept@)[eid_views(kept@).len() - 1] == x);
                    }
                }
            }
        }
    }
    assert(eid_views(kept@).to_set() =~= all.to_set().remove(eid@));
    kept
}

/// What a session answers to `cmd`; `node_id` is the node's identifier as
/// text.
pub open spec fn command_reply(cmd: WsCommandView, node_id: Seq<char>, subscribed: bool) -> Option<
    Seq<char>,
> {
    match cmd {
        WsCommandView::NotACommand => None,
        WsCommandView::Node => Some("200 node: "@ + node_id),
        WsCommandView::Bundle => Some("200 tx mode: bundle"@),
        WsCommandView::Data => Some("200 tx mode: data"@),
        WsCommandView::Json => Some("200 tx mode: JSON"@),
        WsCommandView::Unsubscribe(None) => None,
        WsCommandView::Unsubscribe(Some(t)) => match session_eid(t) {
            None => Some("400 invalid endpoint"@),
            Some(_) => if subscribed {
                Some("200 unsubscribed"@)
            } else {
                Some("404 endpoint not found"@)
            },
        },
        WsCommandView::Subscribe(None) => Some("400 endpoint is missing"@),
        WsCommandView::Subscribe(Some(_)) => None,
        WsCommandView::Unknown(m) => Some("501 unknown command: "@ + debug_text(m)),
    }
}

/// The mode a command leaves a session in.
pub open spec fn command_mode(cmd: WsCommandView, mode: WsReceiveMode) -> WsReceiveMode {
    match cmd {
        WsCommandView::Bundle => WsReceiveMode::Bundle,
        WsCommandView::Data => WsReceiveMode::Data(DataReceiveFormat::CBOR),
        WsCommandView::Json => WsReceiveMode::Data(DataReceiveFormat::JSON),
        _ => mode,
    }
}

impl WsSession {
    /// A session in JSON data mode, subscribed to nothing.
    pub fn new() -> (r: WsSession)
        ensures
            r.mode == WsReceiveMode::Data(DataReceiveFormat::JSON),
            r.endpoints is None,
    {
        WsSession { mode: WsReceiveMode::Data(DataReceiveFormat::JSON), endpoints: None }
    }

    /// Answers the command `cmd`; `node_id` is the node's identifier as
    /// text. Mode commands switch the mode; `/unsubscribe` drops a valid
    /// endpoint from the subscriptions, if the session has any; `/subscribe`
    /// with a valid endpoint, or with a name, leaves the check against the
    /// node's endpoints to the daemon.
    pub fn handle_command(&mut self, cmd: WsCommand, node_id: &str) -> (r: WsStep)
        ensures
            final(self).mode == command_mode(cmd@, old(self).mode),
            reply_view(r) == command_reply(cmd@, node_id@, old(self).endpoints is Some),
            match cmd@ {
                WsCommandView::Unsubscribe(Some(t)) => match session_eid(t) {
                    Some(e) => old(self).endpoints is Some ==> (r.action matches WsAction::ClearDelivery(x)
                        && x@ == e && endpoints_view(final(self).endpoints) == Some(
                        endpoints_view(old(self).endpoints)->0.remove(e),
                    )),
                    None => r.action is Nothing && final(self).endpoints == old(self).endpoints,
                },
                WsCommandView::Subscribe(Some(t)) => final(self).endpoints == old(self).endpoints
                    && match session_eid(t) {
                    Some(e) => r.action matches WsAction::CheckSubscription(x) && x@ == e,
                    None => r.action matches WsAction::CheckRelativeSubscription(x) && x@ == t,
                },
                _ => r.action is Nothing && final(self).endpoints == old(self).endpoints,
            },
            cmd@ matches WsCommandView::Unsubscribe(Some(t)) && session_eid(t) is Some && old(self).endpoints is None ==> r.action is Nothing && final(self).endpoints == old(self).endpoints,
    {
        match cmd {
            WsCommand::NotACommand => WsStep { reply: None, action: WsAction::Nothing },
            WsCommand::Node => {
                let mut reply = "200 node: ".to_owned();
                string_push_str(&mut reply, node_id);
                WsStep { reply: Some(reply), action: WsAction::Nothing }
            },
            WsCommand::Bundle => {
                self.mode = WsReceiveMode::Bundle;
                WsStep { reply: Some("200 tx mode: bundle".to_owned()), action: WsAction::Nothing }
            },
            WsCommand::Data => {
                self.mode = WsReceiveMode::Data(DataReceiveFormat::CBOR);
                WsStep { reply: Some("200 tx mode: data".to_owned()), action: WsAction::Nothing }
            },
            WsCommand::Json => {
                self.mode = WsReceiveMode::Data(DataReceiveFormat::JSON);
                WsStep { reply: Some("200 tx mode: JSON".to_owned()), action: WsAction::Nothing }
            },
            WsCommand::Unsubscribe(None) => WsStep { reply: None, action: WsAction::Nothing },
            WsCommand::Unsubscribe(Some(t)) => {
                match session_endpoint(t) {
                    None => WsStep {
                        reply: Some("400 invalid endpoint".to_owned()),
                        action: WsAction::Nothing,
                    },
                    Some(eid) => {
                        match self.endpoints.take() {
                            Some(list) => {
                                self.endpoints = Some(without_eid(list, &eid));
                                WsStep {
                                    reply: Some("200 unsubscribed".to_owned()),
                                    action: WsAction::ClearDelivery(eid),
                                }
                            },
                            None => WsStep {
                                reply: Some("404 endpoint not found".to_owned()),
                                action: WsAction::Nothing,
                            },
                        }
                    },
                }
            },
            WsCommand::Subscribe(None) => WsStep {
                reply: Some("400 endpoint is missing".to_owned()),
                action: WsAction::Nothing,
            },
            WsCommand::Subscribe(Some(t)) => {
                let name = t.clone();
                match session_endpoint(t) {
                    Some(eid) => WsStep { reply: None, action: WsAction::CheckSubscription(eid) },
                    None => WsStep { reply: None, action: WsAction::CheckRelativeSubscription(name) },
                }
            },
            WsCommand::Unknown(m) => {
                let mut reply = "501 unknown command: ".to_owned();
                let quoted = debug_quoted(m.as_str());
                string_push_str(&mut reply, quoted.as_str());
                WsStep { reply: Some(reply), action: WsAction::Nothing }
            },
        }
    }

    /// Records a subscription to `eid`, which the node has.
    pub fn subscribe(&mut self, eid: EndpointID) -> (r: String)
        ensures
            r@ == "200 subscribed"@,
            final(self).mode == old(self).mode,
            endpoints_view(final(self).endpoints) == Some(
                match endpoints_view(old(self).endpoints) {
                    Some(s) => s,
                    None => Set::<EidView>::empty(),
                }.insert(eid@),
            ),
    {
        let mut list = match self.endpoints.take() {
            Some(v) => v,
            None => Vec::new(),
        };
        let ghost before = list@;
        let ghost e = eid@;
        list.push(eid);
        assert(list@.map_values(|x: EndpointID| x@) =~= before.map_values(|x: EndpointID| x@).push(e));
        proof {
            let t = before.map_values(|x: EndpointID| x@);
            assert(t.push(e).to_set() =~= t.to_set().insert(e)) by {
                assert forall|x: EidView| #[trigger] t.push(e).contains(x) <==> t.contains(x) || x == e by {
                    if t.push(e).contains(x) && x != e {
                        let k = choose|k: int| 0 <= k < t.push(e).len() && t.push(e)[k] == x;
                        assert(t[k] == x);
                    }
                    if t.contains(x) {
                        let k = choose|k: int| 0 <= k < t.len() && t[k] == x;
                        assert(t.push(e)[k] == x);
                    }
                    if x == e {
                        assert(t.push(e)[t.len() as int] == x);
                    }
                }
            }
            if old(self).endpoints is None {
                assert(before =~= Seq::<EndpointID>::empty());
                assert(t.to_set() =~= Set::<EidView>::empty());
            }
        }
        self.endpoints = Some(list);
        "200 subscribed".to_owned()
    }
}

/// The bundle, if any, that `serde_cbor::from_slice` reads from the bytes
/// `b`.
pub uninterp spec fn cbor_bundle(b: Seq<u8>) -> Option<bp7::Bundle>;

/// Calls `serde_cbor::from_slice::<bp7::Bundle>`, which is also what bp7's
/// `Bundle::try_from` on bytes does. Claimed: what it reads, or that it
/// reads nothing, is a function of the bytes alone.
#[verifier::external_body]
pub(crate) fn decode_bundle(b: &[u8]) -> (r: Option<bp7::Bundle>)
    ensures
        r == cbor_bundle(b@),
{
    serde_cbor::from_slice::<bp7::Bundle>(b).ok()
}

/// A client's request, in data mode, to send data: source and destination
/// endpoints as text, whether the delivery is to be reported, the lifetime
/// in milliseconds, and the data.
#[derive(Debug, Clone)]
pub struct WsSendRequest {
    pub src: String,
    pub dst: String,
    pub delivery_notification: bool,
    pub lifetime: u64,
    pub data: Vec<u8>,
}

/// A bundle the daemon builds from a client's data and sends: its control
/// flags, its source (also where reports go), its destination, its lifetime
/// in milliseconds and its payload. It also carries a hop count block of at
/// most 32 hops, and no CRC.
#[derive(Debug)]
pub struct DataBundle {
    pub flags: BundleControlFlags,
    pub src: EndpointID,
    pub dst: EndpointID,
    pub lifetime: u64,
    pub data: Vec<u8>,
}

/// The control flags of a bundle built from a client's data: it must not be
/// fragmented, and asks for a delivery report where the client wants one.
pub open spec fn data_flags(delivery_notification: bool) -> BundleControlFlags {
    if delivery_notification {
        BUNDLE_MUST_NOT_FRAGMENTED | BUNDLE_STATUS_REQUEST_DELIVERY
    } else {
        BUNDLE_MUST_NOT_FRAGMENTED
    }
}

/// What the daemon does with a binary frame besides replying.
#[derive(Debug)]
pub enum BinaryAction {
    Nothing,
    /// Send the bundle the frame held.
    SendBundle(bp7::Bundle),
    /// Build a bundle from the client's data and send it.
    SendData(DataBundle),
}

/// What a session answers to a binary frame, and what the daemon does.
#[derive(Debug)]
pub struct BinaryStep {
    pub reply: Option<String>,
    pub action: BinaryAction,
}

/// The reply to a frame whose payload of `len` bytes is sent on.
pub open spec fn sent_text(len: nat) -> Seq<char> {
    "200 Sent payload with "@ + decimal(len) + " bytes"@
}

impl WsSession {
    /// Answers the binary frame `bin`. In bundle mode the frame is read as a
    /// bundle, which is sent; in data mode `request` is what the frame gave
    /// in the session's format, `None` where it gave no request. A request
    /// whose source or destination is no endpoint is dropped without reply.
    pub fn handle_binary(&self, bin: &[u8], request: Option<WsSendRequest>) -> (r: BinaryStep)
        ensures
            match self.mode {
                WsReceiveMode::Bundle => match cbor_bundle(bin@) {
                    Some(b) => opt_text_view(r.reply) == Some(sent_text(bin@.len()))
                        && r.action == BinaryAction::SendBundle(b),
                    None => opt_text_view(r.reply) == Some("400 Invalid binary bundle"@)
                        && r.action is Nothing,
                },
                WsReceiveMode::Data(_) => match request {
                    None => opt_text_view(r.reply) == Some("400 Unexpected binary"@) && r.action is Nothing,
                    Some(q) => match (session_eid(q.src@), session_eid(q.dst@)) {
                        (Some(s), Some(d)) => {
                            &&& opt_text_view(r.reply) == Some(sent_text(q.data@.len()))
                            &&& r.action matches BinaryAction::SendData(x) && x.flags == data_flags(
                                q.delivery_notification,
                            ) && x.src@ == s && x.dst@ == d && x.lifetime == q.lifetime && x.data@
                                == q.data@
                        },
                        _ => r.reply is None && r.action is Nothing,
                    },
                },
            },
    {
        match self.mode {
            WsReceiveMode::Bundle => match decode_bundle(bin) {
                Some(b) => BinaryStep {
                    reply: Some(sent_payload_reply(bin.len())),
                    action: BinaryAction::SendBundle(b),
                },
                None => BinaryStep { reply: Some(invalid_bundle_reply()), action: BinaryAction::Nothing },
            },
            WsReceiveMode::Data(_) => match request {
                None => BinaryStep { reply: Some(unexpected_binary_reply()), action: BinaryAction::Nothing },
                Some(q) => {
                    let dst = session_endpoint(q.dst);
                    let src = session_endpoint(q.src);
                    match (src, dst) {
                        (Some(s), Some(d)) => {
                            let flags = if q.delivery_notification {
                                BUNDLE_MUST_NOT_FRAGMENTED | BUNDLE_STATUS_REQUEST_DELIVERY
                            } else {
                                BUNDLE_MUST_NOT_FRAGMENTED
                            };
                            let reply = sent_payload_reply(q.data.len());
                            BinaryStep {
                                reply: Some(reply),
                                action: BinaryAction::SendData(
                                    DataBundle { flags, src: s, dst: d, lifetime: q.lifetime, data: q.data },
                                ),
                            }
                        },
                        _ => BinaryStep { reply: None, action: BinaryAction::Nothing },
                    }
                },
            },
        }
    }
}

/// A control frame of a WebSocket session.
#[derive(Debug, Clone)]
pub enum WsControlFrame {
    Ping(Vec<u8>),
    Pong,
    Close,
}

/// What the daemon does with a control frame.
#[derive(Debug, Clone)]
pub enum WsControlAction {
    /// The client is alive: note the time, and send back a ping with the
    /// same payload.
    Answer(Vec<u8>),
    /// The client is alive: note the time.
    Alive,
    /// End the session.
    End,
}

impl WsSession {
    /// Answers a control frame: a ping is answered with a ping of the same
    /// payload, a pong only shows the client alive, and a close frame ends
    /// the session.
    pub fn handle_control(&self, frame: WsControlFrame) -> (r: WsControlAction)
        ensures
            match frame {
                WsControlFrame::Ping(p) => r matches WsControlAction::Answer(q) && q@ == p@,
                WsControlFrame::Pong => r matches WsControlAction::Alive,
                WsControlFrame::Close => r matches WsControlAction::End,
            },
    {
        match frame {
            WsControlFrame::Ping(p) => WsControlAction::Answer(p),
            WsControlFrame::Pong => WsControlAction::Alive,
            WsControlFrame::Close => WsControlAction::End,
        }
    }
}

/// `msg` without white space at either end.
fn trim_text(msg: &str) -> (r: String)
    ensures
        r@ == trim(msg@),
{
    let cs = chars_of(msg);
    let n = cs.len();
    let mut start: usize = 0;
    while start < n && white_space(cs[start])
        invariant
            cs@ == msg@,
            n == cs@.len(),
            start <= n,
            forall|j: int| 0 <= j < start ==> is_white_space(#[trigger] cs@[j]),
        decreases n - start,
    {
        start = start + 1;
    }
    proof {
        lemma_trim_start(msg@, start as int);
    }
    let ghost front = msg@.subrange(start as int, n as int);
    let mut end: usize = n;
    while end > start && white_space(cs[end - 1])
        invariant
            cs@ == msg@,
            n == cs@.len(),
            start <= end <= n,
            forall|j: int| end <= j < n ==> is_white_space(#[trigger] cs@[j]),
        decreases end - start,
    {
        end = end - 1;
    }
    proof {
        assert forall|j: int| end - start <= j < front.len() implies is_white_space(#[trigger] front[j]) by {
            assert(front[j] == cs@[j + start]);
        }
        if end > start {
            assert(front[end - start - 1] == cs@[end - 1]);
        }
        lemma_trim_end(front, end - start);
        assert(front.subrange(0, end - start) =~= msg@.subrange(start as int, end as int));
    }
    string_of(&cs, start, end)
}

/// The endpoint that the name `name` gives under the node's own endpoint
/// `host`, as bp7's `new_endpoint` makes it: under a `dtn` node, the URI
/// `dtn://node/name` read as a client's text; under an `ipn` node, the
/// service number that the trimmed name writes, where the node's number and
/// it make a valid address that the endpoint type holds; none under
/// `dtn:none`.
pub open spec fn spec_relative_endpoint(host: EidView, name: Seq<char>) -> Option<EidView> {
    match host {
        EidView::DtnNone(_, _) => None,
        EidView::Dtn(_, _) => session_eid(
            dtn_chars() + sep_chars() + spec_node_name(host)->0 + seq!['/'] + name,
        ),
        EidView::Ipn(_, a) => match spec_parse_u64(trim(name)) {
            Some(n) => if n > u32::MAX || (a.0 == 0 && n != 0) {
                None
            } else {
                Some(EidView::Ipn(ENDPOINT_URI_SCHEME_IPN, IpnAddress(a.0, n as u32)))
            },
            None => None,
        },
    }
}

/// The endpoint that `name` gives under the node's endpoint `host`.
pub fn relative_endpoint(host: &EndpointID, name: &str) -> (r: Option<EndpointID>)
    ensures
        eid_opt_view(r) == spec_relative_endpoint(host@, name@),
{
    match host {
        EndpointID::DtnNone(_, _) => None,
        EndpointID::Dtn(_, _) => {
            let node = node_name(host).unwrap();
            let mut text = "dtn".to_owned();
            string_push_str(&mut text, "://");
            string_push_str(&mut text, node.as_str());
            string_push(&mut text, '/');
            string_push_str(&mut text, name);
            proof {
                reveal_strlit("dtn");
                reveal_strlit("://");
                assert(text@ =~= dtn_chars() + sep_chars() + spec_node_name(host@)->0 + seq!['/'] + name@);
            }
            session_endpoint(text)
        },
        EndpointID::Ipn(_, a) => {
            let t = trim_text(name);
            match str_parse_u64(t.as_str()) {
                Some(n) => if n > 0xffff_ffffu64 || (a.0 == 0 && n != 0) {
                    None
                } else {
                    Some(EndpointID::Ipn(ENDPOINT_URI_SCHEME_IPN, IpnAddress(a.0, n as u32)))
                },
                None => None,
            }
        },
    }
}

impl WsSession {
    /// Subscribes the session to `eid` where an agent of the node serves it:
    /// that agent delivers to `delivery` from now on and the reply is
    /// `200 subscribed`; otherwise nothing changes and the reply is
    /// `404 unknown endpoint`.
    pub fn subscribe_checked<D>(&mut self, core: &mut DtnCore<D>, eid: EndpointID, delivery: D) -> (r: String)
        ensures
            final(self).mode == old(self).mode,
            match first_agent(old(core).endpoints@, eid@) {
                Some(i) => {
                    &&& r@ == "200 subscribed"@
                    &&& endpoints_view(final(self).endpoints) == Some(
                        match endpoints_view(old(self).endpoints) {
                            Some(s) => s,
                            None => Set::<EidView>::empty(),
                        }.insert(eid@),
                    )
                    &&& final(core).endpoints@ == old(core).endpoints@.update(i, final(core).endpoints@[i])
                    &&& final(core).endpoints@[i]@.delivery == Some(delivery)
                    &&& final(core).endpoints@[i]@.eid == old(core).endpoints@[i]@.eid
                    &&& final(core).endpoints@[i]@.bundles == old(core).endpoints@[i]@.bundles
                },
                None => {
                    &&& r@ == "404 unknown endpoint"@
                    &&& final(self).endpoints == old(self).endpoints
                    &&& final(core).endpoints@ == old(core).endpoints@
                },
            },
    {
        proof {
            lemma_first_agent_found(core.endpoints@, eid@);
        }
        match core.get_endpoint_mut(&eid) {
            Some(aa) => {
                aa.set_delivery_addr(delivery);
                self.subscribe(eid)
            },
            None => unknown_endpoint_reply(),
        }
    }

    /// Subscribes the session to the endpoint that `name` gives under the
    /// node's endpoint `host`, as `subscribe_checked` does; where the name
    /// gives no endpoint, nothing changes and the reply is
    /// `400 invalid endpoint combination`.
    pub fn subscribe_relative<D>(&mut self, core: &mut DtnCore<D>, host: &EndpointID, name: &str, delivery: D) -> (r: String)
        ensures
            final(self).mode == old(self).mode,
            match spec_relative_endpoint(host@, name@) {
                None => {
                    &&& r@ == "400 invalid endpoint combination"@
                    &&& final(self).endpoints == old(self).endpoints
                    &&& final(core).endpoints@ == old(core).endpoints@
                },
                Some(e) => match first_agent(old(core).endpoints@, e) {
                    Some(i) => {
                        &&& r@ == "200 subscribed"@
                        &&& endpoints_view(final(self).endpoints) == Some(
                            match endpoints_view(old(self).endpoints) {
                                Some(s) => s,
                                None => Set::<EidView>::empty(),
                            }.insert(e),
                        )
                        &&& final(core).endpoints@ == old(core).endpoints@.update(i, final(core).endpoints@[i])
                        &&& final(core).endpoints@[i]@.delivery == Some(delivery)
                        &&& final(core).endpoints@[i]@.eid == old(core).endpoints@[i]@.eid
                        &&& final(core).endpoints@[i]@.bundles == old(core).endpoints@[i]@.bundles
                    },
                    None => {
                        &&& r@ == "404 unknown endpoint"@
                        &&& final(self).endpoints == old(self).endpoints
                        &&& final(core).endpoints@ == old(core).endpoints@
                    },
                },
            },
    {
        match relative_endpoint(host, name) {
            Some(e) => self.subscribe_checked(core, e, delivery),
            None => invalid_combination_reply(),
        }
    }
}

/// How often the daemon checks a session's client, in milliseconds.
pub const HEARTBEAT_INTERVAL_MS: u64 = 5000;

/// How long a client may stay silent before its session ends, in
/// milliseconds.
pub const CLIENT_TIMEOUT_MS: u64 = 30000;

/// What the daemon does at a heartbeat tick of a session.
#[derive(Debug, Clone)]
pub enum WsHeartbeat {
    /// Send a ping with this payload.
    Ping(Vec<u8>),
    /// The client stayed silent too long: end the session.
    End,
}

/// The heartbeat tick at `now` of a session whose client was last heard
/// from at `last_seen` (both in milliseconds): the session ends once more
/// than `CLIENT_TIMEOUT_MS` passed, and is pinged with `dtn7` otherwise.
/// A clock that stands before `last_seen` counts as no time passed.
pub fn heartbeat_tick(last_seen: u64, now: u64) -> (r: WsHeartbeat)
    ensures
        now > last_seen && now - last_seen > CLIENT_TIMEOUT_MS ==> r matches WsHeartbeat::End,
        !(now > last_seen && now - last_seen > CLIENT_TIMEOUT_MS) ==> (r matches WsHeartbeat::Ping(p) && p@
            == seq![0x64u8, 0x74u8, 0x6eu8, 0x37u8]),
{
    if now > last_seen && now - last_seen > CLIENT_TIMEOUT_MS {
        WsHeartbeat::End
    } else {
        WsHeartbeat::Ping(vec![0x64u8, 0x74u8, 0x6eu8, 0x37u8])
    }
}

/// In what form a bundle for a subscribed endpoint goes to the client.
#[derive(Debug, Clone, Copy, PartialEq, Eq, Structural)]
pub enum DeliveryForm {
    /// The bundle's own encoding.
    WholeBundle,
    /// Its identifier, source, destination and payload, in this format.
    Data(DataReceiveFormat),
    /// Nothing: the bundle has no payload to deliver.
    Skip,
}

impl WsSession {
    /// How a bundle is delivered to the client: whole in bundle mode, where
    /// other blocks may matter; in data mode as its payload with its
    /// identifier and endpoints, and not at all where it has no payload.
    pub fn delivery_form(&self, has_payload: bool) -> (r: DeliveryForm)
        ensures
            match self.mode {
                WsReceiveMode::Bundle => r == DeliveryForm::WholeBundle,
                WsReceiveMode::Data(f) => r == if has_payload {
                    DeliveryForm::Data(f)
                } else {
                    DeliveryForm::Skip
                },
            },
    {
        match self.mode {
            WsReceiveMode::Bundle => DeliveryForm::WholeBundle,
            WsReceiveMode::Data(f) => if has_payload {
                DeliveryForm::Data(f)
            } else {
                DeliveryForm::Skip
            },
        }
    }
}

} // verus!
