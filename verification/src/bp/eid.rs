//! Endpoint identifiers in the `dtn` and `ipn` URI schemes.
use vstd::prelude::*;
use vstd::string::StrSliceExecFns;
use crate::bp::bundle::{Bp7Error, Bp7ErrorView, err_opt_view};
use crate::text::{string_push, string_push_str, spec_parse_u32, str_parse_u32};

verus! {

pub const ENDPOINT_URI_SCHEME_DTN: u8 = 1;

pub const ENDPOINT_URI_SCHEME_IPN: u8 = 2;

/// The node and service number of an `ipn` endpoint.
#[derive(Debug, Clone, Copy, PartialEq, Eq)]
pub struct IpnAddress(pub u32, pub u32);

/// An endpoint identifier: `dtn:none`, a `dtn` name, or an `ipn` address.
/// The first field is the code of the URI scheme.
#[derive(Debug, PartialEq, Eq)]
pub enum EndpointID {
    DtnNone(u8, u8),
    Dtn(u8, String),
    Ipn(u8, IpnAddress),
}

/// `EndpointID` with its text as a sequence of characters.
pub enum EidView {
    DtnNone(u8, u8),
    Dtn(u8, Seq<char>),
    Ipn(u8, IpnAddress),
}

impl View for EndpointID {
    type V = EidView;

    open spec fn view(&self) -> EidView {
        match self {
            EndpointID::DtnNone(a, b) => EidView::DtnNone(*a, *b),
            EndpointID::Dtn(a, s) => EidView::Dtn(*a, s@),
            EndpointID::Ipn(a, addr) => EidView::Ipn(*a, *addr),
        }
    }
}

impl Clone for EndpointID {
    fn clone(&self) -> (r: Self)
        ensures
            r == *self,
    {
        match self {
            EndpointID::DtnNone(a, b) => EndpointID::DtnNone(*a, *b),
            EndpointID::Dtn(a, s) => EndpointID::Dtn(*a, s.clone()),
            EndpointID::Ipn(a, addr) => EndpointID::Ipn(*a, *addr),
        }
    }
}

impl Default for EndpointID {
    fn default() -> (r: Self)
        ensures
            r == EndpointID::DtnNone(ENDPOINT_URI_SCHEME_DTN, 0),
    {
        EndpointID::DtnNone(ENDPOINT_URI_SCHEME_DTN, 0)
    }
}

pub open spec fn dtn_chars() -> Seq<char> {
    seq!['d', 't', 'n']
}

pub open spec fn ipn_chars() -> Seq<char> {
    seq!['i', 'p', 'n']
}

pub open spec fn none_chars() -> Seq<char> {
    seq!['n', 'o', 'n', 'e']
}

pub open spec fn sep_chars() -> Seq<char> {
    seq![':', '/', '/']
}

/// The first thing wrong with the identifier.
pub open spec fn eid_validation_error(e: EidView) -> Option<Bp7ErrorView> {
    match e {
        EidView::Ipn(code, addr) => if code != ENDPOINT_URI_SCHEME_IPN {
            Some(Bp7ErrorView::EIDError("Wrong URI scheme code for IPN"@))
        } else if addr.0 < 1 || addr.1 < 1 {
            Some(Bp7ErrorView::EIDError("IPN's node and service number must be >= 1"@))
        } else {
            None
        },
        EidView::DtnNone(code, addr) => if code != ENDPOINT_URI_SCHEME_DTN {
            Some(Bp7ErrorView::EIDError("Wrong URI scheme code for DTN"@))
        } else if addr != 0 {
            Some(Bp7ErrorView::EIDError("dtn none must have uint(0) set as address"@))
        } else {
            None
        },
        EidView::Dtn(_, _) => None,
    }
}


impl EndpointID {
    /// `dtn:none`, the null endpoint.
    pub fn new() -> (r: EndpointID)
        ensures
            r == EndpointID::DtnNone(ENDPOINT_URI_SCHEME_DTN, 0),
    {
        EndpointID::DtnNone(ENDPOINT_URI_SCHEME_DTN, 0)
    }

    /// The `dtn` endpoint with the scheme-specific part `addr`.
    pub fn with_dtn(addr: String) -> (r: EndpointID)
        ensures
            r == EndpointID::Dtn(ENDPOINT_URI_SCHEME_DTN, addr),
    {
        EndpointID::Dtn(ENDPOINT_URI_SCHEME_DTN, addr)
    }

    /// `dtn:none`, the null endpoint.
    pub fn with_dtn_none() -> (r: EndpointID)
        ensures
            r == EndpointID::DtnNone(ENDPOINT_URI_SCHEME_DTN, 0),
    {
        EndpointID::DtnNone(ENDPOINT_URI_SCHEME_DTN, 0)
    }

    /// The `ipn` endpoint with the address `addr`.
    pub fn with_ipn(addr: IpnAddress) -> (r: EndpointID)
        ensures
            r == EndpointID::Ipn(ENDPOINT_URI_SCHEME_IPN, addr),
    {
        EndpointID::Ipn(ENDPOINT_URI_SCHEME_IPN, addr)
    }

    pub open spec fn spec_scheme(&self) -> Seq<char> {
        match self {
            EndpointID::Ipn(_, _) => ipn_chars(),
            _ => dtn_chars(),
        }
    }

    /// The name of the URI scheme: `dtn` or `ipn`.
    pub fn get_scheme(&self) -> (r: String)
        ensures
            r@ == self.spec_scheme(),
    {
        let r = match self {
            EndpointID::DtnNone(_, _) => "dtn".to_owned(),
            EndpointID::Dtn(_, _) => "dtn".to_owned(),
            EndpointID::Ipn(_, _) => "ipn".to_owned(),
        };
        proof {
            reveal_strlit("dtn");
            reveal_strlit("ipn");
        }
        r
    }

    /// The scheme-specific part of a `dtn` name; `None` for the others.
    pub fn get_scheme_specific_part_dtn(&self) -> (r: Option<String>)
        ensures
            match self {
                EndpointID::Dtn(_, ssp) => r == Some(*ssp),
                _ => r is None,
            },
    {
        match self {
            EndpointID::Dtn(_, ssp) => Some(ssp.clone()),
            _ => None,
        }
    }

    pub open spec fn spec_to_string(&self) -> Seq<char> {
        self.spec_scheme() + sep_chars() + match self {
            EndpointID::Dtn(_, ssp) => ssp@,
            _ => none_chars(),
        }
    }

    /// `scheme://ssp` for a `dtn` name, `scheme://none` for the others.
    pub fn to_string(&self) -> (r: String)
        ensures
            r@ == self.spec_to_string(),
            r@ == eid_text(self@),
    {
        let mut result = self.get_scheme();
        string_push_str(&mut result, "://");
        match self.get_scheme_specific_part_dtn() {
            Some(ssp) => string_push_str(&mut result, ssp.as_str()),
            None => string_push_str(&mut result, "none"),
        }
        proof {
            reveal_strlit("://");
            reveal_strlit("none");
        }
        assert(result@ =~= self.spec_to_string());
        result
    }

    /// Whether the identifier is well formed: the scheme code matches the
    /// variant, `dtn:none` has address 0, and `ipn` numbers are at least 1.
    pub open spec fn spec_valid(&self) -> bool {
        match self {
            EndpointID::Dtn(_, _) => true,
            EndpointID::Ipn(code, addr) => *code == ENDPOINT_URI_SCHEME_IPN && addr.0 >= 1 && addr.1
                >= 1,
            EndpointID::DtnNone(code, addr) => *code == ENDPOINT_URI_SCHEME_DTN && *addr == 0,
        }
    }

    /// The first thing wrong with the identifier.
    pub open spec fn spec_validation_error(&self) -> Option<Bp7ErrorView> {
        eid_validation_error(self@)
    }

    /// The first thing wrong with the identifier, if any.
    pub fn validation_error(&self) -> (r: Option<Bp7Error>)
        ensures
            err_opt_view(r) == self.spec_validation_error(),
            r is None <==> self.spec_valid(),
    {
        match self {
            EndpointID::Dtn(_, _) => None,
            EndpointID::Ipn(code, addr) => {
                if *code != ENDPOINT_URI_SCHEME_IPN {
                    Some(Bp7Error::EIDError("Wrong URI scheme code for IPN".to_owned()))
                } else if addr.0 < 1 || addr.1 < 1 {
                    Some(
                        Bp7Error::EIDError(
                            "IPN's node and service number must be >= 1".to_owned(),
                        ),
                    )
                } else {
                    None
                }
            },
            EndpointID::DtnNone(code, addr) => {
                if *code != ENDPOINT_URI_SCHEME_DTN {
                    Some(Bp7Error::EIDError("Wrong URI scheme code for DTN".to_owned()))
                } else if *addr != 0 {
                    Some(
                        Bp7Error::EIDError(
                            "dtn none must have uint(0) set as address".to_owned(),
                        ),
                    )
                } else {
                    None
                }
            },
        }
    }
}

/// The scheme, host, port and path that `url::Url::parse` finds in `s`, or
/// `None` where it refuses `s`.
pub uninterp spec fn url_parse(s: Seq<char>) -> Option<(Seq<char>, Option<Seq<char>>, Option<u16>, Seq<char>)>;

pub open spec fn url_parts_view(r: Option<(String, Option<String>, Option<u16>, String)>) -> Option<
    (Seq<char>, Option<Seq<char>>, Option<u16>, Seq<char>),
> {
    match r {
        None => None,
        Some((a, b, p, c)) => Some(
            (
                a@,
                match b {
                    Some(h) => Some(h@),
                    None => None,
                },
                p,
                c@,
            ),
        ),
    }
}

/// Whether a host text holds `:` only in the bracketed form of an IPv6
/// address.
pub open spec fn colon_only_bracketed(h: Seq<char>) -> bool {
    forall|i: int| 0 <= i < h.len() && #[trigger] h[i] == ':' ==> h[0] == '['
}

/// Calls `url::Url::parse` and reads the scheme, the host, the port and the
/// path of the result; they are the ones named by `url_parse`. Claimed
/// besides, from the url crate's host parsers: a host holds `:` only where
/// it is an IPv6 address written in brackets (domains and opaque hosts
/// refuse `:`, and an IPv4 address is written in dotted decimal).
#[verifier::external_body]
pub(crate) fn url_parts(s: &str) -> (r: Option<(String, Option<String>, Option<u16>, String)>)
    ensures
        url_parts_view(r) == url_parse(s@),
        r matches Some(p) && p.1 matches Some(h) ==> colon_only_bracketed(h@),
{
    match url::Url::parse(s) {
        Ok(u) => {
            let host = match u.host_str() {
                Some(h) => Some(h.to_string()),
                None => None,
            };
            Some((u.scheme().to_string(), host, u.port(), u.path().to_string()))
        },
        Err(_) => None,
    }
}

pub open spec fn sep_at(s: Seq<char>, i: int) -> bool {
    s[i] == ':' && s[i + 1] == '/' && s[i + 2] == '/'
}

/// Whether `s` contains `://`.
pub open spec fn contains_sep(s: Seq<char>) -> bool {
    exists|i: int| 0 <= i && i + 3 <= s.len() && #[trigger] sep_at(s, i)
}

/// `s` with every `:` replaced by `://`.
pub open spec fn replace_colons(s: Seq<char>) -> Seq<char>
    decreases s.len(),
{
    if s.len() == 0 {
        Seq::empty()
    } else {
        replace_colons(s.drop_last()) + if s.last() == ':' {
            sep_chars()
        } else {
            seq![s.last()]
        }
    }
}

/// Host and path joined, without one trailing `/`.
pub open spec fn dtn_ssp(host: Seq<char>, path: Seq<char>) -> Seq<char> {
    let h = host + path;
    if h.len() > 0 && h.last() == '/' {
        h.drop_last()
    } else {
        h
    }
}

pub open spec fn only_dot_at(h: Seq<char>, i: int) -> bool {
    &&& 0 <= i < h.len()
    &&& h[i] == '.'
    &&& forall|j: int| 0 <= j < h.len() && j != i ==> h[j] != '.'
}

/// The two fields of `h` around its only dot, if it has exactly one.
pub open spec fn dot_split(h: Seq<char>) -> Option<(Seq<char>, Seq<char>)> {
    if exists|i: int| only_dot_at(h, i) {
        let i = choose|i: int| only_dot_at(h, i);
        Some((h.take(i), h.skip(i + 1)))
    } else {
        None
    }
}

/// The endpoint that a URI names: `dtn://none` and `dtn:none` name the null
/// endpoint, `dtn://a/b` the name `a/b`, `ipn://n.s` the `ipn` address, and
/// any other scheme the null endpoint; `None` where the text is no URI of
/// these forms.
pub open spec fn spec_eid_parse(item: Seq<char>) -> Option<EidView> {
    let s = if contains_sep(item) {
        item
    } else {
        replace_colons(item)
    };
    match url_parse(s) {
        None => None,
        Some((scheme, host, _port, path)) => match host {
            None => None,
            Some(h) => if scheme == dtn_chars() {
                if h == none_chars() {
                    Some(EidView::DtnNone(ENDPOINT_URI_SCHEME_DTN, 0))
                } else {
                    Some(EidView::Dtn(ENDPOINT_URI_SCHEME_DTN, dtn_ssp(h, path)))
                }
            } else if scheme == ipn_chars() {
                match dot_split(h) {
                    None => None,
                    Some((a, b)) => match (spec_parse_u32(a), spec_parse_u32(b)) {
                        (Some(x), Some(y)) => Some(
                            EidView::Ipn(ENDPOINT_URI_SCHEME_IPN, IpnAddress(x, y)),
                        ),
                        _ => None,
                    },
                }
            } else {
                Some(EidView::DtnNone(ENDPOINT_URI_SCHEME_DTN, 0))
            },
        },
    }
}

/// The text of an endpoint: `scheme://ssp` for a `dtn` name,
/// `scheme://none` for the others.
pub open spec fn eid_text(e: EidView) -> Seq<char> {
    match e {
        EidView::Dtn(_, ssp) => dtn_chars() + sep_chars() + ssp,
        EidView::Ipn(_, _) => ipn_chars() + sep_chars() + none_chars(),
        EidView::DtnNone(_, _) => dtn_chars() + sep_chars() + none_chars(),
    }
}

pub open spec fn eid_opt_view(r: Option<EndpointID>) -> Option<EidView> {
    match r {
        Some(e) => Some(e@),
        None => None,
    }
}

fn str_contains_sep(s: &str) -> (r: bool)
    ensures
        r == contains_sep(s@),
{
    let n = s.unicode_len();
    let mut i: usize = 0;
    while i < n && n - i >= 3
        invariant
            n == s@.len(),
            forall|j: int| 0 <= j < i && j + 3 <= s@.len() ==> !sep_at(s@, j),
        decreases n - i,
    {
        if s.get_char(i) == ':' && s.get_char(i + 1) == '/' && s.get_char(i + 2) == '/' {
            assert(sep_at(s@, i as int));
            return true;
        }
        i = i + 1;
    }
    false
}

fn str_replace_colons(s: &str) -> (r: String)
    ensures
        r@ == replace_colons(s@),
{
    let n = s.unicode_len();
    let mut r = String::new();
    let mut i: usize = 0;
    proof {
        reveal_strlit("://");
        assert(s@.take(0) =~= Seq::<char>::empty());
    }
    while i < n
        invariant
            i <= n,
            n == s@.len(),
            r@ == replace_colons(s@.take(i as int)),
            "://"@ == sep_chars(),
        decreases n - i,
    {
        let c = s.get_char(i);
        if c == ':' {
            string_push_str(&mut r, "://");
        } else {
            string_push(&mut r, c);
        }
        assert(s@.take(i + 1).drop_last() =~= s@.take(i as int));
        i = i + 1;
    }
    assert(s@.take(n as int) =~= s@);
    r
}

/// The two fields around the only dot of `h`.
fn split_at_only_dot(h: &str) -> (r: Option<(String, String)>)
    ensures
        match r {
            Some((a, b)) => dot_split(h@) == Some((a@, b@)),
            None => dot_split(h@) is None,
        },
{
    let n = h.unicode_len();
    let mut i: usize = 0;
    while i < n && h.get_char(i) != '.'
        invariant
            n == h@.len(),
            i <= n,
            forall|j: int| 0 <= j < i ==> h@[j] != '.',
        decreases n - i,
    {
        i = i + 1;
    }
    if i == n {
        assert(!exists|k: int| only_dot_at(h@, k));
        return None;
    }
    let mut k: usize = i + 1;
    while k < n
        invariant
            n == h@.len(),
            i < k <= n,
            h@[i as int] == '.',
            forall|j: int| 0 <= j < i ==> h@[j] != '.',
            forall|j: int| i < j < k ==> h@[j] != '.',
        decreases n - k,
    {
        if h.get_char(k) == '.' {
            assert(!exists|m: int| only_dot_at(h@, m)) by {
                assert forall|m: int| !only_dot_at(h@, m) by {
                    if only_dot_at(h@, m) {
                        assert(m == i as int);
                        assert(h@[k as int] != '.');
                    }
                }
            }
            return None;
        }
        k = k + 1;
    }
    assert(only_dot_at(h@, i as int));
    let a = h.substring_char(0, i).to_owned();
    let b = h.substring_char(i + 1, n).to_owned();
    proof {
        let c = choose|m: int| only_dot_at(h@, m);
        assert(c == i as int);
        assert(a@ =~= h@.take(i as int));
        assert(b@ =~= h@.skip(i + 1));
    }
    Some((a, b))
}

/// The endpoint named by the URI `item`, or `None` where the URI cannot be
/// parsed, has no host, or is an `ipn` URI whose host is not two numbers.
fn parse_eid(item: &str) -> (r: Option<EndpointID>)
    ensures
        eid_opt_view(r) == spec_eid_parse(item@),
{
    let s = if str_contains_sep(item) {
        item.to_owned()
    } else {
        str_replace_colons(item)
    };
    let parts = url_parts(s.as_str());
    match parts {
        None => None,
        Some((scheme, host, _port, path)) => match host {
            None => None,
            Some(h) => {
                proof {
                    reveal_strlit("dtn");
                    reveal_strlit("ipn");
                    reveal_strlit("none");
                    assert("dtn"@ =~= dtn_chars());
                    assert("ipn"@ =~= ipn_chars());
                    assert("none"@ =~= none_chars());
                }
                if scheme == "dtn".to_owned() {
                    if h == "none".to_owned() {
                        return Some(EndpointID::with_dtn_none());
                    }
                    let mut full = h.clone();
                    string_push_str(&mut full, path.as_str());
                    let n = full.as_str().unicode_len();
                    if n > 0 && full.as_str().get_char(n - 1) == '/' {
                        let t = full.as_str().substring_char(0, n - 1).to_owned();
                        assert(t@ =~= (h@ + path@).drop_last());
                        Some(EndpointID::with_dtn(t))
                    } else {
                        Some(EndpointID::with_dtn(full))
                    }
                } else if scheme == "ipn".to_owned() {
                    match split_at_only_dot(h.as_str()) {
                        None => None,
                        Some((a, b)) => {
                            let p1 = str_parse_u32(a.as_str());
                            let p2 = str_parse_u32(b.as_str());
                            match (p1, p2) {
                                (Some(x), Some(y)) => Some(EndpointID::with_ipn(IpnAddress(x, y))),
                                _ => None,
                            }
                        },
                    }
                } else {
                    Some(EndpointID::with_dtn_none())
                }
            },
        },
    }
}

impl EndpointID {
    /// The endpoint named by the URI `item`, in the `dtn` or `ipn` scheme;
    /// `dtn:` URIs without `//` are accepted too.
    pub fn from(item: String) -> (r: EndpointID)
        requires
            spec_eid_parse(item@) is Some,
        ensures
            Some(r@) == spec_eid_parse(item@),
    {
        match parse_eid(item.as_str()) {
            Some(e) => e,
            None => EndpointID::new(),
        }
    }

    /// The endpoint named by the URI `item`, or `None` where `from` cannot
    /// take it.
    pub fn try_from(item: String) -> (r: Option<EndpointID>)
        ensures
            eid_opt_view(r) == spec_eid_parse(item@),
    {
        match parse_eid(item.as_str()) {
            Some(_) => Some(Self::from(item)),
            None => None,
        }
    }
}

/// Whether two endpoint identifiers are the same.
pub fn eid_eq(a: &EndpointID, b: &EndpointID) -> (r: bool)
    ensures
        r == (a@ == b@),
{
    match (a, b) {
        (EndpointID::DtnNone(x1, y1), EndpointID::DtnNone(x2, y2)) => *x1 == *x2 && *y1 == *y2,
        (EndpointID::Dtn(x1, s1), EndpointID::Dtn(x2, s2)) => *x1 == *x2 && *s1 == *s2,
        (EndpointID::Ipn(x1, i1), EndpointID::Ipn(x2, i2)) => *x1 == *x2 && i1.0 == i2.0 && i1.1
            == i2.1,
        _ => false,
    }
}

} // verus!
