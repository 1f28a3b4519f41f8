//! The web interface's guard: which clients may use the parts of it that
//! change the node.
use vstd::prelude::*;
use crate::node::peer::IpAddress;

verus! {

/// Whether an address is the loopback address: 127.0.0.0/8 for version 4,
/// `::1` for version 6.
pub open spec fn is_loopback(a: IpAddress) -> bool {
    match a {
        IpAddress::V4(o) => o[0] == 127,
        IpAddress::V6(o) => (forall|i: int| 0 <= i < 15 ==> o[i] == 0) && o[15] == 1,
    }
}

/// The version 4 address that a version 6 address carries, as
/// `Ipv6Addr::to_ipv4` gives it: for an IPv4-compatible (`::a.b.c.d`) or
/// IPv4-mapped (`::ffff:a.b.c.d`) address its last four octets.
pub open spec fn embedded_ipv4(o: [u8; 16]) -> Option<[u8; 4]> {
    if (forall|i: int| 0 <= i < 10 ==> o[i] == 0) && ((o[10] == 0 && o[11] == 0) || (o[10] == 0xff
        && o[11] == 0xff)) {
        Some([o[12], o[13], o[14], o[15]])
    } else {
        None
    }
}

/// Whether a client at `peer` may use the guarded parts of the web
/// interface: always where the interface is configured unsafe; otherwise
/// only from the loopback address, or a version 6 address that carries the
/// version 4 loopback.
pub open spec fn spec_localhost_guard(unsafe_httpd: bool, peer: Option<IpAddress>) -> bool {
    if unsafe_httpd {
        true
    } else {
        match peer {
            None => false,
            Some(a) => is_loopback(a) || match a {
                IpAddress::V6(o) => match embedded_ipv4(o) {
                    Some(v4) => v4[0] == 127,
                    None => false,
                },
                IpAddress::V4(_) => false,
            },
        }
    }
}

fn zeros_before(o: &[u8; 16], n: usize) -> (r: bool)
    requires
        n <= 16,
    ensures
        r == forall|i: int| 0 <= i < n ==> o[i] == 0,
{
    let mut i: usize = 0;
    while i < n
        invariant
            i <= n <= 16,
            forall|j: int| 0 <= j < i ==> o[j] == 0,
        decreases n - i,
    {
        if o[i] != 0 {
            return false;
        }
        i = i + 1;
    }
    true
}

/// Decides whether a client at `peer` (none where its address is unknown)
/// may use the guarded parts of the web interface.
pub fn fn_guard_localhost(unsafe_httpd: bool, peer: Option<IpAddress>) -> (r: bool)
    ensures
        r == spec_localhost_guard(unsafe_httpd, peer),
{
    if unsafe_httpd {
        return true;
    }
    match peer {
        None => false,
        Some(IpAddress::V4(o)) => o[0] == 127,
        Some(IpAddress::V6(o)) => {
            let loopback = zeros_before(&o, 15) && o[15] == 1;
            if loopback {
                return true;
            }
            let carries_v4 = zeros_before(&o, 10) && ((o[10] == 0 && o[11] == 0) || (o[10] == 0xff
                && o[11] == 0xff));
            carries_v4 && o[12] == 127
        },
    }
}

} // verus!
