//! IPND beacons: a node announces its endpoint, a sequence number, and
//! optionally its services and the period of its beacons.
use vstd::prelude::*;
use crate::bp::eid::{EndpointID, EidView, eid_text};
use crate::text::{decimal, push_decimal, string_push, string_push_str};
use super::services::{
    ServiceBlock, ServiceBlockView, spec_build_custom_service, built_view, word_count,
    GEO_LOCATION, lists_services, block_text, services_displayable,
};

verus! {

/// The IPND version this node speaks.
pub const IPND_VERSION: u8 = 0x07;

pub type BeaconFlags = u8;

/// The sender's endpoint is present (always set).
pub const SOURCE_EID_PRESENT: BeaconFlags = 0b0000_0001;

/// A service block is present.
pub const SERVICE_BLOCK_PRESENT: BeaconFlags = 0b0000_0010;

/// A beacon period is present.
pub const BEACON_PERIOD_PRESENT: BeaconFlags = 0b0000_0100;

/// Bits reserved for future use.
pub const RESERVED_BITS: BeaconFlags = 0b1111_1000;

/// A beacon.
#[derive(Debug)]
pub struct Beacon {
    version: u8,
    flags: BeaconFlags,
    eid: EndpointID,
    beacon_sequence_number: u32,
    service_block: ServiceBlock,
    beacon_period: Option<core::time::Duration>,
}

/// `Beacon` as values.
pub struct BeaconView {
    pub version: u8,
    pub flags: BeaconFlags,
    pub eid: EidView,
    pub beacon_sequence_number: u32,
    pub service_block: ServiceBlockView,
    pub beacon_period: Option<core::time::Duration>,
}

impl View for Beacon {
    type V = BeaconView;

    closed spec fn view(&self) -> BeaconView {
        BeaconView {
            version: self.version,
            flags: self.flags,
            eid: self.eid@,
            beacon_sequence_number: self.beacon_sequence_number,
            service_block: self.service_block@,
            beacon_period: self.beacon_period,
        }
    }
}

/// Whether a service block holds anything.
pub open spec fn block_nonempty(sb: ServiceBlockView) -> bool {
    sb.clas.len() != 0 || sb.services.len() != 0
}

/// The flags of a beacon built with `with_config`: the endpoint's always,
/// the service block's if it holds anything, the period's if there is one.
pub open spec fn config_flags(sb: ServiceBlockView, period: bool) -> BeaconFlags {
    (SOURCE_EID_PRESENT | if block_nonempty(sb) {
        SERVICE_BLOCK_PRESENT
    } else {
        0u8
    }) | if period {
        BEACON_PERIOD_PRESENT
    } else {
        0u8
    }
}

/// The flags of a configured beacon are truthful: the endpoint's bit is
/// set, the service block's bit exactly when it holds anything, the period's
/// bit exactly when there is one, and no reserved bit.
pub proof fn law_config_flags(sb: ServiceBlockView, period: bool)
    ensures
        config_flags(sb, period) & SOURCE_EID_PRESENT == SOURCE_EID_PRESENT,
        (config_flags(sb, period) & SERVICE_BLOCK_PRESENT == SERVICE_BLOCK_PRESENT) == block_nonempty(sb),
        (config_flags(sb, period) & BEACON_PERIOD_PRESENT == BEACON_PERIOD_PRESENT) == period,
        config_flags(sb, period) & RESERVED_BITS == 0,
{
    let a: u8 = if block_nonempty(sb) { 2u8 } else { 0u8 };
    let b: u8 = if period { 4u8 } else { 0u8 };
    assert(((1u8 | a) | b) & 1u8 == 1u8 && (((1u8 | a) | b) & 2u8 == 2u8) == (a == 2u8)
        && (((1u8 | a) | b) & 4u8 == 4u8) == (b == 4u8) && ((1u8 | a) | b) & 0xf8u8 == 0u8) by (bit_vector)
        requires
            a == 2u8 || a == 0u8,
            b == 4u8 || b == 0u8,
    ;
}

/// The hexadecimal digit `d`.
pub open spec fn hex_digit(d: nat) -> char {
    if d < 10 {
        ((d + 48) as u8) as char
    } else {
        ((d + 87) as u8) as char
    }
}

/// `n` in hexadecimal, without leading zeros.
pub open spec fn hex(n: nat) -> Seq<char>
    decreases n,
{
    if n < 16 {
        seq![hex_digit(n)]
    } else {
        hex(n / 16).push(hex_digit(n % 16))
    }
}

/// The eight bits of `b`, most significant first.
pub open spec fn bits8(b: u8) -> Seq<char> {
    Seq::new(8, |i: int| if (b >> ((7 - i) as u8)) & 1 == 1 { '1' } else { '0' })
}

/// The text that shows a beacon whose service block shows as `block`, as
/// IPND prints it; `period` is the caller's text of the beacon period.
pub open spec fn beacon_text(b: BeaconView, block: Seq<char>, period: Seq<char>) -> Seq<char> {
    "Version: "@ + seq!['0', 'x'] + hex(b.version as nat) + "\tFlags: "@ + seq!['0', '0'] + bits8(b.flags)
        + "\tBeaconSequenceNumber: "@ + decimal(b.beacon_sequence_number as nat) + "\nEID: "@
        + eid_text(b.eid) + "\nServiceBlock:\n"@ + block + "\nBeaconPeriod: "@ + if b.beacon_period is Some {
        period
    } else {
        "None"@
    }
}

fn push_bits8(s: &mut String, f: u8)
    ensures
        final(s)@ == old(s)@ + bits8(f),
{
    let ghost start = s@;
    let mut i: u8 = 0;
    while i < 8
        invariant
            i <= 8,
            s@ == start + bits8(f).take(i as int),
        decreases 8 - i,
    {
        let bit = (f >> (7 - i)) & 1;
        let c = if bit == 1 {
            '1'
        } else {
            '0'
        };
        string_push(s, c);
        assert(bits8(f).take(i + 1) =~= bits8(f).take(i as int).push(c));
        i = i + 1;
    }
    assert(bits8(f).take(8) =~= bits8(f));
}

/// Where the fields after the sequence number go when a beacon is read.
#[derive(Debug, Clone, Copy, PartialEq, Eq, Structural)]
pub enum BeaconTail {
    /// Nothing follows: no service block and no period.
    Nothing,
    /// One field follows, the service block.
    ServiceBlock,
    /// One field follows, the period in seconds.
    Period,
    /// Two fields follow: the service block, then the period.
    Both,
}

/// What the fields after the sequence number are, given the beacon's flags
/// and how many fields remain: with one, the flags tell whether it is the
/// service block or the period.
pub open spec fn spec_beacon_tail(flags: BeaconFlags, remaining: usize) -> BeaconTail {
    if remaining == 0 {
        BeaconTail::Nothing
    } else if remaining == 1 {
        if flags & SERVICE_BLOCK_PRESENT == SERVICE_BLOCK_PRESENT {
            BeaconTail::ServiceBlock
        } else {
            BeaconTail::Period
        }
    } else {
        BeaconTail::Both
    }
}

/// Reads the fields after the sequence number of a received beacon.
pub fn beacon_tail(flags: BeaconFlags, remaining: usize) -> (r: BeaconTail)
    ensures
        r == spec_beacon_tail(flags, remaining),
{
    if remaining == 0 {
        BeaconTail::Nothing
    } else if remaining == 1 {
        if flags & SERVICE_BLOCK_PRESENT == SERVICE_BLOCK_PRESENT {
            BeaconTail::ServiceBlock
        } else {
            BeaconTail::Period
        }
    } else {
        BeaconTail::Both
    }
}

fn hex_char(d: u8) -> (c: char)
    requires
        d < 16,
    ensures
        c == hex_digit(d as nat),
{
    if d < 10 {
        (d + 48) as char
    } else {
        (d + 87) as char
    }
}

impl Beacon {
    /// A beacon of `eid` without services or period, sequence number 0.
    pub fn new(eid: EndpointID) -> (r: Beacon)
        ensures
            r@.version == IPND_VERSION,
            r@.flags == SOURCE_EID_PRESENT,
            r@.eid == eid@,
            r@.beacon_sequence_number == 0,
            r@.service_block.clas.len() == 0,
            r@.service_block.services.len() == 0,
            r@.beacon_period is None,
    {
        let sb = ServiceBlock::new();
        Beacon {
            version: IPND_VERSION,
            flags: SOURCE_EID_PRESENT,
            eid,
            beacon_sequence_number: 0,
            service_block: sb,
            beacon_period: None,
        }
    }

    /// A beacon of `eid` with the given services and period, its flags
    /// saying which of them are present.
    pub fn with_config(
        eid: EndpointID,
        service_block: ServiceBlock,
        beacon_period: Option<core::time::Duration>,
    ) -> (r: Beacon)
        ensures
            r@.version == IPND_VERSION,
            r@.flags == config_flags(service_block@, beacon_period is Some),
            r@.eid == eid@,
            r@.beacon_sequence_number == 0,
            r@.service_block == service_block@,
            r@.beacon_period == beacon_period,
    {
        let block_flag: BeaconFlags = if !service_block.is_empty() {
            SERVICE_BLOCK_PRESENT
        } else {
            0
        };
        let period_flag: BeaconFlags = if beacon_period.is_some() {
            BEACON_PERIOD_PRESENT
        } else {
            0
        };
        Beacon {
            version: IPND_VERSION,
            flags: (SOURCE_EID_PRESENT | block_flag) | period_flag,
            eid,
            beacon_sequence_number: 0,
            service_block,
            beacon_period,
        }
    }

    /// The IPND version in hexadecimal, as `{:#x}` writes it.
    pub fn version(&self) -> (r: String)
        ensures
            r@ == seq!['0', 'x'] + hex(self@.version as nat),
    {
        let mut s = String::new();
        string_push(&mut s, '0');
        string_push(&mut s, 'x');
        let v = self.version;
        if v < 16 {
            string_push(&mut s, hex_char(v));
        } else {
            string_push(&mut s, hex_char(v / 16));
            string_push(&mut s, hex_char(v % 16));
            assert(hex((v / 16) as nat) == seq![hex_digit((v / 16) as nat)]);
            assert(hex(v as nat) =~= seq![hex_digit((v / 16) as nat), hex_digit((v % 16) as nat)]);
        }
        assert(s@ =~= seq!['0', 'x'] + hex(self@.version as nat));
        s
    }

    /// The flags in binary, as `{:#010b}` writes them.
    pub fn flags(&self) -> (r: String)
        ensures
            r@ == seq!['0', 'b'] + bits8(self@.flags),
    {
        let mut s = String::new();
        string_push(&mut s, '0');
        string_push(&mut s, 'b');
        push_bits8(&mut s, self.flags);
        s
    }

    /// The text that shows the beacon, as IPND prints it: version, flags,
    /// sequence number, endpoint, the service block's text and the period.
    /// `latitude` and `longitude` are the caller's texts of a location
    /// service's numbers, `period` its text of the beacon period.
    pub fn display_text(&self, latitude: &str, longitude: &str, period: &str) -> (r: String)
        requires
            services_displayable(self@.service_block.services),
        ensures
            exists|entries: Seq<(u8, Seq<u8>)>|
                lists_services(entries, self@.service_block.services) && r@ == beacon_text(
                    self@,
                    block_text(self@.service_block.clas, entries, latitude@, longitude@),
                    period@,
                ),
    {
        let mut out = "Version: ".to_owned();
        let v = self.version();
        string_push_str(&mut out, v.as_str());
        string_push_str(&mut out, "\tFlags: ");
        string_push(&mut out, '0');
        string_push(&mut out, '0');
        push_bits8(&mut out, self.flags);
        string_push_str(&mut out, "\tBeaconSequenceNumber: ");
        push_decimal(&mut out, self.beacon_sequence_number as u64);
        string_push_str(&mut out, "\nEID: ");
        let e = self.eid.to_string();
        string_push_str(&mut out, e.as_str());
        string_push_str(&mut out, "\nServiceBlock:\n");
        let b = self.service_block.display_text(latitude, longitude);
        string_push_str(&mut out, b.as_str());
        string_push_str(&mut out, "\nBeaconPeriod: ");
        if self.beacon_period.is_some() {
            string_push_str(&mut out, period);
        } else {
            string_push_str(&mut out, "None");
        }
        let ghost entries = choose|entries: Seq<(u8, Seq<u8>)>|
            lists_services(entries, self@.service_block.services) && b@ == block_text(
                self@.service_block.clas,
                entries,
                latitude@,
                longitude@,
            );
        proof {
            reveal_strlit("Version: ");
            assert(out@ =~= beacon_text(self@, b@, period@));
        }
        out
    }

    /// How many fields the beacon's encoding holds: version, flags,
    /// endpoint and sequence number, then the service block if it holds
    /// anything, then the period if there is one.
    pub fn field_count(&self) -> (r: usize)
        ensures
            r == 4 + (if block_nonempty(self@.service_block) {
                1int
            } else {
                0int
            }) + (if self@.beacon_period is Some {
                1int
            } else {
                0int
            }),
    {
        let mut n: usize = 4;
        if !self.service_block.is_empty() {
            n = n + 1;
        }
        if self.beacon_period.is_some() {
            n = n + 1;
        }
        n
    }

    /// The sender's endpoint.
    pub fn eid(&self) -> (r: &EndpointID)
        ensures
            r@ == self@.eid,
    {
        &self.eid
    }

    /// The sequence number.
    pub fn beacon_sequence_number(&self) -> (r: u32)
        ensures
            r == self@.beacon_sequence_number,
    {
        self.beacon_sequence_number
    }

    /// The service block.
    pub fn service_block(&self) -> (r: &ServiceBlock)
        ensures
            r@ == self@.service_block,
    {
        &self.service_block
    }

    /// The beacon period, if there is one.
    pub fn beacon_period(&self) -> (r: Option<core::time::Duration>)
        ensures
            r == self@.beacon_period,
    {
        self.beacon_period
    }

    fn add_flags(&mut self, flags: BeaconFlags)
        ensures
            final(self)@.flags == old(self)@.flags | flags,
            final(self)@.version == old(self)@.version,
            final(self)@.eid == old(self)@.eid,
            final(self)@.beacon_sequence_number == old(self)@.beacon_sequence_number,
            final(self)@.service_block == old(self)@.service_block,
            final(self)@.beacon_period == old(self)@.beacon_period,
    {
        self.flags = self.flags | flags;
    }

    /// Sets the sequence number.
    pub fn set_beacon_sequence_number(&mut self, bsn: u32)
        ensures
            final(self)@.beacon_sequence_number == bsn,
            final(self)@.version == old(self)@.version,
            final(self)@.flags == old(self)@.flags,
            final(self)@.eid == old(self)@.eid,
            final(self)@.service_block == old(self)@.service_block,
            final(self)@.beacon_period == old(self)@.beacon_period,
    {
        self.beacon_sequence_number = bsn;
    }

    /// Announces an agent in the service block.
    pub fn add_cla(&mut self, name: &str, port: &Option<u16>)
        ensures
            final(self)@.service_block.clas == old(self)@.service_block.clas.push((name@, *port)),
            final(self)@.service_block.services == old(self)@.service_block.services,
            final(self)@.flags == old(self)@.flags | SERVICE_BLOCK_PRESENT,
            final(self)@.eid == old(self)@.eid,
            final(self)@.beacon_sequence_number == old(self)@.beacon_sequence_number,
            final(self)@.beacon_period == old(self)@.beacon_period,
    {
        self.service_block.add_cla(name, port);
        self.add_flags(SERVICE_BLOCK_PRESENT);
    }

    /// Builds the service `tag` from `service` and announces it, where the
    /// text suits the tag; otherwise the beacon stays as it is and the
    /// message says why. `location` is as for `build_custom_service`.
    pub fn try_add_custom_service(&mut self, tag: u8, service: String, location: &[u8]) -> (r: Result<
        (),
        String,
    >)
        requires
            tag == GEO_LOCATION && word_count(service@) >= 2 ==> location@.len() == 8,
        ensures
            match spec_build_custom_service(tag, service@, location@) {
                Ok((t, bytes)) => r is Ok && final(self)@.service_block.services
                    == old(self)@.service_block.services.insert(t, bytes)
                    && final(self)@.flags == old(self)@.flags | SERVICE_BLOCK_PRESENT,
                Err(msg) => r matches Err(m) && m@ == msg && final(self)@.service_block
                    == old(self)@.service_block && final(self)@.flags == old(self)@.flags,
            },
            final(self)@.service_block.clas == old(self)@.service_block.clas,
            final(self)@.eid == old(self)@.eid,
            final(self)@.beacon_sequence_number == old(self)@.beacon_sequence_number,
            final(self)@.beacon_period == old(self)@.beacon_period,
    {
        match ServiceBlock::build_custom_service(tag, service.as_str(), location) {
            Ok(_) => {
                self.add_custom_service(tag, service, location);
                Ok(())
            },
            Err(msg) => Err(msg),
        }
    }

    /// Builds the service `tag` from `service` and announces it; the text
    /// must suit the tag.
    pub fn add_custom_service(&mut self, tag: u8, service: String, location: &[u8])
        requires
            tag == GEO_LOCATION && word_count(service@) >= 2 ==> location@.len() == 8,
            spec_build_custom_service(tag, service@, location@) is Ok,
        ensures
            final(self)@.service_block.services == old(self)@.service_block.services.insert(
                tag,
                spec_build_custom_service(tag, service@, location@)->Ok_0.1,
            ),
            final(self)@.service_block.clas == old(self)@.service_block.clas,
            final(self)@.flags == old(self)@.flags | SERVICE_BLOCK_PRESENT,
            final(self)@.eid == old(self)@.eid,
            final(self)@.beacon_sequence_number == old(self)@.beacon_sequence_number,
            final(self)@.beacon_period == old(self)@.beacon_period,
    {
        match ServiceBlock::build_custom_service(tag, service.as_str(), location) {
            Ok((_, payload)) => {
                self.service_block.add_custom_service(tag, payload.as_slice());
                self.add_flags(SERVICE_BLOCK_PRESENT);
            },
            Err(_) => {},
        }
    }
}

} // verus!
