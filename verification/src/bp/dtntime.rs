//! DTN time: seconds since the start of the year 2000 (UTC).
use vstd::prelude::*;
use crate::text::{push_decimal, decimal, string_push};

verus! {

pub type DtnTime = u64;

/// Seconds from 1970-01-01 to 2000-01-01.
pub const SECONDS1970_TO2K: u64 = 946_684_800;

pub const DTN_TIME_EPOCH: DtnTime = 0;

/// The latest Unix time that the calendar can write: 262142-12-31 23:59:59.
pub const MAX_UNIX_TIME: u64 = 8_210_266_876_799;

/// The text that chrono's `to_rfc3339` writes for the Unix time `secs`
/// (UTC).
pub uninterp spec fn rfc3339_of_unix(secs: u64) -> Seq<char>;

/// Converts `UNIX_EPOCH + secs` to a `chrono::DateTime<Utc>` and calls
/// `to_rfc3339`; the text is the one named by `rfc3339_of_unix`. The
/// conversion panics past the calendar's last second, which `requires` rules
/// out.
#[verifier::external_body]
fn unix_to_rfc3339(secs: u64) -> (r: String)
    requires
        secs <= MAX_UNIX_TIME,
    ensures
        r@ == rfc3339_of_unix(secs),
{
    let d = std::time::UNIX_EPOCH + std::time::Duration::from_secs(secs);
    chrono::DateTime::<chrono::Utc>::from(d).to_rfc3339()
}

/// Reads the system clock: the whole seconds since 1970-01-01, or `None`
/// where the clock stands before that. Nothing is claimed of the value: it is
/// the time.
#[verifier::external_body]
fn unix_now() -> (r: Option<u64>) {
    match std::time::SystemTime::now().duration_since(std::time::UNIX_EPOCH) {
        Ok(d) => Some(d.as_secs()),
        Err(_) => None,
    }
}

/// Conversions of a DTN time.
pub trait DtnTimeHelpers: Sized {
    /// Convert to unix timestamp.
    fn unix(self) -> (r: u64)
        requires
            self.spec_secs() + SECONDS1970_TO2K <= u64::MAX,
        ensures
            r == self.spec_secs() + SECONDS1970_TO2K,
    ;

    /// The time as text, as chrono's `to_rfc3339` writes it.
    fn string(self) -> (r: String)
        requires
            self.spec_secs() + SECONDS1970_TO2K <= MAX_UNIX_TIME,
        ensures
            r@ == rfc3339_of_unix((self.spec_secs() + SECONDS1970_TO2K) as u64),
    ;

    spec fn spec_secs(self) -> nat;
}

impl DtnTimeHelpers for DtnTime {
    open spec fn spec_secs(self) -> nat {
        self as nat
    }

    fn unix(self) -> (r: u64) {
        self + SECONDS1970_TO2K
    }

    fn string(self) -> (r: String) {
        unix_to_rfc3339(self + SECONDS1970_TO2K)
    }
}

/// The DTN time of the Unix time `unix_secs`.
pub fn dtn_time_from_unix(unix_secs: u64) -> (r: DtnTime)
    requires
        unix_secs >= SECONDS1970_TO2K,
    ensures
        r == unix_secs - SECONDS1970_TO2K,
{
    unix_secs - SECONDS1970_TO2K
}

/// The DTN time of a clock reading `unix_secs` (seconds since 1970): the
/// DTN epoch where the clock gave nothing or stands before the year 2000.
pub fn dtn_time_at(unix_secs: Option<u64>) -> (r: DtnTime)
    ensures
        r == match unix_secs {
            Some(secs) => if secs >= SECONDS1970_TO2K {
                (secs - SECONDS1970_TO2K) as u64
            } else {
                DTN_TIME_EPOCH
            },
            None => DTN_TIME_EPOCH,
        },
{
    match unix_secs {
        Some(secs) => if secs >= SECONDS1970_TO2K {
            dtn_time_from_unix(secs)
        } else {
            DTN_TIME_EPOCH
        },
        None => DTN_TIME_EPOCH,
    }
}

/// Get current time as DtnTime timestamp: `dtn_time_at` of the system
/// clock's reading.
pub fn dtn_time_now() -> (r: DtnTime)
    ensures
        r <= u64::MAX - SECONDS1970_TO2K,
{
    dtn_time_at(unix_now())
}

/// Timestamp when a bundle was created, consisting of the DtnTime and a sequence number.
#[derive(Debug, Clone, Copy, PartialEq, Eq)]
pub struct CreationTimestamp(DtnTime, u64);

impl Default for CreationTimestamp {
    /// The timestamp of time 0 and sequence number 0.
    fn default() -> (r: CreationTimestamp)
        ensures
            r.spec_time() == 0,
            r.spec_seqno() == 0,
    {
        CreationTimestamp(0, 0)
    }
}

impl CreationTimestamp {
    pub closed spec fn spec_time(self) -> DtnTime {
        self.0
    }

    pub closed spec fn spec_seqno(self) -> u64 {
        self.1
    }

    pub closed spec fn spec_zero() -> CreationTimestamp {
        CreationTimestamp(0, 0)
    }

    /// A timestamp is its time and its sequence number: two timestamps are
    /// equal exactly when both agree.
    pub proof fn lemma_timestamp_parts(a: CreationTimestamp, b: CreationTimestamp)
        ensures
            (a.spec_time() == b.spec_time() && a.spec_seqno() == b.spec_seqno()) <==> a == b,
    {
    }

    /// The timestamp of time 0 and sequence number 0.
    pub fn new() -> (r: CreationTimestamp)
        ensures
            r.spec_time() == 0,
            r.spec_seqno() == 0,
            r == Self::spec_zero(),
    {
        CreationTimestamp(0, 0)
    }

    pub fn with_time_and_seq(t: DtnTime, seqno: u64) -> (r: CreationTimestamp)
        ensures
            r.spec_time() == t,
            r.spec_seqno() == seqno,
    {
        CreationTimestamp(t, seqno)
    }

    pub fn get_seqno(&self) -> (r: u64)
        ensures
            r == self.spec_seqno(),
    {
        self.1
    }

    pub fn get_dtntime(&self) -> (r: DtnTime)
        ensures
            r == self.spec_time(),
    {
        self.0
    }

    /// The time as chrono's `to_rfc3339` writes it, a space and the sequence
    /// number.
    pub fn to_string(&self) -> (r: String)
        requires
            self.spec_time() + SECONDS1970_TO2K <= MAX_UNIX_TIME,
        ensures
            r@ == rfc3339_of_unix((self.spec_time() + SECONDS1970_TO2K) as u64) + seq![' ']
                + decimal(self.spec_seqno() as nat),
    {
        let mut s = self.0.string();
        string_push(&mut s, ' ');
        push_decimal(&mut s, self.1);
        s
    }
}

} // verus!
