//! Absolute UTC instants, held as seconds and nanoseconds since the Unix epoch.
//!
//! The calendar work (range of representable dates, RFC 3339 text) is done by
//! `chrono`; the arithmetic on epoch values is verified here.

use vstd::prelude::*;

verus! {

/// Epoch second of the first representable instant: midnight of January 1 of
/// the year -262143, the earliest date `chrono` holds
/// (`DateTime::<Utc>::MIN_UTC`).
pub const MIN_SECS: i64 = -8_334_601_228_800;

/// Epoch second of the last representable instant: 23:59:59 of December 31 of
/// the year 262142, the latest date `chrono` holds
/// (`DateTime::<Utc>::MAX_UTC`).
pub const MAX_SECS: i64 = 8_210_266_876_799;

/// Nanoseconds in one second.
pub const NANOS_PER_SEC: u32 = 1_000_000_000;

/// Whether `secs` and `nanos` denote an instant inside the representable range.
pub open spec fn in_range(secs: int, nanos: int) -> bool {
    &&& MIN_SECS <= secs <= MAX_SECS
    &&& 0 <= nanos < NANOS_PER_SEC
}

/// The text of the instant `secs` seconds and `nanos` nanoseconds after the
/// epoch in RFC 3339 form, as `chrono` writes it for UTC.
pub uninterp spec fn rfc3339_text(secs: int, nanos: int) -> Seq<char>;

/// An instant on the UTC time line.
#[derive(Debug, Clone, Copy, PartialEq, Eq, Structural)]
pub struct Timestamp {
    secs: i64,
    nanos: u32,
}

impl Timestamp {
    #[verifier::type_invariant]
    spec fn inv(self) -> bool {
        in_range(self.secs as int, self.nanos as int)
    }

    /// Whole seconds since the epoch (rounded towards negative infinity).
    pub closed spec fn spec_secs(self) -> int {
        self.secs as int
    }

    /// Nanoseconds past the whole second.
    pub closed spec fn spec_nanos(self) -> int {
        self.nanos as int
    }

    /// Whether the value lies inside the representable range. Every value
    /// that executable code holds does.
    pub open spec fn valid(self) -> bool {
        in_range(self.spec_secs(), self.spec_nanos())
    }

    /// The instant as one number: nanoseconds since the epoch.
    pub open spec fn total_nanos(self) -> int {
        self.spec_secs() * (NANOS_PER_SEC as int) + self.spec_nanos()
    }

    /// The instant `secs` seconds and `nanos` nanoseconds after the epoch, or
    /// `None` when that lies outside the representable range.
    pub fn new(secs: i64, nanos: u32) -> (r: Option<Timestamp>)
        ensures
            r is Some <==> in_range(secs as int, nanos as int),
            r matches Some(t) ==> t.spec_secs() == secs && t.spec_nanos() == nanos,
    {
        if MIN_SECS <= secs && secs <= MAX_SECS && nanos < NANOS_PER_SEC {
            Some(Timestamp { secs, nanos })
        } else {
            None
        }
    }

    /// The instant `millis` milliseconds after the epoch, or `None` when that
    /// lies outside the representable range.
    pub fn from_millis(millis: i64) -> (r: Option<Timestamp>)
        ensures
            r is Some <==> MIN_SECS <= millis as int / 1000 <= MAX_SECS,
            r matches Some(t) ==> {
                &&& t.spec_secs() == millis as int / 1000
                &&& t.spec_nanos() == (millis as int % 1000) * 1_000_000
                &&& t.valid()
            },
    {
        datetime_from_millis(millis)
    }

    /// The instant `micros` microseconds after the epoch, or `None` when that
    /// lies outside the representable range.
    pub fn from_micros(micros: i64) -> (r: Option<Timestamp>)
        ensures
            r is Some <==> MIN_SECS <= micros as int / 1_000_000 <= MAX_SECS,
            r matches Some(t) ==> {
                &&& t.spec_secs() == micros as int / 1_000_000
                &&& t.spec_nanos() == (micros as int % 1_000_000) * 1000
                &&& t.valid()
            },
    {
        datetime_from_micros(micros)
    }

    /// The instant in RFC 3339 form.
    pub fn to_rfc3339(&self) -> (s: String)
        ensures
            s@ == rfc3339_text(self.spec_secs(), self.spec_nanos()),
    {
        datetime_to_rfc3339(self)
    }

    /// Whole seconds since the epoch.
    pub fn secs(&self) -> (r: i64)
        ensures
            r == self.spec_secs(),
            self.valid(),
    {
        proof {
            use_type_invariant(self);
        }
        self.secs
    }

    /// Nanoseconds past the whole second.
    pub fn subsec_nanos(&self) -> (r: u32)
        ensures
            r == self.spec_nanos(),
            self.valid(),
    {
        proof {
            use_type_invariant(self);
        }
        self.nanos
    }

    /// Whether `self` lies strictly after `other` on the time line.
    pub fn is_after(&self, other: &Timestamp) -> (r: bool)
        ensures
            r == (self.total_nanos() > other.total_nanos()),
    {
        proof {
            use_type_invariant(self);
            use_type_invariant(other);
            lemma_total_nanos_order(*self, *other);
        }
        self.secs > other.secs || (self.secs == other.secs && self.nanos > other.nanos)
    }

    /// The instant `secs` whole seconds later, or `None` when that lies
    /// outside the representable range.
    pub fn checked_add_secs(&self, secs: u64) -> (r: Option<Timestamp>)
        ensures
            r is Some <==> self.spec_secs() + secs <= MAX_SECS,
            r matches Some(t) ==> {
                &&& t.spec_secs() == self.spec_secs() + secs
                &&& t.spec_nanos() == self.spec_nanos()
                &&& t.valid()
            },
    {
        proof {
            use_type_invariant(self);
        }
        let span: i64 = MAX_SECS - MIN_SECS;
        if secs > span as u64 {
            return None;
        }
        let sum: i64 = self.secs + (secs as i64);
        if sum > MAX_SECS {
            None
        } else {
            Some(Timestamp { secs: sum, nanos: self.nanos })
        }
    }
}

/// `chrono::DateTime::from_timestamp_millis`, read back through `timestamp`
/// and `timestamp_subsec_nanos`. The contract claims what the source shows:
/// the milliseconds are split by Euclidean division into whole seconds and
/// the nanoseconds past them, and the result is `Some` exactly when the
/// seconds fall on a date that the crate can hold.
#[verifier::external_body]
fn datetime_from_millis(millis: i64) -> (r: Option<Timestamp>)
    ensures
        r is Some <==> MIN_SECS <= millis as int / 1000 <= MAX_SECS,
        r matches Some(t) ==> {
            &&& t.spec_secs() == millis as int / 1000
            &&& t.spec_nanos() == (millis as int % 1000) * 1_000_000
            &&& t.valid()
        },
{
    match chrono::DateTime::from_timestamp_millis(millis) {
        Some(d) => Some(Timestamp { secs: d.timestamp(), nanos: d.timestamp_subsec_nanos() }),
        None => None,
    }
}

/// `chrono::DateTime::from_timestamp_micros`, read back through `timestamp`
/// and `timestamp_subsec_nanos`. The contract claims what the source shows:
/// the microseconds are split by Euclidean division into whole seconds and
/// the nanoseconds past them, and the result is `Some` exactly when the
/// seconds fall on a date that the crate can hold.
#[verifier::external_body]
fn datetime_from_micros(micros: i64) -> (r: Option<Timestamp>)
    ensures
        r is Some <==> MIN_SECS <= micros as int / 1_000_000 <= MAX_SECS,
        r matches Some(t) ==> {
            &&& t.spec_secs() == micros as int / 1_000_000
            &&& t.spec_nanos() == (micros as int % 1_000_000) * 1000
            &&& t.valid()
        },
{
    match chrono::DateTime::from_timestamp_micros(micros) {
        Some(d) => Some(Timestamp { secs: d.timestamp(), nanos: d.timestamp_subsec_nanos() }),
        None => None,
    }
}

/// `chrono::DateTime::to_rfc3339` on the UTC date and time that
/// `chrono::DateTime::from_timestamp` makes of the instant. The text is a
/// function of the instant alone; the contract gives it its name and claims
/// nothing else of it.
#[verifier::external_body]
fn datetime_to_rfc3339(t: &Timestamp) -> (s: String)
    ensures
        s@ == rfc3339_text(t.spec_secs(), t.spec_nanos()),
{
    chrono::DateTime::from_timestamp(t.secs, t.nanos).unwrap().to_rfc3339()
}

/// Comparing two valid instants by seconds and then by nanoseconds is
/// comparing their positions on the time line.
pub proof fn lemma_total_nanos_order(a: Timestamp, b: Timestamp)
    requires
        a.valid(),
        b.valid(),
    ensures
        (a.total_nanos() > b.total_nanos()) <==> (a.spec_secs() > b.spec_secs() || (a.spec_secs()
            == b.spec_secs() && a.spec_nanos() > b.spec_nanos())),
        (a.total_nanos() == b.total_nanos()) <==> a == b,
{
    let n: int = NANOS_PER_SEC as int;
    if a.spec_secs() > b.spec_secs() {
        assert(a.spec_secs() * n >= (b.spec_secs() + 1) * n) by (nonlinear_arith)
            requires
                a.spec_secs() >= b.spec_secs() + 1,
                n > 0,
        ;
        assert((b.spec_secs() + 1) * n == b.spec_secs() * n + n) by (nonlinear_arith);
    } else if a.spec_secs() < b.spec_secs() {
        assert(b.spec_secs() * n >= (a.spec_secs() + 1) * n) by (nonlinear_arith)
            requires
                b.spec_secs() >= a.spec_secs() + 1,
                n > 0,
        ;
        assert((a.spec_secs() + 1) * n == a.spec_secs() * n + n) by (nonlinear_arith);
    }
}

} // verus!
