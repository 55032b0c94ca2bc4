//! Instants and retention periods as plain integers.

use vstd::prelude::*;

verus! {

/// Nanoseconds in one second.
pub const NANOS_PER_SEC: u32 = 1_000_000_000;

/// A point in time: whole seconds since the Unix epoch plus a nanosecond part.
#[derive(Clone, Copy, Debug, Default, PartialEq, Eq, Structural)]
pub struct Timestamp {
    pub secs: i64,
    pub nanos: u32,
}

/// How long an entry must rest after it was last played before it may go.
#[derive(Clone, Copy, Debug, PartialEq, Eq, Structural)]
pub struct RetentionPeriod {
    pub secs: u64,
    pub nanos: u32,
}

impl Timestamp {
    /// The instant as a count of nanoseconds since the epoch.
    pub open spec fn instant(self) -> int {
        self.secs * 1_000_000_000 + self.nanos
    }

    pub fn new(secs: i64, nanos: u32) -> (t: Timestamp)
        ensures
            t.secs == secs,
            t.nanos == nanos,
    {
        Timestamp { secs, nanos }
    }

    /// The instant in nanoseconds; every `Timestamp` fits.
    pub fn total_nanos(&self) -> (n: i128)
        ensures
            n == self.instant(),
    {
        self.secs as i128 * 1_000_000_000 + self.nanos as i128
    }

    /// The current instant by the system clock.
    pub fn now() -> (now: Timestamp)
        ensures
            now.nanos < NANOS_PER_SEC,
    {
        utc_now()
    }

    /// Whether `self` lies strictly before `other`.
    pub fn is_before(&self, other: &Timestamp) -> (b: bool)
        ensures
            b == (self.instant() < other.instant()),
    {
        self.total_nanos() < other.total_nanos()
    }
}

/// The instant before which an entry must have been played last to be
/// past its retention: `now` less the period, in nanoseconds since the epoch.
pub open spec fn cutoff(now: Timestamp, period: RetentionPeriod) -> int {
    now.instant() - period.span()
}

/// Whether an entry last played at `last_played` is past its retention at
/// `now`: the last play lies strictly before `now` less the period.
pub fn is_expired(last_played: &Timestamp, now: &Timestamp, period: &RetentionPeriod) -> (expired:
    bool)
    ensures
        expired == (last_played.instant() < cutoff(*now, *period)),
{
    last_played.total_nanos() < now.total_nanos() - period.total_nanos()
}

/// The retention date: the instant one period before `now`, with a
/// nanosecond part below one second. There is none where its seconds do not
/// fit the range of a timestamp.
pub fn retention_date(now: &Timestamp, period: &RetentionPeriod) -> (date: Option<Timestamp>)
    ensures
        match date {
            Some(at) => at.instant() == cutoff(*now, *period) && at.nanos < NANOS_PER_SEC,
            None => cutoff(*now, *period) < i64::MIN * 1_000_000_000 || cutoff(*now, *period)
                >= (i64::MAX + 1) * 1_000_000_000,
        },
{
    let total: i128 = now.total_nanos() - period.total_nanos();
    let mut secs: i128 = 0;
    let mut nanos: i128 = 0;
    if total >= 0 {
        secs = total / 1_000_000_000;
        nanos = total % 1_000_000_000;
    } else {
        let below: i128 = -total;
        let whole: i128 = below / 1_000_000_000;
        let part: i128 = below % 1_000_000_000;
        if part == 0 {
            secs = -whole;
        } else {
            secs = -whole - 1;
            nanos = 1_000_000_000 - part;
        }
    }
    assert(secs * 1_000_000_000 + nanos == total);
    assert(0 <= nanos < 1_000_000_000);
    if secs < -9_223_372_036_854_775_808 || secs > 9_223_372_036_854_775_807 {
        None
    } else {
        Some(Timestamp { secs: secs as i64, nanos: nanos as u32 })
    }
}

/// Reads the clock with `chrono::Utc::now` and hands the instant back as
/// the seconds and nanoseconds that chrono counts since the epoch. Of the
/// value only this is claimed: chrono builds it from a nanosecond part of
/// less than a second. chrono stops the program where the clock stands
/// before the epoch.
#[verifier::external_body]
pub(crate) fn utc_now() -> (now: Timestamp)
    ensures
        now.nanos < NANOS_PER_SEC,
{
    let now = chrono::Utc::now();
    Timestamp { secs: now.timestamp(), nanos: now.timestamp_subsec_nanos() }
}

impl RetentionPeriod {
    /// The length of the period in nanoseconds.
    pub open spec fn span(self) -> int {
        self.secs * 1_000_000_000 + self.nanos
    }

    pub fn from_secs(secs: u64) -> (p: RetentionPeriod)
        ensures
            p.secs == secs,
            p.nanos == 0,
    {
        RetentionPeriod { secs, nanos: 0 }
    }

    /// The length in nanoseconds; every period fits.
    pub fn total_nanos(&self) -> (n: i128)
        ensures
            n == self.span(),
    {
        self.secs as i128 * 1_000_000_000 + self.nanos as i128
    }
}

} // verus!
