//! Points in time and spans of time, counted in nanoseconds.

use vstd::prelude::*;

verus! {

/// Nanoseconds in one second.
pub const NANOS_PER_SEC: u64 = 1_000_000_000;

/// The largest distance from the epoch, in nanoseconds, that a `Timestamp`
/// holds: `u64::MAX` seconds and `u32::MAX` nanoseconds.
pub const MAX_EPOCH_OFFSET: u128 = 18_446_744_073_709_551_619_294_967_295;

/// A count of whole seconds, in nanoseconds, stays within `MAX_EPOCH_OFFSET`
/// with room for any `u32` of nanoseconds beside it.
proof fn lemma_whole_seconds_bound(secs: u64)
    ensures
        0 <= secs * NANOS_PER_SEC <= MAX_EPOCH_OFFSET - u32::MAX,
{
    assert(0 <= secs * 1_000_000_000 <= 18_446_744_073_709_551_615 * 1_000_000_000)
        by (nonlinear_arith)
        requires
            0 <= secs <= 18_446_744_073_709_551_615,
    ;
}

/// A span of time. Its view is its length in nanoseconds.
#[derive(Clone, Copy, Debug, PartialEq, Eq)]
pub struct TimeSpan {
    nanos: u128,
}

impl View for TimeSpan {
    type V = nat;

    closed spec fn view(&self) -> nat {
        self.nanos as nat
    }
}

impl TimeSpan {
    /// A span of `secs` seconds and `subsec_nanos` nanoseconds.
    pub fn new(secs: u64, subsec_nanos: u32) -> (span: TimeSpan)
        ensures
            span@ == secs * NANOS_PER_SEC + subsec_nanos,
    {
        proof {
            lemma_whole_seconds_bound(secs);
        }
        let whole: u128 = secs as u128 * NANOS_PER_SEC as u128;
        TimeSpan { nanos: whole + subsec_nanos as u128 }
    }

    /// A span of `secs` whole seconds.
    pub fn from_secs(secs: u64) -> (span: TimeSpan)
        ensures
            span@ == secs * NANOS_PER_SEC,
    {
        TimeSpan::new(secs, 0)
    }

    /// The length of the span in nanoseconds.
    pub fn as_nanos(&self) -> (n: u128)
        ensures
            n == self@,
    {
        self.nanos
    }
}

/// A point in time. Its view is its offset from the Unix epoch in
/// nanoseconds, negative for a point before the epoch.
#[derive(Clone, Copy, Debug, PartialEq, Eq)]
pub struct Timestamp {
    nanos: i128,
}

impl View for Timestamp {
    type V = int;

    closed spec fn view(&self) -> int {
        self.nanos as int
    }
}

/// The age at `now` of something recorded at `recorded`: the nanoseconds
/// between them, or `None` where the clock has gone backward.
pub open spec fn age(recorded: int, now: int) -> Option<nat> {
    if now >= recorded {
        Some((now - recorded) as nat)
    } else {
        None
    }
}

/// Whether something recorded at `recorded` is fresh at `now` under the
/// time-to-live `ttl`. Without a time-to-live every age is fresh. Where the
/// clock has gone backward nothing is.
pub open spec fn is_fresh(recorded: int, now: int, ttl: Option<nat>) -> bool {
    match age(recorded, now) {
        Some(a) => match ttl {
            Some(limit) => a < limit,
            None => true,
        },
        None => false,
    }
}

/// Under a time-to-live, what was recorded is fresh exactly while its age is
/// below the time-to-live; from that age on it is stale.
pub proof fn lemma_fresh_while_younger_than_ttl(recorded: int, now: int, ttl: nat)
    requires
        now >= recorded,
    ensures
        is_fresh(recorded, now, Some(ttl)) <==> now - recorded < ttl,
        now - recorded >= ttl ==> !is_fresh(recorded, now, Some(ttl)),
{
}

/// Without a time-to-live, what was recorded is fresh at every age.
pub proof fn lemma_fresh_without_ttl(recorded: int, now: int)
    requires
        now >= recorded,
    ensures
        is_fresh(recorded, now, None),
{
}

/// Where the clock has gone backward, nothing is fresh, with or without a
/// time-to-live.
pub proof fn lemma_clock_rollback_is_stale(recorded: int, now: int, ttl: Option<nat>)
    requires
        now < recorded,
    ensures
        !is_fresh(recorded, now, ttl),
{
}

/// The view of an optional span.
pub open spec fn span_view(span: Option<TimeSpan>) -> Option<nat> {
    match span {
        Some(s) => Some(s@),
        None => None,
    }
}

/// Two spans of the same length are the same span.
pub proof fn lemma_span_by_view(a: TimeSpan, b: TimeSpan)
    requires
        a@ == b@,
    ensures
        a == b,
{
}

/// Two timestamps at the same offset from the epoch are the same timestamp.
pub proof fn lemma_timestamp_by_view(a: Timestamp, b: Timestamp)
    requires
        a@ == b@,
    ensures
        a == b,
{
}

impl Timestamp {
    #[verifier::type_invariant]
    spec fn in_range(self) -> bool {
        -(MAX_EPOCH_OFFSET as int) <= self.nanos <= MAX_EPOCH_OFFSET as int
    }

    /// The Unix epoch.
    pub fn epoch() -> (t: Timestamp)
        ensures
            t@ == 0,
    {
        Timestamp { nanos: 0 }
    }

    /// The point `secs` seconds and `subsec_nanos` nanoseconds after the epoch.
    pub fn after_epoch(secs: u64, subsec_nanos: u32) -> (t: Timestamp)
        ensures
            t@ == secs * NANOS_PER_SEC + subsec_nanos,
    {
        proof {
            lemma_whole_seconds_bound(secs);
        }
        let whole: i128 = secs as i128 * NANOS_PER_SEC as i128;
        Timestamp { nanos: whole + subsec_nanos as i128 }
    }

    /// The point `secs` seconds and `subsec_nanos` nanoseconds before the epoch.
    pub fn before_epoch(secs: u64, subsec_nanos: u32) -> (t: Timestamp)
        ensures
            t@ == -(secs * NANOS_PER_SEC + subsec_nanos),
    {
        proof {
            lemma_whole_seconds_bound(secs);
        }
        let whole: i128 = secs as i128 * NANOS_PER_SEC as i128;
        Timestamp { nanos: -(whole + subsec_nanos as i128) }
    }

    /// The point `secs` whole seconds after the epoch.
    pub fn from_unix_secs(secs: u64) -> (t: Timestamp)
        ensures
            t@ == secs * NANOS_PER_SEC,
    {
        Timestamp::after_epoch(secs, 0)
    }

    /// The offset from the epoch in nanoseconds.
    pub fn as_nanos(&self) -> (n: i128)
        ensures
            n == self@,
    {
        self.nanos
    }

    /// Whether this point lies strictly after `other`.
    pub fn is_after(&self, other: &Timestamp) -> (b: bool)
        ensures
            b == (self@ > other@),
    {
        self.nanos > other.nanos
    }

    /// The time from this point to `now`, or `None` where `now` lies before it.
    pub fn elapsed_at(&self, now: &Timestamp) -> (r: Option<TimeSpan>)
        ensures
            span_view(r) == age(self@, now@),
    {
        proof {
            use_type_invariant(self);
            use_type_invariant(now);
        }
        if now.nanos >= self.nanos {
            let d: i128 = now.nanos - self.nanos;
            Some(TimeSpan { nanos: d as u128 })
        } else {
            None
        }
    }

    /// Whether something recorded at this point is fresh at `now` under `ttl`.
    pub fn is_fresh_at(&self, now: &Timestamp, ttl: &Option<TimeSpan>) -> (b: bool)
        ensures
            b == is_fresh(self@, now@, span_view(*ttl)),
    {
        match self.elapsed_at(now) {
            Some(elapsed) => match ttl {
                Some(limit) => elapsed.nanos < limit.nanos,
                None => true,
            },
            None => false,
        }
    }
}

} // verus!
