//! Instants and spans of time as plain integers, to the nanosecond.

use vstd::prelude::*;

verus! {

/// Nanoseconds in one second.
pub const NANOS_PER_SEC: u32 = 1_000_000_000;

/// Nanoseconds in one millisecond.
pub const NANOS_PER_MILLI: u32 = 1_000_000;

/// A span of time: whole seconds and the nanoseconds of the second begun.
/// It spans what `std::time::Duration` spans.
#[derive(Clone, Copy, Debug, PartialEq, Eq, Structural)]
pub struct Duration {
    secs: u64,
    nanos: u32,
}

impl Duration {
    #[verifier::type_invariant]
    spec fn subsec_in_range(self) -> bool {
        self.nanos < NANOS_PER_SEC
    }

    /// The whole seconds of the span.
    pub closed spec fn whole_secs(self) -> nat {
        self.secs as nat
    }

    /// The nanoseconds beyond the whole seconds.
    pub closed spec fn subsec(self) -> nat {
        self.nanos as nat
    }

    /// The span is in its one canonical form.
    pub open spec fn wf(self) -> bool {
        self.subsec() < NANOS_PER_SEC
    }

    /// The length of the span in nanoseconds.
    pub open spec fn total_nanos(self) -> nat {
        self.whole_secs() * (NANOS_PER_SEC as nat) + self.subsec()
    }

    /// The span of `secs` whole seconds.
    pub closed spec fn of_secs(secs: u64) -> Duration {
        Duration { secs, nanos: 0 }
    }

    /// The span of `nanos` nanoseconds.
    pub closed spec fn of_nanos(nanos: nat) -> Duration {
        Duration {
            secs: (nanos / (NANOS_PER_SEC as nat)) as u64,
            nanos: (nanos % (NANOS_PER_SEC as nat)) as u32,
        }
    }

    /// A span of `secs` seconds and `nanos` nanoseconds, where `nanos` may
    /// be a second or more; `None` if the seconds do not fit in 64 bits.
    pub fn new(secs: u64, nanos: u32) -> (d: Option<Duration>)
        ensures
            d is Some <==> secs + nanos / NANOS_PER_SEC <= u64::MAX,
            d matches Some(span) ==> span.wf() && span.total_nanos() == secs * (
            NANOS_PER_SEC as nat) + nanos,
    {
        let carry: u64 = (nanos / NANOS_PER_SEC) as u64;
        let rest: u32 = nanos % NANOS_PER_SEC;
        if secs > u64::MAX - carry {
            None
        } else {
            assert(secs * (NANOS_PER_SEC as nat) + nanos == (secs + carry) * (NANOS_PER_SEC as nat)
                + rest) by (nonlinear_arith)
                requires
                    carry == nanos / NANOS_PER_SEC,
                    rest == nanos % NANOS_PER_SEC,
            ;
            Some(Duration { secs: secs + carry, nanos: rest })
        }
    }

    /// A span of whole seconds.
    pub fn from_secs(secs: u64) -> (d: Duration)
        ensures
            d == Duration::of_secs(secs),
            d.wf(),
            d.whole_secs() == secs,
            d.subsec() == 0,
            d.total_nanos() == secs * (NANOS_PER_SEC as nat),
    {
        Duration { secs, nanos: 0 }
    }

    /// A span of whole milliseconds.
    pub fn from_millis(millis: u64) -> (d: Duration)
        ensures
            d.wf(),
            d.total_nanos() == millis * (NANOS_PER_MILLI as nat),
    {
        let secs: u64 = millis / 1000;
        let rest: u32 = (millis % 1000) as u32;
        assert(millis * (NANOS_PER_MILLI as nat) == secs * (NANOS_PER_SEC as nat) + rest * (
        NANOS_PER_MILLI as nat)) by (nonlinear_arith)
            requires
                secs == millis / 1000,
                rest == millis % 1000,
        ;
        Duration { secs, nanos: rest * NANOS_PER_MILLI }
    }

    /// The whole seconds of the span.
    pub fn as_secs(&self) -> (s: u64)
        ensures
            s == self.whole_secs(),
            s == self.total_nanos() / (NANOS_PER_SEC as nat),
            self.wf(),
    {
        proof {
            use_type_invariant(self);
            assert(self.total_nanos() / (NANOS_PER_SEC as nat) == self.whole_secs())
                by (nonlinear_arith)
                requires
                    self.total_nanos() == self.whole_secs() * (NANOS_PER_SEC as nat)
                        + self.subsec(),
                    self.subsec() < NANOS_PER_SEC,
                    NANOS_PER_SEC == 1_000_000_000,
            ;
        }
        self.secs
    }

    /// The nanoseconds beyond the whole seconds: less than a second.
    pub fn subsec_nanos(&self) -> (n: u32)
        ensures
            n == self.subsec(),
            n < NANOS_PER_SEC,
            self.wf(),
    {
        proof {
            use_type_invariant(self);
        }
        self.nanos
    }

    /// The length of the span in nanoseconds.
    pub fn as_nanos(&self) -> (n: u128)
        ensures
            n == self.total_nanos(),
            n / (NANOS_PER_SEC as u128) <= u64::MAX,
            self.wf(),
    {
        proof {
            use_type_invariant(self);
            assert(self.secs * (NANOS_PER_SEC as nat) <= u64::MAX * (NANOS_PER_SEC as nat))
                by (nonlinear_arith);
        }
        let n: u128 = (self.secs as u128) * (NANOS_PER_SEC as u128) + (self.nanos as u128);
        assert(n / (NANOS_PER_SEC as u128) == self.secs) by (nonlinear_arith)
            requires
                n == self.secs * (NANOS_PER_SEC as nat) + self.nanos,
                self.nanos < NANOS_PER_SEC,
                NANOS_PER_SEC == 1_000_000_000,
        ;
        n
    }

    /// The span of `nanos` nanoseconds; `None` if its seconds do not fit in
    /// 64 bits.
    pub fn from_nanos(nanos: u128) -> (d: Option<Duration>)
        ensures
            d is Some <==> nanos / (NANOS_PER_SEC as u128) <= u64::MAX,
            d matches Some(span) ==> span.wf() && span.total_nanos() == nanos && span
                == Duration::of_nanos(nanos as nat),
    {
        let secs: u128 = nanos / (NANOS_PER_SEC as u128);
        let rest: u128 = nanos % (NANOS_PER_SEC as u128);
        if secs > u64::MAX as u128 {
            None
        } else {
            assert(nanos == secs * (NANOS_PER_SEC as nat) + rest) by (nonlinear_arith)
                requires
                    secs == nanos / (NANOS_PER_SEC as u128),
                    rest == nanos % (NANOS_PER_SEC as u128),
                    NANOS_PER_SEC == 1_000_000_000,
            ;
            Some(Duration { secs: secs as u64, nanos: rest as u32 })
        }
    }
}

/// The seconds of a span in canonical form fit in 64 bits.
pub proof fn lemma_wf_bounds(span: Duration)
    requires
        span.wf(),
    ensures
        span.total_nanos() / (NANOS_PER_SEC as nat) == span.whole_secs(),
        span.whole_secs() <= u64::MAX,
        span == Duration::of_nanos(span.total_nanos()),
{
    assert(span.total_nanos() / (NANOS_PER_SEC as nat) == span.whole_secs() && span.total_nanos()
        % (NANOS_PER_SEC as nat) == span.subsec()) by (nonlinear_arith)
        requires
            span.total_nanos() == span.whole_secs() * (NANOS_PER_SEC as nat) + span.subsec(),
            span.subsec() < NANOS_PER_SEC,
            NANOS_PER_SEC == 1_000_000_000,
    ;
}

/// A span of whole seconds is in canonical form, and as long as its seconds.
pub proof fn lemma_of_secs(secs: u64)
    ensures
        Duration::of_secs(secs).wf(),
        Duration::of_secs(secs).whole_secs() == secs,
        Duration::of_secs(secs).subsec() == 0,
        Duration::of_secs(secs).total_nanos() == secs * (NANOS_PER_SEC as nat),
{
}

/// A length whose seconds fit in 64 bits is the length of exactly one span in
/// canonical form.
pub proof fn lemma_of_nanos(nanos: nat)
    requires
        nanos / (NANOS_PER_SEC as nat) <= u64::MAX,
    ensures
        Duration::of_nanos(nanos).wf(),
        Duration::of_nanos(nanos).total_nanos() == nanos,
{
    assert(nanos == (nanos / (NANOS_PER_SEC as nat)) * (NANOS_PER_SEC as nat) + nanos % (
    NANOS_PER_SEC as nat)) by (nonlinear_arith)
        requires
            NANOS_PER_SEC == 1_000_000_000,
    ;
}

/// An instant: seconds since the Unix epoch, which may be negative, and the
/// nanoseconds of the second begun.
#[derive(Clone, Copy, Debug, PartialEq, Eq, Structural)]
pub struct Timestamp {
    pub secs: i64,
    pub nanos: u32,
}

impl Timestamp {
    /// The instant as nanoseconds since the epoch.
    pub open spec fn instant(self) -> int {
        self.secs * (NANOS_PER_SEC as int) + self.nanos
    }

    /// More than `limit` has passed at this instant since `earlier`.
    pub open spec fn exceeds(self, earlier: Timestamp, limit: Duration) -> bool {
        self.instant() - earlier.instant() > limit.total_nanos()
    }

    /// The instant `secs` seconds after the epoch.
    pub fn from_secs(secs: i64) -> (t: Timestamp)
        ensures
            t == (Timestamp { secs, nanos: 0 }),
    {
        Timestamp { secs, nanos: 0 }
    }

    /// The instant `millis` milliseconds after the epoch.
    pub open spec fn of_millis(millis: i64) -> Timestamp {
        Timestamp {
            secs: (millis as int / 1000) as i64,
            nanos: ((millis as int % 1000) * (NANOS_PER_MILLI as int)) as u32,
        }
    }

    /// The instant `millis` milliseconds after the epoch.
    pub fn from_millis(millis: i64) -> (t: Timestamp)
        ensures
            t == Timestamp::of_millis(millis),
            t.instant() == millis * (NANOS_PER_MILLI as int),
            t.nanos < NANOS_PER_SEC,
    {
        let q: i64 = millis / 1000;
        let r: i64 = millis % 1000;
        let (secs, rest): (i64, i64) = if r < 0 {
            (q - 1, r + 1000)
        } else {
            (q, r)
        };
        assert(millis * (NANOS_PER_MILLI as int) == secs * (NANOS_PER_SEC as int) + rest * (
        NANOS_PER_MILLI as int)) by (nonlinear_arith)
            requires
                millis == secs * 1000 + rest,
                NANOS_PER_MILLI == 1_000_000,
                NANOS_PER_SEC == 1_000_000_000,
        ;
        Timestamp { secs, nanos: (rest as u32) * NANOS_PER_MILLI }
    }

    /// The instant as nanoseconds since the epoch.
    pub fn as_nanos(&self) -> (n: i128)
        ensures
            n == self.instant(),
    {
        assert(i64::MIN * (NANOS_PER_SEC as int) <= self.secs * (NANOS_PER_SEC as int) <= i64::MAX
            * (NANOS_PER_SEC as int)) by (nonlinear_arith)
            requires
                i64::MIN <= self.secs <= i64::MAX,
        ;
        (self.secs as i128) * (NANOS_PER_SEC as i128) + (self.nanos as i128)
    }

    /// Whether more than `limit` has passed at this instant since `earlier`.
    pub fn elapsed_exceeds(&self, earlier: &Timestamp, limit: &Duration) -> (r: bool)
        ensures
            r == self.exceeds(*earlier, *limit),
    {
        let now: i128 = self.as_nanos();
        let then: i128 = earlier.as_nanos();
        let span: u128 = limit.as_nanos();
        assert(i64::MIN * (NANOS_PER_SEC as int) <= earlier.secs * (NANOS_PER_SEC as int)
            <= i64::MAX * (NANOS_PER_SEC as int)) by (nonlinear_arith)
            requires
                i64::MIN <= earlier.secs <= i64::MAX,
        ;
        assert(i64::MIN * (NANOS_PER_SEC as int) <= self.secs * (NANOS_PER_SEC as int) <= i64::MAX
            * (NANOS_PER_SEC as int)) by (nonlinear_arith)
            requires
                i64::MIN <= self.secs <= i64::MAX,
        ;
        let passed: i128 = now - then;
        if passed <= 0 {
            false
        } else {
            (passed as u128) > span
        }
    }
}

/// The first millisecond that `chrono` has a date for: the beginning of
/// January 1 of the year -262143.
pub const FIRST_DATED_MILLIS: i64 = -8_334_601_228_800_000;

/// The last millisecond that `chrono` has a date for: the end of December 31
/// of the year 262142.
pub const LAST_DATED_MILLIS: i64 = 8_210_266_876_799_999;

/// Whether `chrono` has a date for the instant `millis` milliseconds after
/// the epoch: whether its day lies in the years from -262143 to 262142.
pub open spec fn chrono_dates_millis(millis: i64) -> bool {
    FIRST_DATED_MILLIS <= millis && millis <= LAST_DATED_MILLIS
}

/// The instant that `chrono` reads from a text in the format of RFC 3339,
/// as seconds since the epoch and nanoseconds of the second, if it reads
/// one: what `DateTime::parse_from_rfc3339` gives.
pub uninterp spec fn rfc3339_instant(text: Seq<char>) -> Option<(i64, u32)>;

/// `chrono::DateTime::from_timestamp_millis`: the instant `millis`
/// milliseconds after the epoch, or `None` where it lies outside the dates
/// that `chrono` can hold, which are the days of the years from -262143 to
/// 262142. The seconds are the milliseconds divided by a thousand, rounded
/// down; the rest makes the nanoseconds.
#[verifier::external_body]
pub(crate) fn chrono_from_millis(millis: i64) -> (t: Option<Timestamp>)
    ensures
        t == if chrono_dates_millis(millis) {
            Some(Timestamp::of_millis(millis))
        } else {
            None
        },
{
    chrono::DateTime::from_timestamp_millis(millis).map(
        |date| Timestamp { secs: date.timestamp(), nanos: date.timestamp_subsec_nanos() },
    )
}

/// `chrono::DateTime::parse_from_rfc3339`: the instant that the text
/// names, or `None` where the text is not a date and time of RFC 3339.
#[verifier::external_body]
pub(crate) fn chrono_from_rfc3339(text: &str) -> (t: Option<Timestamp>)
    ensures
        t == match rfc3339_instant(text@) {
            Some(parts) => Some(Timestamp { secs: parts.0, nanos: parts.1 }),
            None => None,
        },
{
    chrono::DateTime::parse_from_rfc3339(text).ok().map(
        |date| Timestamp { secs: date.timestamp(), nanos: date.timestamp_subsec_nanos() },
    )
}

} // verus!
