//! Lengths of time as the database keeps them and as the crate counts them.

use vstd::prelude::*;

verus! {

/// A length of time: whole seconds and the nanoseconds beyond them.
#[derive(Clone, Copy, Debug, PartialEq, Eq, Structural)]
pub struct Span {
    pub secs: u64,
    pub nanos: u32,
}

/// An interval as a row holds it: months, days and microseconds, each
/// counted on its own.
#[derive(Clone, Copy, Debug, PartialEq, Eq, Structural)]
pub struct PgInterval {
    pub months: i32,
    pub days: i32,
    pub microseconds: i64,
}

pub const NANOS_PER_SEC: u32 = 1_000_000_000;

pub const MICROS_PER_SEC: u64 = 1_000_000;

pub const SECS_PER_DAY: u64 = 86_400;

pub const DAYS_PER_MONTH: u64 = 30;

impl Span {
    /// A span holds less than a second's worth of nanoseconds.
    pub open spec fn wf(self) -> bool {
        self.nanos < NANOS_PER_SEC
    }

    /// The span in nanoseconds.
    pub open spec fn as_nanos(self) -> nat {
        (self.secs * NANOS_PER_SEC + self.nanos) as nat
    }

    /// A span of whole seconds.
    pub fn from_secs(secs: u64) -> (span: Span)
        ensures
            span == (Span { secs, nanos: 0 }),
            span.wf(),
    {
        Span { secs, nanos: 0 }
    }
}

impl PgInterval {
    /// Whether none of the three counts is negative.
    pub open spec fn nonnegative(self) -> bool {
        self.months >= 0 && self.days >= 0 && self.microseconds >= 0
    }

    /// The interval in microseconds, a month counting thirty days.
    pub open spec fn as_micros(self) -> int {
        self.microseconds + (self.days + self.months * DAYS_PER_MONTH) * SECS_PER_DAY
            * MICROS_PER_SEC
    }

    /// The span that the interval comes to, where it has one.
    pub open spec fn span(self) -> Option<Span> {
        if self.nonnegative() {
            Some(
                Span {
                    secs: (self.as_micros() / MICROS_PER_SEC as int) as u64,
                    nanos: ((self.as_micros() % MICROS_PER_SEC as int) * 1000) as u32,
                },
            )
        } else {
            None
        }
    }

    /// The interval that holds `span` in microseconds alone.
    pub open spec fn of_span(span: Span) -> Option<PgInterval> {
        if span.nanos % 1000 == 0 && span.as_nanos() / 1000 <= i64::MAX {
            Some(PgInterval { months: 0, days: 0, microseconds: (span.as_nanos() / 1000) as i64 })
        } else {
            None
        }
    }

    /// Turns a span into an interval of microseconds. There is none where the
    /// span has nanoseconds that no whole microsecond holds, or more
    /// microseconds than 64 bits with a sign can count.
    pub fn try_from_span(span: Span) -> (interval: Option<PgInterval>)
        ensures
            interval == Self::of_span(span),
    {
        if span.nanos % 1000 != 0 {
            return None;
        }
        let micros: u128 = span.secs as u128 * 1_000_000 + (span.nanos / 1000) as u128;
        if micros > i64::MAX as u128 {
            None
        } else {
            Some(PgInterval { months: 0, days: 0, microseconds: micros as i64 })
        }
    }
}

/// Intervals of the database as lengths of time.
pub trait PgIntervalToDuration {
    /// The length of time that the interval comes to.
    spec fn duration(&self) -> Option<Span>;

    /// The interval as a span, a month counting thirty days; `None` where a
    /// count of the interval is negative.
    fn as_duration(&self) -> (span: Option<Span>)
        ensures
            span == self.duration(),
            span matches Some(s) ==> s.wf(),
    ;
}

impl PgIntervalToDuration for PgInterval {
    open spec fn duration(&self) -> Option<Span> {
        self.span()
    }

    fn as_duration(&self) -> (span: Option<Span>) {
        if self.months < 0 || self.days < 0 || self.microseconds < 0 {
            return None;
        }
        let micros: u64 = self.microseconds as u64;
        let days: u64 = self.days as u64 + self.months as u64 * DAYS_PER_MONTH;
        let secs: u64 = micros / MICROS_PER_SEC + days * SECS_PER_DAY;
        let nanos: u32 = ((micros % MICROS_PER_SEC) * 1000) as u32;
        Some(Span { secs, nanos })
    }
}

} // verus!
