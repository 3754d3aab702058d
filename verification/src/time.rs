//! Instants on the UTC time line.

use vstd::prelude::*;

verus! {

/// Microseconds in a second.
pub const MICROS_PER_SECOND: i64 = 1_000_000;

/// Microseconds in a day of 86 400 seconds.
pub const MICROS_PER_DAY: i64 = 86_400_000_000;

/// The last microsecond that the clock can report: the end of the year 262142.
pub const LATEST_MICROS: i64 = 8_210_266_876_799_999_999;

/// An instant, as microseconds since 1970-01-01T00:00:00Z.
#[derive(Clone, Copy, Debug, PartialEq, Eq, Structural, Hash)]
pub struct Timestamp {
    pub micros: i64,
}

/// `Utc::now`, as `timestamp_micros` counts it. The call fails on a clock set
/// before 1970 and on one beyond the last date that `DateTime` holds, so what
/// it returns lies between the two.
#[verifier::external_body]
fn utc_now_micros() -> (t: i64)
    ensures
        0 <= t <= LATEST_MICROS,
{
    chrono::Utc::now().timestamp_micros()
}

impl Timestamp {
    /// The instant `micros` microseconds after the epoch.
    pub fn from_micros(micros: i64) -> (t: Timestamp)
        ensures
            t.micros == micros,
    {
        Timestamp { micros }
    }

    /// The current instant.
    pub fn now() -> (t: Timestamp)
        ensures
            0 <= t.micros <= LATEST_MICROS,
    {
        Timestamp { micros: utc_now_micros() }
    }

    /// Whole seconds since the epoch, rounded towards the past.
    pub open spec fn spec_seconds(self) -> int {
        self.micros as int / MICROS_PER_SECOND as int
    }

    /// Whole seconds since the epoch, rounded towards the past.
    pub fn seconds(&self) -> (s: i64)
        ensures
            s == self.spec_seconds(),
    {
        if self.micros >= 0 {
            self.micros / MICROS_PER_SECOND
        } else {
            let up: i64 = self.micros + 1;
            let q: i64 = (0 - up) / MICROS_PER_SECOND;
            0 - q - 1
        }
    }

    /// The instant `days` days of 86 400 seconds later, where the count of
    /// microseconds still fits.
    pub fn plus_days(&self, days: i64) -> (r: Option<Timestamp>)
        ensures
            match r {
                Some(t) => t.micros == self.micros + days * MICROS_PER_DAY,
                None => !(i64::MIN <= self.micros + days * MICROS_PER_DAY <= i64::MAX),
            },
    {
        let wide_days: i128 = days as i128;
        assert(-0x8000_0000_0000_0000 * 86_400_000_000 <= wide_days * 86_400_000_000
            <= 0x8000_0000_0000_0000 * 86_400_000_000) by (nonlinear_arith)
            requires
                -0x8000_0000_0000_0000 <= wide_days <= 0x8000_0000_0000_0000,
        ;
        let span: i128 = wide_days * 86_400_000_000i128;
        let total: i128 = self.micros as i128 + span;
        if -9_223_372_036_854_775_808i128 <= total && total <= 9_223_372_036_854_775_807i128 {
            Some(Timestamp { micros: total as i64 })
        } else {
            None
        }
    }

    /// True when this instant is not after `other`.
    pub fn not_after(&self, other: &Timestamp) -> (r: bool)
        ensures
            r == (self.micros <= other.micros),
    {
        self.micros <= other.micros
    }
}

} // verus!
