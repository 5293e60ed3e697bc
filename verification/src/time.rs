//! UTC instants and signed durations, with the precision and the ranges of
//! `chrono`'s `DateTime<Utc>` and `TimeDelta`.
//!
//! Every transition of the library receives "now" explicitly. An instant is
//! a number of nanoseconds since 1970-01-01T00:00:00Z, from
//! `DateTime::<Utc>::MIN_UTC` to `DateTime::<Utc>::MAX_UTC`; a duration
//! is a signed number of nanoseconds of at most `i64::MAX` milliseconds
//! either way. Adding a duration to an instant is defined only where the
//! sum stays in range. Leap seconds are not represented.
use vstd::prelude::*;

use crate::primitives::entropy::wall_clock;

verus! {

/// Nanoseconds in one second.
pub const NANOS_PER_SECOND: i128 = 1_000_000_000;

/// Nanoseconds in one microsecond.
pub const NANOS_PER_MICRO: i128 = 1_000;

/// The earliest instant, that of `DateTime::<Utc>::MIN_UTC`, in nanoseconds
/// since the epoch.
pub const MIN_INSTANT_NANOS: i128 = -8_334_601_228_800_000_000_000;

/// The latest instant, that of `DateTime::<Utc>::MAX_UTC`
/// (+262142-12-31T23:59:59.999999999Z), in nanoseconds since the epoch.
pub const MAX_INSTANT_NANOS: i128 = 8_210_266_876_799_999_999_999;

/// The whole seconds of the latest instant since the epoch.
pub const MAX_INSTANT_SECONDS: i64 = 8_210_266_876_799;

/// The largest magnitude of a duration, `i64::MAX` milliseconds, in
/// nanoseconds.
pub const MAX_DELTA_NANOS: i128 = 9_223_372_036_854_775_807_000_000;

/// Whether `n` nanoseconds since the epoch is a representable instant.
pub open spec fn instant_in_range(n: int) -> bool {
    MIN_INSTANT_NANOS <= n <= MAX_INSTANT_NANOS
}

/// Whether `n` nanoseconds is a representable duration.
pub open spec fn delta_in_range(n: int) -> bool {
    -MAX_DELTA_NANOS <= n <= MAX_DELTA_NANOS
}

/// A UTC instant.
#[derive(Debug, Clone, Copy, PartialEq, Eq, Structural, Hash, PartialOrd, Ord)]
pub struct Timestamp {
    nanos: i128,
}

/// A signed span of time.
#[derive(Debug, Clone, Copy, PartialEq, Eq, Structural, Hash, PartialOrd, Ord)]
pub struct TimeDelta {
    nanos: i128,
}

impl View for Timestamp {
    type V = int;

    /// Nanoseconds since the epoch.
    closed spec fn view(&self) -> int {
        self.nanos as int
    }
}

impl View for TimeDelta {
    type V = int;

    /// Nanoseconds.
    closed spec fn view(&self) -> int {
        self.nanos as int
    }
}

/// Whether `t + d` is a representable instant.
pub open spec fn add_fits(t: Timestamp, d: TimeDelta) -> bool {
    instant_in_range(t@ + d@)
}

/// `t + d` as an instant, when it is representable.
pub closed spec fn shifted(t: Timestamp, d: TimeDelta) -> Timestamp {
    Timestamp { nanos: (t@ + d@) as i128 }
}

/// Strict "earlier than" on instants.
pub open spec fn before(a: Timestamp, b: Timestamp) -> bool {
    a@ < b@
}

/// The representable instant `t + d` is `d` nanoseconds after `t`.
pub broadcast proof fn lemma_shifted(t: Timestamp, d: TimeDelta)
    requires
        add_fits(t, d),
    ensures
        #[trigger] shifted(t, d)@ == t@ + d@,
{
}

impl Timestamp {
    #[verifier::type_invariant]
    spec fn in_range(self) -> bool {
        instant_in_range(self.nanos as int)
    }

    /// The instant `nanos` nanoseconds after the epoch, if representable.
    pub fn from_unix_nanos(nanos: i128) -> (res: Option<Timestamp>)
        ensures
            instant_in_range(nanos as int) <==> res is Some,
            res matches Some(t) ==> t@ == nanos,
    {
        if MIN_INSTANT_NANOS <= nanos && nanos <= MAX_INSTANT_NANOS {
            Some(Timestamp { nanos })
        } else {
            None
        }
    }

    /// The instant `secs` seconds and `subsec_nanos` nanoseconds after the
    /// epoch, if the subsecond part is below one second and the instant is
    /// representable.
    pub fn from_unix_parts(secs: i64, subsec_nanos: u32) -> (res: Option<Timestamp>)
        ensures
            (subsec_nanos < NANOS_PER_SECOND && instant_in_range(secs * NANOS_PER_SECOND + subsec_nanos))
                <==> res is Some,
            res matches Some(t) ==> t@ == secs * NANOS_PER_SECOND + subsec_nanos,
    {
        if (subsec_nanos as i128) >= NANOS_PER_SECOND {
            return None;
        }
        let nanos: i128 = (secs as i128) * NANOS_PER_SECOND + (subsec_nanos as i128);
        Self::from_unix_nanos(nanos)
    }

    /// The instant `micros` microseconds after the epoch, if representable
    /// (as `DateTime::from_timestamp_micros`).
    pub fn from_unix_micros(micros: i64) -> (res: Option<Timestamp>)
        ensures
            instant_in_range(micros * NANOS_PER_MICRO) <==> res is Some,
            res matches Some(t) ==> t@ == micros * NANOS_PER_MICRO,
    {
        Self::from_unix_nanos((micros as i128) * NANOS_PER_MICRO)
    }

    /// Nanoseconds since the epoch.
    pub fn unix_nanos(&self) -> (res: i128)
        ensures
            res == self@,
            instant_in_range(res as int),
    {
        proof {
            use_type_invariant(self);
        }
        self.nanos
    }

    /// Whole seconds since the epoch, rounded down (as
    /// `DateTime::timestamp`).
    pub fn unix_seconds(&self) -> (res: i64)
        ensures
            res == self@ / (NANOS_PER_SECOND as int),
    {
        proof {
            use_type_invariant(self);
        }
        let (q, _r): (i128, i128) = self.floor_div_rem(NANOS_PER_SECOND);
        q as i64
    }

    /// Nanoseconds past the whole second (as
    /// `DateTime::timestamp_subsec_nanos`).
    pub fn subsec_nanos(&self) -> (res: u32)
        ensures
            res == self@ % (NANOS_PER_SECOND as int),
    {
        let (_q, r): (i128, i128) = self.floor_div_rem(NANOS_PER_SECOND);
        r as u32
    }

    /// Microseconds since the epoch, rounded down (as
    /// `DateTime::timestamp_micros`).
    pub fn unix_micros(&self) -> (res: i64)
        ensures
            res == self@ / (NANOS_PER_MICRO as int),
    {
        proof {
            use_type_invariant(self);
        }
        let (q, _r): (i128, i128) = self.floor_div_rem(NANOS_PER_MICRO);
        q as i64
    }

    /// Floor quotient and remainder of the instant by `d`, a divisor of the
    /// earliest instant.
    fn floor_div_rem(&self, d: i128) -> (res: (i128, i128))
        requires
            d == NANOS_PER_SECOND || d == NANOS_PER_MICRO,
        ensures
            res.0 == self@ / (d as int),
            res.1 == self@ % (d as int),
            (MIN_INSTANT_NANOS as int) / (d as int) <= res.0 <= (MAX_INSTANT_NANOS as int) / (d as int),
    {
        proof {
            use_type_invariant(self);
        }
        let offset: i128 = self.nanos - MIN_INSTANT_NANOS;
        let base: i128 = MIN_INSTANT_NANOS / d;
        let q: i128 = offset / d;
        let r: i128 = offset % d;
        proof {
            let n = self.nanos as int;
            let di = d as int;
            let o = offset as int;
            let qi = q as int;
            let ri = r as int;
            let bi = base as int;
            assert(MIN_INSTANT_NANOS as int == bi * di);
            assert(o == qi * di + ri && 0 <= ri < di) by (nonlinear_arith)
                requires
                    o >= 0,
                    di > 0,
                    qi == o / di,
                    ri == o % di,
            ;
            assert(n == (qi + bi) * di + ri) by (nonlinear_arith)
                requires
                    n == o + bi * di,
                    o == qi * di + ri,
            ;
            vstd::arithmetic::div_mod::lemma_fundamental_div_mod_converse(n, di, qi + bi, ri);
            vstd::arithmetic::div_mod::lemma_div_is_ordered(n, MAX_INSTANT_NANOS as int, di);
            vstd::arithmetic::div_mod::lemma_div_is_ordered(MIN_INSTANT_NANOS as int, n, di);
        }
        (q + base, r)
    }

    /// `self + delta`, panicking nowhere: `requires` excludes the sums that
    /// leave the range.
    pub fn add(self, delta: TimeDelta) -> (res: Timestamp)
        requires
            add_fits(self, delta),
        ensures
            res == shifted(self, delta),
            res@ == self@ + delta@,
    {
        proof {
            use_type_invariant(self);
            use_type_invariant(delta);
        }
        Timestamp { nanos: self.nanos + delta.nanos }
    }

    /// `self + delta`, or `None` when the sum leaves the range (as
    /// `DateTime::checked_add_signed`).
    pub fn checked_add(self, delta: TimeDelta) -> (res: Option<Timestamp>)
        ensures
            res == (if add_fits(self, delta) {
                Some(shifted(self, delta))
            } else {
                None::<Timestamp>
            }),
    {
        proof {
            use_type_invariant(self);
            use_type_invariant(delta);
        }
        let sum: i128 = self.nanos + delta.nanos;
        if MIN_INSTANT_NANOS <= sum && sum <= MAX_INSTANT_NANOS {
            Some(Timestamp { nanos: sum })
        } else {
            None
        }
    }

    /// `self - delta`, or `None` when the difference leaves the range (as
    /// `DateTime::checked_sub_signed`).
    pub fn checked_sub(self, delta: TimeDelta) -> (res: Option<Timestamp>)
        ensures
            instant_in_range(self@ - delta@) <==> res is Some,
            res matches Some(t) ==> t@ == self@ - delta@,
    {
        proof {
            use_type_invariant(self);
            use_type_invariant(delta);
        }
        Self::from_unix_nanos(self.nanos - delta.nanos)
    }

    /// Whether `self` is strictly earlier than `other`.
    pub fn is_before(&self, other: &Timestamp) -> (res: bool)
        ensures
            res == before(*self, *other),
    {
        self.nanos < other.nanos
    }
}

/// The current wall-clock instant. Nothing is promised of it: two readings
/// may differ.
pub(crate) fn utc_now() -> (res: Timestamp) {
    let (secs, subsec): (i64, u32) = wall_clock();
    let nanos: i128 = (secs as i128) * NANOS_PER_SECOND + (subsec as i128);
    proof {
        assert(0 <= nanos <= MAX_INSTANT_NANOS) by (nonlinear_arith)
            requires
                0 <= secs <= MAX_INSTANT_SECONDS,
                0 <= subsec < NANOS_PER_SECOND,
                nanos == secs * NANOS_PER_SECOND + subsec;
    }
    Timestamp { nanos }
}

impl TimeDelta {
    #[verifier::type_invariant]
    spec fn in_range(self) -> bool {
        delta_in_range(self.nanos as int)
    }

    /// `micros` microseconds (as `TimeDelta::microseconds`).
    pub fn microseconds(micros: i64) -> (res: TimeDelta)
        ensures
            res@ == micros * NANOS_PER_MICRO,
    {
        TimeDelta { nanos: (micros as i128) * NANOS_PER_MICRO }
    }

    /// `seconds` seconds; `requires` excludes what `TimeDelta::seconds`
    /// panics on.
    pub fn seconds(seconds: i64) -> (res: TimeDelta)
        requires
            delta_in_range(seconds * NANOS_PER_SECOND),
        ensures
            res@ == seconds * NANOS_PER_SECOND,
    {
        TimeDelta { nanos: (seconds as i128) * NANOS_PER_SECOND }
    }

    /// `minutes` minutes; `requires` excludes what `TimeDelta::minutes`
    /// panics on.
    pub fn minutes(minutes: i64) -> (res: TimeDelta)
        requires
            delta_in_range(minutes * 60 * NANOS_PER_SECOND),
        ensures
            res@ == minutes * 60 * NANOS_PER_SECOND,
    {
        TimeDelta { nanos: (minutes as i128) * 60 * NANOS_PER_SECOND }
    }

    /// `hours` hours; `requires` excludes what `TimeDelta::hours` panics on.
    pub fn hours(hours: i64) -> (res: TimeDelta)
        requires
            delta_in_range(hours * 3600 * NANOS_PER_SECOND),
        ensures
            res@ == hours * 3600 * NANOS_PER_SECOND,
    {
        TimeDelta { nanos: (hours as i128) * 3600 * NANOS_PER_SECOND }
    }
}

} // verus!
