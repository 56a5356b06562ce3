//! Spans of time and instants, held as whole nanoseconds.

use vstd::prelude::*;

verus! {

pub const NANOS_PER_MICRO: u128 = 1_000;

pub const NANOS_PER_MILLI: u128 = 1_000_000;

pub const NANOS_PER_SEC: u128 = 1_000_000_000;

/// The longest span: `u64::MAX` seconds and 999 999 999 nanoseconds.
pub const MAX_DURATION_NANOS: u128 = 18_446_744_073_709_551_615_999_999_999;

/// Nanoseconds between the Unix epoch and 1 January 262144 BCE, the earliest instant.
pub const MIN_UNIX_NANOS: i128 = -8_334_601_228_800_000_000_000;

/// Nanoseconds between the Unix epoch and the end of the year 262142, with which the calendar ends.
pub const MAX_UNIX_NANOS: i128 = 8_210_266_876_799_999_999_999;

/// The last second of the calendar.
pub const MAX_UNIX_SECS: i64 = 8_210_266_876_799;

/// Nanoseconds between the Unix epoch and the end of the leap second that may follow the last second
/// of the calendar: the latest instant.
pub const MAX_LEAP_NANOS: i128 = 8_210_266_876_800_999_999_999;

/// A span of time. Its view is its length in nanoseconds.
#[derive(Clone, Copy, Debug, PartialEq, Eq, PartialOrd, Ord, Hash, Structural)]
pub struct Duration {
    nanos: u128,
}

impl View for Duration {
    type V = nat;

    closed spec fn view(&self) -> nat {
        self.nanos as nat
    }
}

/// Two spans of the same length are the same span.
pub broadcast proof fn duration_is_its_length(left: Duration, right: Duration)
    ensures
        (#[trigger] left@ == #[trigger] right@) ==> left == right,
{
}

/// The smaller of two lengths.
pub open spec fn shorter(left: nat, right: nat) -> nat {
    if left <= right {
        left
    } else {
        right
    }
}

/// The larger of two lengths.
pub open spec fn longer(left: nat, right: nat) -> nat {
    if left >= right {
        left
    } else {
        right
    }
}

impl Duration {
    #[verifier::type_invariant]
    spec fn fits(self) -> bool {
        self.nanos <= MAX_DURATION_NANOS
    }

    /// The empty span.
    pub fn zero() -> (result: Self)
        ensures
            result@ == 0,
    {
        Duration { nanos: 0 }
    }

    /// The longest span.
    pub fn max_value() -> (result: Self)
        ensures
            result@ == MAX_DURATION_NANOS,
    {
        Duration { nanos: MAX_DURATION_NANOS }
    }

    pub fn from_nanos(nanos: u64) -> (result: Self)
        ensures
            result@ == nanos,
    {
        Duration { nanos: nanos as u128 }
    }

    pub fn from_micros(micros: u64) -> (result: Self)
        ensures
            result@ == micros * NANOS_PER_MICRO,
    {
        Duration { nanos: micros as u128 * NANOS_PER_MICRO }
    }

    pub fn from_millis(millis: u64) -> (result: Self)
        ensures
            result@ == millis * NANOS_PER_MILLI,
    {
        Duration { nanos: millis as u128 * NANOS_PER_MILLI }
    }

    pub fn from_secs(secs: u64) -> (result: Self)
        ensures
            result@ == secs * NANOS_PER_SEC,
    {
        Duration { nanos: secs as u128 * NANOS_PER_SEC }
    }

    pub fn from_mins(mins: u64) -> (result: Self)
        requires
            mins * 60 <= u64::MAX,
        ensures
            result@ == mins * 60 * NANOS_PER_SEC,
    {
        Duration::from_secs(mins * 60)
    }

    pub fn from_hours(hours: u64) -> (result: Self)
        requires
            hours * 3_600 <= u64::MAX,
        ensures
            result@ == hours * 3_600 * NANOS_PER_SEC,
    {
        Duration::from_secs(hours * 3_600)
    }

    /// The span of `secs` seconds and `nanos` nanoseconds, `None` when it is too long.
    pub fn new(secs: u64, nanos: u32) -> (result: Option<Self>)
        ensures
            result is Some <==> secs * NANOS_PER_SEC + nanos <= MAX_DURATION_NANOS,
            result is Some ==> result->0@ == secs * NANOS_PER_SEC + nanos,
    {
        let total: u128 = secs as u128 * NANOS_PER_SEC + nanos as u128;
        if total <= MAX_DURATION_NANOS {
            Some(Duration { nanos: total })
        } else {
            None
        }
    }

    pub fn as_nanos(self) -> (result: u128)
        ensures
            result == self@,
            result <= MAX_DURATION_NANOS,
    {
        proof {
            use_type_invariant(self);
        }
        self.nanos
    }

    /// Whole milliseconds; what is left over is dropped.
    pub fn as_millis(self) -> (result: u128)
        ensures
            result == self@ / NANOS_PER_MILLI as nat,
    {
        self.nanos / NANOS_PER_MILLI
    }

    /// Whole seconds; what is left over is dropped.
    pub fn as_secs(self) -> (result: u64)
        ensures
            result == self@ / NANOS_PER_SEC as nat,
    {
        proof {
            use_type_invariant(self);
        }
        (self.nanos / NANOS_PER_SEC) as u64
    }

    /// What `as_secs` drops, in nanoseconds.
    pub fn subsec_nanos(self) -> (result: u32)
        ensures
            result == self@ % NANOS_PER_SEC as nat,
    {
        (self.nanos % NANOS_PER_SEC) as u32
    }

    pub fn is_zero(self) -> (result: bool)
        ensures
            result == (self@ == 0),
    {
        self.nanos == 0
    }

    /// Whether this span is shorter than `other`.
    pub fn shorter_than(self, other: Self) -> (result: bool)
        ensures
            result == (self@ < other@),
    {
        self.nanos < other.nanos
    }

    pub fn min_with(self, other: Self) -> (result: Self)
        ensures
            result@ == shorter(self@, other@),
    {
        if self.nanos <= other.nanos {
            self
        } else {
            other
        }
    }

    pub fn max_with(self, other: Self) -> (result: Self)
        ensures
            result@ == longer(self@, other@),
    {
        if self.nanos >= other.nanos {
            self
        } else {
            other
        }
    }

    /// The difference, or the empty span when `other` is longer.
    pub fn saturating_sub(self, other: Self) -> (result: Self)
        ensures
            result@ == if self@ >= other@ { self@ - other@ } else { 0 },
    {
        proof {
            use_type_invariant(self);
        }
        if self.nanos >= other.nanos {
            Duration { nanos: self.nanos - other.nanos }
        } else {
            Duration { nanos: 0 }
        }
    }

    /// The product, or the longest span when it does not fit.
    pub fn saturating_mul(self, factor: u32) -> (result: Self)
        ensures
            result@ == shorter(self@ * factor as nat, MAX_DURATION_NANOS as nat),
    {
        proof {
            use_type_invariant(self);
        }
        assert(self.nanos * factor <= MAX_DURATION_NANOS * u32::MAX) by (nonlinear_arith)
            requires
                self.nanos <= MAX_DURATION_NANOS,
                factor <= u32::MAX,
        ;
        let product: u128 = self.nanos * factor as u128;
        if product <= MAX_DURATION_NANOS {
            Duration { nanos: product }
        } else {
            Duration { nanos: MAX_DURATION_NANOS }
        }
    }

    /// A third of the span, rounded down.
    pub fn third(self) -> (result: Self)
        ensures
            result@ == self@ / 3,
    {
        proof {
            use_type_invariant(self);
        }
        Duration { nanos: self.nanos / 3 }
    }

    /// Two thirds of the span, rounded down.
    pub fn two_thirds(self) -> (result: Self)
        ensures
            result@ == self@ * 2 / 3,
    {
        proof {
            use_type_invariant(self);
        }
        Duration { nanos: self.nanos * 2 / 3 }
    }
}

/// An instant. Its view is the number of nanoseconds since the Unix epoch.
#[derive(Clone, Copy, Debug, PartialEq, Eq, PartialOrd, Ord, Hash, Structural)]
pub struct Timestamp {
    nanos: i128,
}

impl View for Timestamp {
    type V = int;

    closed spec fn view(&self) -> int {
        self.nanos as int
    }
}

/// Two instants at the same distance from the epoch are the same instant.
pub broadcast proof fn timestamp_is_its_distance(left: Timestamp, right: Timestamp)
    ensures
        (#[trigger] left@ == #[trigger] right@) ==> left == right,
{
}

/// Whether the instant that many nanoseconds from the epoch is in the calendar.
pub open spec fn instant_exists(nanos: int) -> bool {
    MIN_UNIX_NANOS <= nanos <= MAX_UNIX_NANOS
}

/// Whether time goes on from one instant to another: up to the end of the calendar, and from an
/// instant in the leap second after it up to the end of that.
pub open spec fn reaches(from: int, to: int) -> bool {
    MIN_UNIX_NANOS <= to && to <= if from > MAX_UNIX_NANOS {
        MAX_LEAP_NANOS as int
    } else {
        MAX_UNIX_NANOS as int
    }
}

/// Whether there is an instant `nanos` nanoseconds after the `secs`-th second of the epoch. More
/// than a second of them make a leap second, which only follows the last second of a minute.
pub open spec fn parts_exist(secs: i64, nanos: u32) -> bool {
    &&& instant_exists(secs * NANOS_PER_SEC)
    &&& nanos < 2 * NANOS_PER_SEC
    &&& nanos >= NANOS_PER_SEC ==> secs as int % 60 == 59
}

/// The second of the epoch that an instant is in; the leap second after the calendar belongs to the
/// last one.
pub open spec fn second_of(instant: int) -> int {
    if instant > MAX_UNIX_NANOS {
        MAX_UNIX_SECS as int
    } else {
        instant / NANOS_PER_SEC as int
    }
}

/// The nanoseconds from the second of an instant to the instant.
pub open spec fn nanos_in_second(instant: int) -> int {
    instant - second_of(instant) * NANOS_PER_SEC
}

impl Timestamp {
    #[verifier::type_invariant]
    spec fn fits(self) -> bool {
        MIN_UNIX_NANOS <= self.nanos <= MAX_LEAP_NANOS
    }

    /// The instant at that distance from the epoch, `None` outside the calendar.
    pub fn from_unix_nanos(nanos: i128) -> (result: Option<Self>)
        ensures
            result is Some <==> instant_exists(nanos as int),
            result is Some ==> result->0@ == nanos,
    {
        if MIN_UNIX_NANOS <= nanos && nanos <= MAX_UNIX_NANOS {
            Some(Timestamp { nanos })
        } else {
            None
        }
    }

    /// The instant that many seconds from the epoch, `None` outside the calendar.
    pub fn from_unix_secs(secs: i64) -> (result: Option<Self>)
        ensures
            result is Some <==> instant_exists(secs * 1_000_000_000),
            result is Some ==> result->0@ == secs * 1_000_000_000,
    {
        Timestamp::from_unix_nanos(secs as i128 * 1_000_000_000)
    }

    /// The instant `nanos` nanoseconds after the `secs`-th second of the epoch, where there is one.
    pub fn from_parts(secs: i64, nanos: u32) -> (result: Option<Self>)
        ensures
            result is Some <==> parts_exist(secs, nanos),
            result is Some ==> result->0@ == secs * NANOS_PER_SEC + nanos,
    {
        let start: i128 = secs as i128 * 1_000_000_000;
        if start < MIN_UNIX_NANOS || start > MAX_UNIX_NANOS || nanos >= 2_000_000_000 {
            return None;
        }
        if nanos >= 1_000_000_000 {
            // Seconds of the calendar are counted from its first minute, so none is negative.
            let place: u64 = (secs + 8_334_601_228_800) as u64;
            assert(place as int == secs + 60 * 138_910_020_480);
            if place % 60 != 59 {
                return None;
            }
        }
        Some(Timestamp { nanos: start + nanos as i128 })
    }

    /// The instant that many nanoseconds from the epoch, where time goes on to it from this one.
    pub fn onward(self, nanos: i128) -> (result: Option<Self>)
        ensures
            result is Some <==> reaches(self@, nanos as int),
            result is Some ==> result->0@ == nanos,
    {
        let end: i128 = if self.nanos > MAX_UNIX_NANOS {
            MAX_LEAP_NANOS
        } else {
            MAX_UNIX_NANOS
        };
        if MIN_UNIX_NANOS <= nanos && nanos <= end {
            Some(Timestamp { nanos })
        } else {
            None
        }
    }

    pub fn unix_nanos(self) -> (result: i128)
        ensures
            result == self@,
            MIN_UNIX_NANOS <= self@ <= MAX_LEAP_NANOS,
    {
        proof {
            use_type_invariant(self);
        }
        self.nanos
    }

    /// The second of the epoch that the instant is in, and the nanoseconds that are left.
    pub fn split(self) -> (result: (i64, u32))
        ensures
            result.0 == second_of(self@),
            result.1 == nanos_in_second(self@),
            parts_exist(result.0, result.1),
            instant_exists(self@) ==> result.1 == self@ % NANOS_PER_SEC as int,
    {
        proof {
            use_type_invariant(self);
        }
        if self.nanos > MAX_UNIX_NANOS {
            (MAX_UNIX_SECS, (self.nanos - MAX_UNIX_SECS as i128 * 1_000_000_000) as u32)
        } else if self.nanos >= 0 {
            let distance: u128 = self.nanos as u128;
            ((distance / NANOS_PER_SEC) as i64, (distance % NANOS_PER_SEC) as u32)
        } else {
            let distance: u128 = (-self.nanos) as u128;
            let secs: u128 = (distance + (NANOS_PER_SEC - 1)) / NANOS_PER_SEC;
            let nanos: u128 = secs * NANOS_PER_SEC - distance;
            assert(self.nanos == -(secs as int) * NANOS_PER_SEC + nanos);
            (-(secs as i64), nanos as u32)
        }
    }

    /// Whether this instant comes after `other`.
    pub fn after(self, other: Self) -> (result: bool)
        ensures
            result == (self@ > other@),
    {
        self.nanos > other.nanos
    }

    /// The instant `span` later, `None` where time does not go on to it.
    pub fn checked_add(self, span: Duration) -> (result: Option<Self>)
        ensures
            result is Some <==> reaches(self@, self@ + span@),
            result is Some ==> result->0@ == self@ + span@,
    {
        proof {
            use_type_invariant(self);
            use_type_invariant(span);
        }
        self.onward(self.nanos + span.nanos as i128)
    }

    /// How long ago `earlier` was, the empty span when it is still to come.
    pub fn saturating_since(self, earlier: Self) -> (result: Duration)
        ensures
            result@ == if self@ >= earlier@ { self@ - earlier@ } else { 0 },
    {
        proof {
            use_type_invariant(self);
            use_type_invariant(earlier);
        }
        if self.nanos >= earlier.nanos {
            Duration { nanos: (self.nanos - earlier.nanos) as u128 }
        } else {
            Duration { nanos: 0 }
        }
    }
}

/// The shorter of two spans is one of them and not above the other; the longer is the other one.
pub proof fn spans_are_compared_by_length(left: nat, right: nat)
    ensures
        shorter(left, right) <= left && shorter(left, right) <= right,
        longer(left, right) >= left && longer(left, right) >= right,
        shorter(left, right) == left || shorter(left, right) == right,
        shorter(left, right) + longer(left, right) == left + right,
{
}

/// An instant is its second and the nanoseconds after it, of which there is less than a second but
/// for a leap second; and time goes on to every instant of the calendar, but not past its end.
pub proof fn instants_are_their_parts(instant: int, later: int)
    requires
        MIN_UNIX_NANOS <= instant <= MAX_LEAP_NANOS,
    ensures
        second_of(instant) * 1_000_000_000 + nanos_in_second(instant) == instant,
        0 <= nanos_in_second(instant) < 2_000_000_000,
        instant_exists(instant) ==> nanos_in_second(instant) < 1_000_000_000,
        instant_exists(later) ==> reaches(instant, later),
        reaches(instant, later) ==> later <= MAX_LEAP_NANOS && (instant_exists(instant)
            ==> instant_exists(later)),
{
}

/// The calendar of instants begins and ends where it does, and a second lasts longer than a
/// second only as the last of its minute.
pub proof fn seconds_have_their_length(secs: i64, nanos: u32, instant: int)
    ensures
        instant_exists(instant) <==> -8_334_601_228_800_000_000_000 <= instant
            <= 8_210_266_876_799_999_999_999,
        parts_exist(secs, nanos) && secs as int % 60 != 59 ==> nanos < 1_000_000_000,
        parts_exist(secs, nanos) ==> nanos < 2_000_000_000 && instant_exists(secs * 1_000_000_000),
        instant_exists(secs * 1_000_000_000) && nanos < 1_000_000_000 ==> parts_exist(secs, nanos),
        instant_exists(secs * 1_000_000_000) && secs as int % 60 == 59 && nanos < 2_000_000_000
            ==> parts_exist(secs, nanos),
        instant_exists(instant) ==> second_of(instant) == instant / 1_000_000_000,
{
}

} // verus!
