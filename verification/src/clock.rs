//! Points in time, and how far apart they are.

use chrono::{DateTime, Utc};
use vstd::prelude::*;

verus! {

/// The nanoseconds of a second.
pub const NANOS_PER_SEC: u32 = 1_000_000_000;

/// The first second that a [`Timestamp`] can hold: the start of the year -262143.
pub const MIN_SECS: i64 = -8_334_601_228_800;

/// The last second that a [`Timestamp`] can hold: the end of the year 262142.
pub const MAX_SECS: i64 = 8_210_266_876_799;

/// Whether `secs` seconds and `nanos` nanoseconds after the Unix epoch is a point in time
/// that the calendar of `chrono` reaches.
pub open spec fn in_range(secs: i64, nanos: u32) -> bool {
    MIN_SECS <= secs <= MAX_SECS && nanos < NANOS_PER_SEC
}

/// Whether `nanos` nanoseconds after the Unix epoch is a time that the clock of a machine
/// can say: not before the epoch, and within the calendar of `chrono`.
pub open spec fn is_clock_time(nanos: int) -> bool {
    0 <= nanos < (MAX_SECS + 1) * NANOS_PER_SEC
}

/// The whole milliseconds in `nanos` nanoseconds, rounded towards zero.
pub open spec fn whole_millis(nanos: int) -> int {
    if nanos >= 0 {
        nanos / 1_000_000
    } else {
        -((-nanos) / 1_000_000)
    }
}

/// A point in time (UTC).
#[derive(Clone, Copy)]
pub struct Timestamp {
    secs: i64,
    nanos: u32,
}

impl View for Timestamp {
    type V = int;

    /// The nanoseconds since the Unix epoch.
    closed spec fn view(&self) -> int {
        self.secs * NANOS_PER_SEC + self.nanos
    }
}

/// Calls `chrono::Utc::now` and takes the seconds and nanoseconds since the Unix epoch
/// out of the result. Trusted: whatever the clock says, the result is a point in time
/// that `chrono` can hold, and not before the epoch.
#[verifier::external_body]
fn utc_now() -> (now: (i64, u32))
    ensures
        in_range(now.0, now.1),
        now.0 >= 0,
{
    let now = Utc::now();
    (now.timestamp(), now.timestamp_subsec_nanos())
}

/// Whether the clock of the machine gave the time `nanos` nanoseconds after the Unix epoch
/// as the current one: whether [`utc_now`] can have returned it. Nothing but a call shows
/// that of a time.
pub closed spec fn clock_gave(nanos: int) -> bool {
    exists|now: (i64, u32)|
        #[trigger] call_ensures(utc_now, (), now) && nanos == now.0 * NANOS_PER_SEC + now.1
}

/// A time that the clock gave is one that was read from it.
proof fn lemma_clock_was_read(nanos: int) -> (now: (i64, u32))
    requires
        clock_gave(nanos),
    ensures
        call_ensures(utc_now, (), now),
        in_range(now.0, now.1),
        nanos == now.0 * 1_000_000_000 + now.1,
{
    choose|now: (i64, u32)|
        #[trigger] call_ensures(utc_now, (), now) && nanos == now.0 * NANOS_PER_SEC + now.1
}

/// The answer of `clock`.
fn ask<F: FnOnce() -> (i64, u32)>(clock: F) -> (now: (i64, u32))
    requires
        clock.requires(()),
    ensures
        clock.ensures((), now),
{
    clock()
}

/// Makes the two points in time with `chrono::DateTime::from_timestamp` and calls
/// `num_milliseconds` on their difference. Trusted: the result is the difference in whole
/// milliseconds, rounded towards zero.
#[verifier::external_body]
fn num_milliseconds(secs: i64, nanos: u32, from_secs: i64, from_nanos: u32) -> (millis: i64)
    requires
        in_range(secs, nanos),
        in_range(from_secs, from_nanos),
    ensures
        millis == whole_millis(
            (secs - from_secs) * NANOS_PER_SEC + (nanos - from_nanos),
        ),
{
    let now: DateTime<Utc> = DateTime::from_timestamp(secs, nanos).unwrap();
    let from: DateTime<Utc> = DateTime::from_timestamp(from_secs, from_nanos).unwrap();
    (now - from).num_milliseconds()
}

impl Timestamp {
    #[verifier::type_invariant]
    spec fn inv(self) -> bool {
        in_range(self.secs, self.nanos)
    }

    /// The point in time `secs` seconds and `nanos` nanoseconds after the Unix epoch, if
    /// the calendar reaches it.
    pub fn new(secs: i64, nanos: u32) -> (t: Option<Timestamp>)
        ensures
            t is Some <==> in_range(secs, nanos),
            t matches Some(t) ==> t@ == secs * NANOS_PER_SEC + nanos,
    {
        if MIN_SECS <= secs && secs <= MAX_SECS && nanos < NANOS_PER_SEC {
            Some(Timestamp { secs, nanos })
        } else {
            None
        }
    }

    /// The current time, as the clock of the machine has it.
    pub fn now() -> (t: Timestamp)
        ensures
            is_clock_time(t@),
            clock_gave(t@),
    {
        let (secs, nanos) = ask(utc_now);
        Timestamp { secs, nanos }
    }

    /// The seconds and nanoseconds since the Unix epoch.
    pub fn parts(&self) -> (r: (i64, u32))
        ensures
            in_range(r.0, r.1),
            self@ == r.0 * NANOS_PER_SEC + r.1,
    {
        proof {
            use_type_invariant(self);
        }
        (self.secs, self.nanos)
    }

    /// The whole milliseconds from `earlier` to this point in time, rounded towards zero;
    /// negative where `earlier` is in fact later.
    pub fn millis_since(&self, earlier: &Timestamp) -> (millis: i64)
        ensures
            millis == whole_millis(self@ - earlier@),
    {
        proof {
            use_type_invariant(self);
            use_type_invariant(earlier);
            assert((self.secs - earlier.secs) * NANOS_PER_SEC == self.secs * NANOS_PER_SEC
                - earlier.secs * NANOS_PER_SEC) by (nonlinear_arith);
        }
        num_milliseconds(self.secs, self.nanos, earlier.secs, earlier.nanos)
    }
}

/// A point in time is nothing but its seconds and nanoseconds.
proof fn lemma_timestamp_is_its_parts(t: Timestamp)
    ensures
        t == (Timestamp { secs: t.secs, nanos: t.nanos }),
        t@ == t.secs * 1_000_000_000 + t.nanos,
{
}

/// A time that the clock gave is a point in time that the calendar reaches, not before the
/// epoch.
pub proof fn law_clock_gives_clock_times(nanos: int)
    requires
        clock_gave(nanos),
    ensures
        is_clock_time(nanos),
        0 <= nanos < 8_210_266_876_800 * 1_000_000_000,
{
    let now = lemma_clock_was_read(nanos);
}

/// Whole milliseconds leave out less than one millisecond, towards zero on both sides.
pub proof fn law_whole_millis_round_towards_zero(nanos: int)
    ensures
        nanos >= 0 ==> 0 <= nanos - whole_millis(nanos) * 1_000_000 < 1_000_000,
        nanos <= 0 ==> -1_000_000 < nanos - whole_millis(nanos) * 1_000_000 <= 0,
        whole_millis(-nanos) == -whole_millis(nanos),
{
}

/// The calendar reaches from the start of the year -262143 to the end of the year 262142,
/// to the nanosecond; and no two points in time have the same distance to the epoch.
pub proof fn law_calendar_range(secs: i64, nanos: u32, other_secs: i64, other_nanos: u32)
    ensures
        in_range(secs, nanos) <==> -8_334_601_228_800 <= secs < 8_210_266_876_800 && nanos
            < 1_000_000_000,
        in_range(secs, nanos) && in_range(other_secs, other_nanos) && secs * NANOS_PER_SEC + nanos
            == other_secs * NANOS_PER_SEC + other_nanos ==> secs == other_secs && nanos
            == other_nanos,
        NANOS_PER_SEC == 1_000_000_000,
{
}

} // verus!
