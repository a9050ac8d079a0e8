use vstd::prelude::*;

verus! {

/// Seconds in one calendar day.
pub const SECONDS_PER_DAY: u64 = 86400;

/// Offset of the default target time zone (UTC+9) from UTC, in seconds.
pub const JST_OFFSET: u64 = 32400;

/// An instant, as whole seconds since the Unix epoch.
#[derive(Clone, Copy, Debug, PartialEq, Eq, Structural)]
pub struct UnixTime {
    pub seconds: u64,
}

/// The calendar day on which `t` falls in the zone that lies `offset`
/// seconds east of UTC.
pub open spec fn zone_day(offset: u64, t: UnixTime) -> int {
    (t.seconds + offset) / (SECONDS_PER_DAY as int)
}

/// A user whose latest draw was made at `latest` may draw again at `now`
/// exactly when `now` falls on a later calendar day of the zone.
pub open spec fn available_at(offset: u64, latest: UnixTime, now: UnixTime) -> bool {
    zone_day(offset, now) > zone_day(offset, latest)
}

/// The first second of the zone day after the one on which `latest` falls,
/// as a Unix time (before clamping to the representable range).
pub open spec fn next_day_start(offset: u64, latest: UnixTime) -> int {
    (zone_day(offset, latest) + 1) * (SECONDS_PER_DAY as int) - offset
}

impl UnixTime {
    pub fn new(seconds: u64) -> (r: UnixTime)
        ensures
            r.seconds == seconds,
    {
        UnixTime { seconds }
    }

    /// The day of the zone `offset` seconds east of UTC on which this instant falls.
    pub fn day(&self, offset: u64) -> (r: u64)
        ensures
            r == zone_day(offset, *self),
    {
        ((self.seconds as u128 + offset as u128) / (SECONDS_PER_DAY as u128)) as u64
    }
}

/// Whether a draw at `now` is allowed after the latest draw at `latest`.
pub fn is_available(offset: u64, latest: UnixTime, now: UnixTime) -> (r: bool)
    ensures
        r == available_at(offset, latest, now),
{
    now.day(offset) > latest.day(offset)
}

/// The instant at which the next daily window opens after a draw at `latest`;
/// an instant past the range of `u64` is clamped to `u64::MAX`.
pub fn next_window(offset: u64, latest: UnixTime) -> (r: UnixTime)
    ensures
        next_day_start(offset, latest) <= u64::MAX ==> r.seconds == next_day_start(offset, latest),
        next_day_start(offset, latest) > u64::MAX ==> r.seconds == u64::MAX,
{
    let day = latest.day(offset) as u128;
    proof {
        let a = latest.seconds + offset;
        assert((a / 86400 + 1) * 86400 > a) by (nonlinear_arith)
            requires a >= 0;
        assert((a / 86400 + 1) * 86400 <= 4 * 0x1_0000_0000_0000_0000 * 86400) by (nonlinear_arith)
            requires 0 <= a <= 2 * 0x1_0000_0000_0000_0000;
    }
    let start: u128 = (day + 1) * (SECONDS_PER_DAY as u128) - offset as u128;
    if start > u64::MAX as u128 {
        UnixTime { seconds: u64::MAX }
    } else {
        UnixTime { seconds: start as u64 }
    }
}

/// Two instants on the same zone day never allow a second draw.
pub proof fn lemma_same_day_unavailable(offset: u64, latest: UnixTime, now: UnixTime)
    requires
        zone_day(offset, latest) == zone_day(offset, now),
    ensures
        !available_at(offset, latest, now),
{
}

/// Any instant on a later zone day allows a draw.
pub proof fn lemma_later_day_available(offset: u64, latest: UnixTime, now: UnixTime)
    requires
        zone_day(offset, latest) < zone_day(offset, now),
    ensures
        available_at(offset, latest, now),
{
}

/// The next window opens strictly after the draw, on the following zone day,
/// and a draw becomes available exactly from that instant on.
pub proof fn lemma_next_window_opens(offset: u64, latest: UnixTime, now: UnixTime)
    ensures
        next_day_start(offset, latest) > latest.seconds,
        available_at(offset, latest, now) <==> now.seconds >= next_day_start(offset, latest),
{
    let d = SECONDS_PER_DAY as int;
    let a = latest.seconds + offset;
    let b = now.seconds + offset;
    assert(a < (a / d + 1) * d) by (nonlinear_arith)
        requires d == 86400;
    assert(b >= (a / d + 1) * d <==> b / d > a / d) by (nonlinear_arith)
        requires d == 86400, a >= 0, b >= 0;
}

} // verus!
