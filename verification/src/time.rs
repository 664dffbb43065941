use vstd::prelude::*;

verus! {

/// Game minutes that pass in a second of play.
pub const MINUTES_PER_SECOND: u64 = 15;

/// Game minutes in a game hour.
pub const MINUTES_PER_HOUR: u64 = 60;

/// Game hours in a game day.
pub const HOURS_PER_DAY: u64 = 24;

/// Game minutes in a game day.
pub const MINUTES_PER_DAY: u64 = 1440;

/// The game's calendar after `seconds` of play, as `(day, hour, minute)`:
/// each second is fifteen game minutes.
pub fn game_time(seconds: u64) -> (r: (u64, u64, u64))
    requires
        seconds * MINUTES_PER_SECOND <= u64::MAX,
    ensures
        r.0 == (seconds * 15) / 1440,
        r.1 == ((seconds * 15) % 1440) / 60,
        r.2 == ((seconds * 15) % 1440) % 60,
        r.0 * 1440 + r.1 * 60 + r.2 == seconds * 15,
        r.1 < 24,
        r.2 < 60,
{
    let total_minutes = seconds * MINUTES_PER_SECOND;
    let day = total_minutes / MINUTES_PER_DAY;
    let minutes_today = total_minutes % MINUTES_PER_DAY;
    let hour = minutes_today / MINUTES_PER_HOUR;
    let minute = minutes_today % MINUTES_PER_HOUR;
    (day, hour, minute)
}

} // verus!
