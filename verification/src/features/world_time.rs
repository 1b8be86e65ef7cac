//! Holds the time of day.

use vstd::prelude::*;

use crate::features;
use crate::features::{held_announcement, Announcement, AnnouncementView};
use crate::text;
use crate::text::{dec, zero_pad};
use crate::util;
use crate::util::classified;

verus! {

/// The feature; it remembers the time it held last.
#[derive(Clone, Copy, Debug)]
pub struct WorldTimeLock {
    pub latch: Option<(u32, u32)>,
}

/// A configured time brought into the day.
pub open spec fn time_of_day(hour: u32, minute: u32) -> (u32, u32) {
    (
        if hour > 23 {
            23
        } else {
            hour
        },
        if minute > 59 {
            59
        } else {
            minute
        },
    )
}

/// A time as `hh:mm`.
pub open spec fn clock_chars(time: (u32, u32)) -> Seq<char> {
    zero_pad(dec(time.0 as nat), 2) + ":"@ + zero_pad(dec(time.1 as nat), 2)
}

impl WorldTimeLock {
    /// Nothing held yet.
    pub fn new() -> (feature: WorldTimeLock)
        ensures
            feature.latch is None,
    {
        WorldTimeLock { latch: None }
    }

    /// The time to ask the game for this frame; none while the lock is off.
    pub fn target(&self, lock: bool, hour: u32, minute: u32) -> (time: Option<(u32, u32)>)
        ensures
            time == (if lock {
                Some(time_of_day(hour, minute))
            } else {
                None
            }),
            lock && hour <= 23 && minute <= 59 ==> time == Some((hour, minute)),
            time is Some == lock,
            time matches Some(t) ==> t.0 <= 23 && t.1 <= 59,
    {
        if !lock {
            return None;
        }
        let h: u32 = if hour > 23 {
            23
        } else {
            hour
        };
        let m: u32 = if minute > 59 {
            59
        } else {
            minute
        };
        Some((h, m))
    }

    /// After the game was asked: a time is announced when it is first held and when it changed, never
    /// while the game's clock is not there.
    pub fn held(&mut self, time: (u32, u32), live: bool) -> (said: Announcement)
        ensures
            final(self).latch == (if live {
                Some(time)
            } else {
                old(self).latch
            }),
            said@ == (if live {
                held_announcement(
                    classified(old(self).latch, time),
                    "world time locked to "@ + clock_chars(time),
                    "Time of day locked to "@ + clock_chars(time),
                )
            } else {
                AnnouncementView { line: None, toast: None }
            }),
    {
        if !live {
            return Announcement { line: None, toast: None };
        }
        let applied = util::classify_pair(&mut self.latch, time);
        let mut clock = text::two_digits(time.0 as u64);
        clock.append(":");
        clock.append(text::two_digits(time.1 as u64).as_str());
        let mut info = "world time locked to ".to_owned();
        info.append(clock.as_str());
        let mut toast = "Time of day locked to ".to_owned();
        toast.append(clock.as_str());
        features::announce_held(applied, info, toast)
    }
}

/// Whatever the configuration holds, the time asked for is one of the day's.
pub proof fn held_time_is_in_the_day(hour: u32, minute: u32)
    ensures
        time_of_day(hour, minute).0 <= 23,
        time_of_day(hour, minute).1 <= 59,
{
}

/// A configured time that is in the day is asked for unchanged; one that is not is held at the day's last hour,
/// or at the hour's last minute, and each of the two is brought into bounds on its own.
pub proof fn a_time_of_the_day_is_held_as_it_is(hour: u32, minute: u32)
    ensures
        hour <= 23 ==> time_of_day(hour, minute).0 == hour,
        minute <= 59 ==> time_of_day(hour, minute).1 == minute,
        hour <= 23 && minute <= 59 ==> time_of_day(hour, minute) == (hour, minute),
        hour >= 23 ==> time_of_day(hour, minute).0 == 23,
        minute >= 59 ==> time_of_day(hour, minute).1 == 59,
{
}

/// A later time is never held as an earlier one.
pub proof fn holding_keeps_the_order_of_times(a: u32, b: u32, x: u32, y: u32)
    requires
        a <= b,
        x <= y,
    ensures
        time_of_day(a, x).0 <= time_of_day(b, y).0,
        time_of_day(a, x).1 <= time_of_day(b, y).1,
{
}

/// A time is written with two digits each for its hour and its minute.
pub proof fn times_are_written_with_two_digits(hour: u32, minute: u32)
    ensures
        clock_chars((hour, minute)) == zero_pad(dec(hour as nat), 2) + ":"@ + zero_pad(
            dec(minute as nat),
            2,
        ),
{
}

} // verus!
