//! The story clock: how much simulated time has passed, how it is read as days, hours
//! and minutes, and how the clock is reconciled with the real world when a story is
//! taken up again.

use chrono::TimeZone;
use chrono::Timelike;
use vstd::prelude::*;

verus! {

/// Ticks simulated per second unless the user chooses otherwise.
pub const DEFAULT_TICKS_PER_SECOND: isize = 10;

/// The fastest rate a user may choose.
pub const MAX_USER_TICKS_PER_SECOND: isize = 1_500;

/// The rate at which owed ticks are played out while fast-forwarding.
pub const MAX_SYSTEM_TICKS_PER_SECOND: isize = 50_000;

pub const SECONDS_PER_HOUR: isize = 3_600;

pub const SECONDS_PER_DAY: isize = 86_400;

/// The earliest moment that a calendar date can be given to, in milliseconds since the
/// epoch: the first instant of the year -262143.
pub const MIN_TIMESTAMP_MILLIS: i64 = -8_334_601_228_800_000;

/// The latest moment that a calendar date can be given to, in milliseconds since the
/// epoch: the last millisecond of the year 262142.
pub const MAX_TIMESTAMP_MILLIS: i64 = 8_210_266_876_799_999;

/// Whether a number of milliseconds since the epoch is a moment of the calendar.
pub open spec fn timestamp_in_range(millis: int) -> bool {
    MIN_TIMESTAMP_MILLIS <= millis <= MAX_TIMESTAMP_MILLIS
}

/// The whole seconds that lie between two moments given in milliseconds, counted
/// towards zero: negative where the later moment is the earlier one.
pub open spec fn gap_seconds(earlier_millis: int, later_millis: int) -> int {
    let millis = later_millis - earlier_millis;
    if millis >= 0 {
        millis / 1000
    } else {
        -((-millis) / 1000)
    }
}

/// The seconds of a gap that are played out tick by tick: all of it, but never more
/// than a day, and nothing of a gap that runs backwards.
pub open spec fn owed_seconds(gap: int) -> int {
    if gap > SECONDS_PER_DAY {
        SECONDS_PER_DAY as int
    } else if gap < 0 {
        0
    } else {
        gap
    }
}

/// The ticks of a gap that are added to the clock at once rather than played out: what
/// lies beyond a day, at the given rate, and only for a story that keeps real time.
pub open spec fn teleported_ticks(gap: int, is_real_time: bool, ticks_per_second: int) -> int {
    if is_real_time && gap > SECONDS_PER_DAY {
        (gap - SECONDS_PER_DAY) * ticks_per_second
    } else {
        0
    }
}

/// The moment the real world was last looked at, in milliseconds since the epoch.
/// Zero stands for "never".
#[derive(Clone, Copy, Debug, PartialEq, Eq, Structural)]
pub struct StoryRealWorldTime(pub i64);

/// The user's choice of ticks per second. Fast-forwarding leaves it alone, so that it
/// can be gone back to.
#[derive(Clone, Copy, Debug, PartialEq, Eq, Structural)]
pub struct TicksPerSecond(pub isize);

impl TicksPerSecond {
    /// A rate that a user may choose: at least one tick per second and no more than
    /// [`MAX_USER_TICKS_PER_SECOND`].
    pub open spec fn wf(self) -> bool {
        0 < self.0 <= MAX_USER_TICKS_PER_SECOND
    }

    /// Whether the rate is one that a user may choose.
    pub fn is_valid(&self) -> (valid: bool)
        ensures
            valid == self.wf(),
    {
        0 < self.0 && self.0 <= MAX_USER_TICKS_PER_SECOND
    }
}

impl Default for TicksPerSecond {
    fn default() -> (rate: TicksPerSecond)
        ensures
            rate == TicksPerSecond(DEFAULT_TICKS_PER_SECOND),
            rate.wf(),
    {
        TicksPerSecond(DEFAULT_TICKS_PER_SECOND)
    }
}

/// A moment of the story, read off a clock.
#[derive(Clone, Copy, Debug, PartialEq, Eq, Structural)]
pub struct TimeInfo {
    days: isize,
    hours: isize,
    minutes: isize,
}

/// What a [`TimeInfo`] stands for.
pub struct TimeInfoView {
    pub days: int,
    pub hours: int,
    pub minutes: int,
}

impl View for TimeInfo {
    type V = TimeInfoView;

    closed spec fn view(&self) -> TimeInfoView {
        TimeInfoView {
            days: self.days as int,
            hours: self.hours as int,
            minutes: self.minutes as int,
        }
    }
}

impl Default for TimeInfo {
    fn default() -> (info: TimeInfo)
        ensures
            info@ == (TimeInfoView { days: 0, hours: 0, minutes: 0 }),
    {
        TimeInfo { days: 0, hours: 0, minutes: 0 }
    }
}

impl TimeInfo {
    pub fn days(&self) -> (days: isize)
        ensures
            days == self@.days,
    {
        self.days
    }

    pub fn hours(&self) -> (hours: isize)
        ensures
            hours == self@.hours,
    {
        self.hours
    }

    pub fn minutes(&self) -> (minutes: isize)
        ensures
            minutes == self@.minutes,
    {
        self.minutes
    }
}

/// The time of day at which the sun rises and sets, in minutes since midnight.
#[derive(Clone, Copy, Debug, PartialEq, Eq, Structural)]
pub struct SunTimes {
    pub sunrise: isize,
    pub sunset: isize,
}

/// Sunrise where the real sun is not followed: eight in the morning.
pub const DEFAULT_SUNRISE_MINUTES: isize = 480;

/// Sunset where the real sun is not followed: eight in the evening.
pub const DEFAULT_SUNSET_MINUTES: isize = 1_200;

/// What a [`StoryTime`] stands for.
pub struct StoryTimeView {
    pub elapsed_ticks: int,
    pub is_real_time: bool,
    pub is_real_sun: bool,
    pub latitude: int,
    pub longitude: int,
    pub real_time_offset: int,
    pub demo_time_offset: int,
}

impl StoryTimeView {
    /// The clock never runs backwards from zero, and a story starts within a day.
    pub open spec fn wf(self) -> bool {
        &&& 0 <= self.elapsed_ticks <= isize::MAX
        &&& 0 <= self.real_time_offset <= SECONDS_PER_DAY
        &&& 0 <= self.demo_time_offset <= SECONDS_PER_DAY
    }

    /// The seconds into its first day at which the story started.
    pub open spec fn start_time_offset(self) -> int {
        if self.is_real_time {
            self.real_time_offset
        } else {
            self.demo_time_offset
        }
    }

    /// The whole seconds of story time since the midnight before the story started.
    pub open spec fn seconds_total(self) -> int {
        self.elapsed_ticks / (DEFAULT_TICKS_PER_SECOND as int) + self.start_time_offset()
    }

    /// The moment of the story: whole days, and the hour and minute of the day.
    pub open spec fn time_info(self) -> TimeInfoView {
        let seconds = self.seconds_total();
        TimeInfoView {
            days: seconds / (SECONDS_PER_DAY as int),
            hours: (seconds % (SECONDS_PER_DAY as int)) / (SECONDS_PER_HOUR as int),
            minutes: (seconds % (SECONDS_PER_HOUR as int)) / 60,
        }
    }

    /// Whether the story follows the sun of the real world.
    pub open spec fn follows_real_sun(self) -> bool {
        self.is_real_time && self.is_real_sun
    }

    /// Whether the hour of the story is less than two hours away from the hour of sunrise.
    pub open spec fn is_within_schedule_window(self, sun: SunTimes) -> bool {
        let hours = self.time_info().hours;
        let sunrise_hour = sun.sunrise / 60;
        -2 < hours - sunrise_hour < 2
    }

    /// Whether it is night in the story: more than two hours before sunrise, or two
    /// hours or more after sunset, by the hour.
    pub open spec fn is_nighttime(self, sun: SunTimes) -> bool {
        let hours = self.time_info().hours;
        let before = if sun.sunrise >= 120 {
            (sun.sunrise - 120) / 60
        } else {
            -((120 - sun.sunrise) / 60)
        };
        hours < before || hours >= sun.sunset / 60 + 2
    }
}

/// The clock of a story.
#[derive(Clone, Copy, Debug, PartialEq, Eq, Structural)]
pub struct StoryTime {
    elapsed_ticks: isize,
    /// Whether the story keeps step with the real world's clock.
    pub is_real_time: bool,
    /// Whether the story's sun rises and sets with the real one.
    pub is_real_sun: bool,
    /// Where the real sun is watched from, in millionths of a degree.
    pub latitude: i32,
    /// Where the real sun is watched from, in millionths of a degree.
    pub longitude: i32,
    real_time_offset: isize,
    demo_time_offset: isize,
}

impl View for StoryTime {
    type V = StoryTimeView;

    closed spec fn view(&self) -> StoryTimeView {
        StoryTimeView {
            elapsed_ticks: self.elapsed_ticks as int,
            is_real_time: self.is_real_time,
            is_real_sun: self.is_real_sun,
            latitude: self.latitude as int,
            longitude: self.longitude as int,
            real_time_offset: self.real_time_offset as int,
            demo_time_offset: self.demo_time_offset as int,
        }
    }
}

/// The second of the day, by the clock on the wall where this runs.
///
/// Calls `chrono::Local::now().time().num_seconds_from_midnight()`, which counts the
/// seconds since the last midnight and so stays below the seconds of a day.
#[verifier::external_body]
pub(crate) fn local_seconds_from_midnight() -> (seconds: isize)
    ensures
        0 <= seconds < SECONDS_PER_DAY,
{
    chrono::Local::now().time().num_seconds_from_midnight() as isize
}

/// The present moment, in milliseconds since the epoch.
///
/// Calls `chrono::Utc::now().timestamp_millis()`. `Utc::now` makes its `DateTime` with
/// `DateTime::from_timestamp(..).unwrap()`, which gives one only for a moment of the
/// calendar and with less than a second beside the whole seconds, and
/// `timestamp_millis` gives the milliseconds of that moment back. So the moment is one
/// of the calendar; which one it is, is not claimed.
#[verifier::external_body]
pub(crate) fn now_millis() -> (millis: i64)
    ensures
        timestamp_in_range(millis as int),
{
    chrono::Utc::now().timestamp_millis()
}

/// The whole seconds between two moments of the calendar.
///
/// Makes a `chrono::DateTime<Utc>` of each moment with `timestamp_millis_opt`, which
/// gives one for every moment in range, and asks `signed_duration_since` for what lies
/// between them; `num_seconds` is that duration in whole seconds, counted towards zero.
#[verifier::external_body]
pub(crate) fn elapsed_seconds(earlier_millis: i64, later_millis: i64) -> (seconds: i64)
    requires
        timestamp_in_range(earlier_millis as int),
        timestamp_in_range(later_millis as int),
    ensures
        seconds == gap_seconds(earlier_millis as int, later_millis as int),
{
    let earlier = chrono::Utc.timestamp_millis_opt(earlier_millis).unwrap();
    let later = chrono::Utc.timestamp_millis_opt(later_millis).unwrap();
    later.signed_duration_since(earlier).num_seconds()
}

impl Default for StoryTime {
    /// The clock of a story that starts now: nothing has passed, the real world is not
    /// followed, and the sun would be watched from San Francisco.
    fn default() -> (time: StoryTime)
        ensures
            time.wf(),
            time@.elapsed_ticks == 0,
            !time@.is_real_time,
            !time@.is_real_sun,
            time@.latitude == 37_000_000,
            time@.longitude == -122_000_000,
            time@.demo_time_offset == 8 * SECONDS_PER_HOUR,
    {
        StoryTime::starting_at(local_seconds_from_midnight())
    }
}

impl StoryTime {
    pub open spec fn wf(&self) -> bool {
        self@.wf()
    }

    /// The clock of a story that starts at the given second of the real day. A story
    /// that does not keep real time starts at eight in the morning instead.
    pub fn starting_at(real_time_offset: isize) -> (time: StoryTime)
        requires
            0 <= real_time_offset <= SECONDS_PER_DAY,
        ensures
            time@ == (StoryTimeView {
                elapsed_ticks: 0,
                is_real_time: false,
                is_real_sun: false,
                latitude: 37_000_000,
                longitude: -122_000_000,
                real_time_offset: real_time_offset as int,
                demo_time_offset: 8 * SECONDS_PER_HOUR,
            }),
            time.wf(),
    {
        StoryTime {
            elapsed_ticks: 0,
            is_real_time: false,
            is_real_sun: false,
            latitude: 37_000_000,
            longitude: -122_000_000,
            real_time_offset,
            demo_time_offset: 8 * SECONDS_PER_HOUR,
        }
    }

    /// Puts a saved clock back together. There is no clock that has run backwards or
    /// whose story started outside its first day.
    pub fn restore(
        elapsed_ticks: isize,
        is_real_time: bool,
        is_real_sun: bool,
        latitude: i32,
        longitude: i32,
        real_time_offset: isize,
        demo_time_offset: isize,
    ) -> (time: Option<StoryTime>)
        ensures
            time is Some <==> (StoryTimeView {
                elapsed_ticks: elapsed_ticks as int,
                is_real_time,
                is_real_sun,
                latitude: latitude as int,
                longitude: longitude as int,
                real_time_offset: real_time_offset as int,
                demo_time_offset: demo_time_offset as int,
            }).wf(),
            time matches Some(t) ==> t@ == (StoryTimeView {
                elapsed_ticks: elapsed_ticks as int,
                is_real_time,
                is_real_sun,
                latitude: latitude as int,
                longitude: longitude as int,
                real_time_offset: real_time_offset as int,
                demo_time_offset: demo_time_offset as int,
            }),
    {
        if elapsed_ticks < 0 || real_time_offset < 0 || real_time_offset > SECONDS_PER_DAY
            || demo_time_offset < 0 || demo_time_offset > SECONDS_PER_DAY {
            None
        } else {
            Some(
                StoryTime {
                    elapsed_ticks,
                    is_real_time,
                    is_real_sun,
                    latitude,
                    longitude,
                    real_time_offset,
                    demo_time_offset,
                },
            )
        }
    }

    pub fn elapsed_ticks(&self) -> (ticks: isize)
        ensures
            ticks == self@.elapsed_ticks,
    {
        self.elapsed_ticks
    }

    /// Whether the story keeps step with the real world's clock.
    pub fn keeps_real_time(&self) -> (keeps: bool)
        ensures
            keeps == self@.is_real_time,
    {
        self.is_real_time
    }

    pub fn real_time_offset(&self) -> (offset: isize)
        ensures
            offset == self@.real_time_offset,
    {
        self.real_time_offset
    }

    pub fn demo_time_offset(&self) -> (offset: isize)
        ensures
            offset == self@.demo_time_offset,
    {
        self.demo_time_offset
    }

    /// Reads the clock: the day of the story and the time of that day.
    pub fn as_time_info(&self) -> (info: TimeInfo)
        requires
            self.wf(),
        ensures
            info@ == self@.time_info(),
            0 <= info@.days,
            0 <= info@.hours < 24,
            0 <= info@.minutes < 60,
    {
        let start_time_offset = if self.is_real_time {
            self.real_time_offset
        } else {
            self.demo_time_offset
        };
        let seconds_total = self.elapsed_ticks / DEFAULT_TICKS_PER_SECOND + start_time_offset;
        let days = seconds_total / SECONDS_PER_DAY;
        let hours = (seconds_total % SECONDS_PER_DAY) / SECONDS_PER_HOUR;
        let minutes = (seconds_total % SECONDS_PER_HOUR) / 60;
        TimeInfo { days, hours, minutes }
    }

    /// Whether the sun of the story is the sun of the real world; if not, it rises at
    /// eight and sets at eight.
    pub fn follows_real_sun(&self) -> (follows: bool)
        ensures
            follows == self@.follows_real_sun(),
    {
        self.is_real_time && self.is_real_sun
    }

    /// Whether the story is within two hours of sunrise, by the hour.
    pub fn is_within_schedule_window(&self, sun: SunTimes) -> (within: bool)
        requires
            self.wf(),
            0 <= sun.sunrise < 1440,
        ensures
            within == self@.is_within_schedule_window(sun),
    {
        let time_info = self.as_time_info();
        let hours = sun.sunrise / 60;
        let difference = time_info.hours() - hours;
        -2 < difference && difference < 2
    }

    /// Whether it is night in the story.
    pub fn is_nighttime(&self, sun: SunTimes) -> (night: bool)
        requires
            self.wf(),
            0 <= sun.sunrise < 1440,
            0 <= sun.sunset < 1440,
        ensures
            night == self@.is_nighttime(sun),
    {
        let time_info = self.as_time_info();
        time_info.hours() < (sun.sunrise - 120) / 60 || time_info.hours() >= sun.sunset / 60 + 2
    }

    /// Counts one more tick of the story.
    pub fn advance(&mut self)
        requires
            old(self).wf(),
            old(self)@.elapsed_ticks < isize::MAX,
        ensures
            final(self)@ == (StoryTimeView {
                elapsed_ticks: old(self)@.elapsed_ticks + 1,
                ..old(self)@
            }),
            final(self).wf(),
    {
        self.elapsed_ticks = self.elapsed_ticks + 1;
    }

    /// Adds to the clock, at once, ticks that will not be played out.
    pub fn teleport(&mut self, ticks: isize)
        requires
            old(self).wf(),
            0 <= ticks,
            old(self)@.elapsed_ticks + ticks <= isize::MAX,
        ensures
            final(self)@ == (StoryTimeView {
                elapsed_ticks: old(self)@.elapsed_ticks + ticks,
                ..old(self)@
            }),
            final(self).wf(),
    {
        self.elapsed_ticks = self.elapsed_ticks + ticks;
    }
}

/// Tracks the time of the story by counting the ticks that have passed.
pub fn update_story_elapsed_ticks(story_time: &mut StoryTime)
    requires
        old(story_time).wf(),
        old(story_time)@.elapsed_ticks < isize::MAX,
    ensures
        final(story_time)@ == (StoryTimeView {
            elapsed_ticks: old(story_time)@.elapsed_ticks + 1,
            ..old(story_time)@
        }),
        final(story_time).wf(),
{
    story_time.advance();
}

/// Notes the present moment of the real world, so that a story taken up again can
/// tell how long it lay idle. What is noted is a moment of the calendar, whatever was
/// noted before: a story is never kept from being taken up again by the moment that
/// was noted here.
pub fn update_story_real_world_time(story_real_world_time: &mut StoryRealWorldTime)
    ensures
        timestamp_in_range(final(story_real_world_time).0 as int),
{
    story_real_world_time.0 = now_millis();
}

} // verus!
