use ant_colony::story_time::update_story_elapsed_ticks;
use ant_colony::story_time::update_story_real_world_time;
use ant_colony::story_time::StoryRealWorldTime;
use ant_colony::story_time::StoryTime;
use ant_colony::story_time::SunTimes;
use ant_colony::story_time::TicksPerSecond;
use ant_colony::story_time::TimeInfo;
use ant_colony::story_time::DEFAULT_SUNRISE_MINUTES;
use ant_colony::story_time::DEFAULT_SUNSET_MINUTES;
use ant_colony::story_time::DEFAULT_TICKS_PER_SECOND;
use ant_colony::story_time::MAX_SYSTEM_TICKS_PER_SECOND;
use ant_colony::story_time::MAX_TIMESTAMP_MILLIS;
use ant_colony::story_time::MAX_USER_TICKS_PER_SECOND;
use ant_colony::story_time::MIN_TIMESTAMP_MILLIS;
use ant_colony::story_time::SECONDS_PER_DAY;
use ant_colony::story_time::SECONDS_PER_HOUR;

fn clock_at(elapsed_ticks: isize, is_real_time: bool, real_offset: isize) -> StoryTime {
    StoryTime::restore(elapsed_ticks, is_real_time, false, 0, 0, real_offset, 8 * 3_600)
        .expect("a clock that has not run backwards")
}

fn read(info: TimeInfo) -> (isize, isize, isize) {
    (info.days(), info.hours(), info.minutes())
}

const DEFAULT_SUN: SunTimes =
    SunTimes { sunrise: DEFAULT_SUNRISE_MINUTES, sunset: DEFAULT_SUNSET_MINUTES };

#[test]
fn constants_are_those_of_the_clock() {
    assert_eq!(DEFAULT_TICKS_PER_SECOND, 10);
    assert_eq!(MAX_USER_TICKS_PER_SECOND, 1_500);
    assert_eq!(MAX_SYSTEM_TICKS_PER_SECOND, 50_000);
    assert_eq!(SECONDS_PER_HOUR, 3_600);
    assert_eq!(SECONDS_PER_DAY, 86_400);
    assert_eq!(DEFAULT_SUNRISE_MINUTES, 8 * 60);
    assert_eq!(DEFAULT_SUNSET_MINUTES, 20 * 60);
}

#[test]
fn timestamp_range_is_that_of_the_calendar() {
    assert!(chrono::DateTime::from_timestamp_millis(MIN_TIMESTAMP_MILLIS).is_some());
    assert!(chrono::DateTime::from_timestamp_millis(MIN_TIMESTAMP_MILLIS - 1).is_none());
    assert!(chrono::DateTime::from_timestamp_millis(MAX_TIMESTAMP_MILLIS).is_some());
    assert!(chrono::DateTime::from_timestamp_millis(MAX_TIMESTAMP_MILLIS + 1).is_none());
}

#[test]
fn default_clock_starts_at_zero_and_does_not_follow_the_real_world() {
    let time = StoryTime::default();
    assert_eq!(time.elapsed_ticks(), 0);
    assert!(!time.is_real_time);
    assert!(!time.is_real_sun);
    assert_eq!(time.latitude, 37_000_000);
    assert_eq!(time.longitude, -122_000_000);
    assert_eq!(time.demo_time_offset(), 8 * 3_600);
    assert!((0..86_400).contains(&time.real_time_offset()));
    assert!(!time.follows_real_sun());
    assert_eq!(read(time.as_time_info()), (0, 8, 0));
}

#[test]
fn default_ticks_per_second_is_ten() {
    assert_eq!(TicksPerSecond::default(), TicksPerSecond(10));
    assert!(TicksPerSecond(1).is_valid());
    assert!(TicksPerSecond(1_500).is_valid());
    assert!(!TicksPerSecond(0).is_valid());
    assert!(!TicksPerSecond(1_501).is_valid());
    assert!(!TicksPerSecond(-3).is_valid());
}

#[test]
fn default_time_info_is_midnight_of_the_first_day() {
    assert_eq!(read(TimeInfo::default()), (0, 0, 0));
}

#[test]
fn restore_refuses_a_clock_that_ran_backwards() {
    assert!(StoryTime::restore(-1, false, false, 0, 0, 0, 0).is_none());
    assert!(StoryTime::restore(0, false, false, 0, 0, -1, 0).is_none());
    assert!(StoryTime::restore(0, false, false, 0, 0, 86_401, 0).is_none());
    assert!(StoryTime::restore(0, false, false, 0, 0, 0, -1).is_none());
    assert!(StoryTime::restore(0, false, false, 0, 0, 0, 86_401).is_none());
    let time = StoryTime::restore(7, true, true, 1, -2, 3, 4).expect("a valid clock");
    assert_eq!(time.elapsed_ticks(), 7);
    assert!(time.is_real_time && time.is_real_sun);
    assert!(time.keeps_real_time());
    assert!(time.follows_real_sun());
    assert_eq!((time.latitude, time.longitude), (1, -2));
    assert_eq!((time.real_time_offset(), time.demo_time_offset()), (3, 4));
}

#[test]
fn time_info_counts_ten_ticks_to_the_second() {
    // A story that does not keep real time starts at eight in the morning.
    assert_eq!(read(clock_at(0, false, 0).as_time_info()), (0, 8, 0));
    assert_eq!(read(clock_at(9, false, 0).as_time_info()), (0, 8, 0));
    assert_eq!(read(clock_at(599, false, 0).as_time_info()), (0, 8, 0));
    assert_eq!(read(clock_at(600, false, 0).as_time_info()), (0, 8, 1));
    assert_eq!(read(clock_at(36_000, false, 0).as_time_info()), (0, 9, 0));
    // Sixteen hours later the first day is over.
    assert_eq!(read(clock_at(16 * 36_000 - 1, false, 0).as_time_info()), (0, 23, 59));
    assert_eq!(read(clock_at(16 * 36_000, false, 0).as_time_info()), (1, 0, 0));
    assert_eq!(read(clock_at(864_000 * 3 + 36_000 * 5 + 600 * 42, false, 0).as_time_info()), (3, 13, 42));
}

#[test]
fn time_info_of_a_real_time_story_starts_at_the_real_time_of_day() {
    // Started at 13:30:15 by the clock on the wall.
    let offset = 13 * 3_600 + 30 * 60 + 15;
    assert_eq!(read(clock_at(0, true, offset).as_time_info()), (0, 13, 30));
    assert_eq!(read(clock_at(450, true, offset).as_time_info()), (0, 13, 31));
    assert_eq!(read(clock_at(isize::MAX, true, 86_400).as_time_info()).1 < 24, true);
}

#[test]
fn schedule_window_is_less_than_two_hours_from_the_hour_of_sunrise() {
    let at_hour = |hour: isize| clock_at(hour * 36_000, true, 0);
    assert!(!at_hour(6).is_within_schedule_window(DEFAULT_SUN));
    assert!(at_hour(7).is_within_schedule_window(DEFAULT_SUN));
    assert!(at_hour(8).is_within_schedule_window(DEFAULT_SUN));
    assert!(at_hour(9).is_within_schedule_window(DEFAULT_SUN));
    assert!(!at_hour(10).is_within_schedule_window(DEFAULT_SUN));
    // Sunrise at 5:59 counts as the hour of five.
    let early = SunTimes { sunrise: 5 * 60 + 59, sunset: 20 * 60 };
    assert!(at_hour(4).is_within_schedule_window(early));
    assert!(!at_hour(7).is_within_schedule_window(early));
}

#[test]
fn night_ends_two_hours_before_sunrise_and_begins_two_hours_after_sunset() {
    let at_hour = |hour: isize| clock_at(hour * 36_000, true, 0);
    assert!(at_hour(5).is_nighttime(DEFAULT_SUN));
    assert!(!at_hour(6).is_nighttime(DEFAULT_SUN));
    assert!(!at_hour(21).is_nighttime(DEFAULT_SUN));
    assert!(at_hour(22).is_nighttime(DEFAULT_SUN));
    assert!(at_hour(23).is_nighttime(DEFAULT_SUN));
    // Sunrise at 6:30 and sunset at 17:45.
    let winter = SunTimes { sunrise: 6 * 60 + 30, sunset: 17 * 60 + 45 };
    assert!(at_hour(3).is_nighttime(winter));
    assert!(!at_hour(4).is_nighttime(winter));
    assert!(!at_hour(18).is_nighttime(winter));
    assert!(at_hour(19).is_nighttime(winter));
    // A sunrise in the first two hours leaves no night before it.
    let midsummer = SunTimes { sunrise: 90, sunset: 23 * 60 };
    assert!(!at_hour(0).is_nighttime(midsummer));
    let at_midnight = SunTimes { sunrise: 0, sunset: 23 * 60 };
    assert!(!at_hour(0).is_nighttime(at_midnight));
}

#[test]
fn elapsed_ticks_count_up_by_one() {
    let mut time = clock_at(41, false, 0);
    update_story_elapsed_ticks(&mut time);
    assert_eq!(time.elapsed_ticks(), 42);
    time.advance();
    assert_eq!(time.elapsed_ticks(), 43);
    time.teleport(1_000);
    assert_eq!(time.elapsed_ticks(), 1_043);
    time.teleport(0);
    assert_eq!(time.elapsed_ticks(), 1_043);
    assert_eq!(time.demo_time_offset(), 8 * 3_600);
}

#[test]
fn real_world_time_is_noted_in_milliseconds_since_the_epoch() {
    let mut noted = StoryRealWorldTime(0);
    let before = chrono::Utc::now().timestamp_millis();
    update_story_real_world_time(&mut noted);
    let after = chrono::Utc::now().timestamp_millis();
    assert!(before <= noted.0 && noted.0 <= after);
}

#[test]
fn noted_moment_is_of_the_calendar_whatever_was_noted_before() {
    for earlier in [i64::MIN, MIN_TIMESTAMP_MILLIS - 1, 0, MAX_TIMESTAMP_MILLIS + 1, i64::MAX] {
        let mut noted = StoryRealWorldTime(earlier);
        update_story_real_world_time(&mut noted);
        assert_ne!(noted.0, earlier);
        assert!(MIN_TIMESTAMP_MILLIS <= noted.0 && noted.0 <= MAX_TIMESTAMP_MILLIS);
        assert!(chrono::DateTime::from_timestamp_millis(noted.0).is_some());
    }
}
