//! The tick-rate governor: whether the story plays, pauses or fast-forwards, how long
//! one step of the simulation lasts, and how a backlog of owed ticks is worked off.

use crate::story_time::elapsed_seconds;
use crate::story_time::gap_seconds;
use crate::story_time::now_millis;
use crate::story_time::owed_seconds;
use crate::story_time::teleported_ticks;
use crate::story_time::timestamp_in_range;
use crate::story_time::StoryRealWorldTime;
use crate::story_time::StoryTime;
use crate::story_time::StoryTimeView;
use crate::story_time::TicksPerSecond;
use crate::story_time::MAX_SYSTEM_TICKS_PER_SECOND;
use crate::story_time::MAX_TIMESTAMP_MILLIS;
use crate::story_time::MIN_TIMESTAMP_MILLIS;
use crate::story_time::SECONDS_PER_DAY;
use vstd::prelude::*;

verus! {

pub const NANOS_PER_SECOND: u64 = 1_000_000_000;

/// How long one step lasts at a rate of so many steps per second, in whole nanoseconds.
pub open spec fn period_for_rate(ticks_per_second: int) -> nat {
    (NANOS_PER_SECOND as int / ticks_per_second) as nat
}

/// What the story is doing.
#[derive(Clone, Copy, Debug, PartialEq, Eq, Hash, Structural)]
pub enum StoryPlaybackState {
    Stopped,
    Paused,
    Playing,
    FastForwarding,
}

impl Default for StoryPlaybackState {
    fn default() -> (state: StoryPlaybackState)
        ensures
            state == StoryPlaybackState::Stopped,
    {
        StoryPlaybackState::Stopped
    }
}

/// The state that the story is about to go into, if a change has been asked for.
#[derive(Clone, Copy, Debug, PartialEq, Eq, Structural)]
pub struct NextPlaybackState(pub Option<StoryPlaybackState>);

impl NextPlaybackState {
    /// Asks for a change of state, in place of any asked for before.
    pub fn set(&mut self, state: StoryPlaybackState)
        ensures
            final(self).0 == Some(state),
    {
        self.0 = Some(state);
    }

    /// Makes the change that was asked for, if any, and forgets it.
    pub fn apply(&mut self, current: &mut StoryPlaybackState)
        ensures
            final(self).0 is None,
            *final(current) == (match old(self).0 {
                Some(state) => state,
                None => *old(current),
            }),
    {
        match self.0 {
            Some(state) => {
                *current = state;
                self.0 = None;
            },
            None => {},
        }
    }
}

/// Ticks that are owed to the story and are being played out fast.
#[derive(Clone, Copy, Debug, PartialEq, Eq, Structural)]
pub struct FastForwardingStateInfo {
    pub initial_pending_ticks: isize,
    pub pending_ticks: isize,
}

impl FastForwardingStateInfo {
    /// No more is pending than was owed at the start, and never less than nothing.
    pub open spec fn wf(self) -> bool {
        0 <= self.pending_ticks <= self.initial_pending_ticks
    }

    /// Whether the numbers are those of a backlog.
    pub fn is_valid(&self) -> (valid: bool)
        ensures
            valid == self.wf(),
    {
        0 <= self.pending_ticks && self.pending_ticks <= self.initial_pending_ticks
    }
}

impl Default for FastForwardingStateInfo {
    fn default() -> (info: FastForwardingStateInfo)
        ensures
            info == (FastForwardingStateInfo { initial_pending_ticks: 0, pending_ticks: 0 }),
            info.wf(),
    {
        FastForwardingStateInfo { initial_pending_ticks: 0, pending_ticks: 0 }
    }
}

/// What a [`SimulationTime`] stands for, in nanoseconds.
pub struct SimulationTimeView {
    pub accumulated: nat,
    pub period: nat,
}

impl SimulationTimeView {
    /// A step takes time.
    pub open spec fn wf(self) -> bool {
        0 < self.period <= u64::MAX && self.accumulated <= u64::MAX
    }
}

/// The fixed time step of the simulation: how long one step lasts, and how much real
/// time has gone by that no step has yet been made for.
#[derive(Clone, Copy, Debug, PartialEq, Eq, Structural)]
pub struct SimulationTime {
    accumulated: u64,
    period: u64,
}

impl View for SimulationTime {
    type V = SimulationTimeView;

    closed spec fn view(&self) -> SimulationTimeView {
        SimulationTimeView { accumulated: self.accumulated as nat, period: self.period as nat }
    }
}

/// The length of one step at a rate of so many steps per second.
fn period_of(ticks_per_second: isize) -> (period: u64)
    requires
        0 < ticks_per_second <= NANOS_PER_SECOND,
    ensures
        period == period_for_rate(ticks_per_second as int),
        0 < period,
{
    let period = NANOS_PER_SECOND / (ticks_per_second as u64);
    assert(NANOS_PER_SECOND as int / ticks_per_second as int > 0) by (nonlinear_arith)
        requires
            0 < ticks_per_second <= NANOS_PER_SECOND,
    ;
    period
}

impl SimulationTime {
    pub open spec fn wf(&self) -> bool {
        self@.wf()
    }

    /// A time step for the given rate, with no time gone by.
    pub fn from_ticks_per_second(ticks_per_second: isize) -> (time: SimulationTime)
        requires
            0 < ticks_per_second <= NANOS_PER_SECOND,
        ensures
            time@ == (SimulationTimeView {
                accumulated: 0,
                period: period_for_rate(ticks_per_second as int),
            }),
            time.wf(),
    {
        SimulationTime { accumulated: 0, period: period_of(ticks_per_second) }
    }

    /// Puts a time step back together from its two numbers, in nanoseconds. There is
    /// none whose steps take no time.
    pub fn from_nanos(accumulated: u64, period: u64) -> (time: Option<SimulationTime>)
        ensures
            time is Some <==> period > 0,
            time matches Some(t) ==> t.wf() && t@ == (SimulationTimeView {
                accumulated: accumulated as nat,
                period: period as nat,
            }),
    {
        if period == 0 {
            None
        } else {
            Some(SimulationTime { accumulated, period })
        }
    }

    /// The real time that no step has yet been made for, in nanoseconds.
    pub fn accumulated(&self) -> (nanos: u64)
        ensures
            nanos == self@.accumulated,
    {
        self.accumulated
    }

    /// The length of one step, in nanoseconds.
    pub fn period(&self) -> (nanos: u64)
        ensures
            nanos == self@.period,
    {
        self.period
    }

    /// Lets `delta` nanoseconds of real time go by.
    pub fn tick(&mut self, delta: u64)
        requires
            old(self)@.accumulated + delta <= u64::MAX,
        ensures
            final(self)@ == (SimulationTimeView {
                accumulated: (old(self)@.accumulated + delta) as nat,
                ..old(self)@
            }),
    {
        self.accumulated = self.accumulated + delta;
    }

    /// Makes one step if enough time has gone by for it, and says whether it did.
    pub fn expend(&mut self) -> (stepped: bool)
        ensures
            stepped == (old(self)@.accumulated >= old(self)@.period),
            final(self)@ == (SimulationTimeView {
                accumulated: if stepped {
                    (old(self)@.accumulated - old(self)@.period) as nat
                } else {
                    old(self)@.accumulated
                },
                ..old(self)@
            }),
    {
        if self.accumulated >= self.period {
            self.accumulated = self.accumulated - self.period;
            true
        } else {
            false
        }
    }
}

/// All that the governor decides about: the time step, the backlog, and the change of
/// state that has been asked for.
pub struct Governor {
    pub time: SimulationTimeView,
    pub backlog: FastForwardingStateInfo,
    pub next: Option<StoryPlaybackState>,
}

/// The ticks owed for the real time that has gone by: the rate times the whole seconds.
pub open spec fn owed_ticks(ticks_per_second: int, accumulated: nat) -> int {
    ticks_per_second * (accumulated as int / NANOS_PER_SECOND as int)
}

/// What the governor makes of one look at the simulation.
///
/// With ticks pending, one of them has just been played out. With none pending while
/// fast-forwarding, the backlog is worked off: the step goes back to the user's rate
/// and the story back to playing. Otherwise, once more than a second has gone by with
/// no step made for it, that time is struck off and the step is set to the system's
/// fastest; unless the story is paused, the ticks owed for it become the backlog and
/// the story goes into fast-forwarding.
pub open spec fn governed(
    governor: Governor,
    playback: StoryPlaybackState,
    ticks_per_second: int,
) -> Governor {
    if governor.backlog.pending_ticks != 0 {
        Governor {
            backlog: FastForwardingStateInfo {
                pending_ticks: (governor.backlog.pending_ticks - 1) as isize,
                ..governor.backlog
            },
            ..governor
        }
    } else if playback == StoryPlaybackState::FastForwarding {
        Governor {
            time: SimulationTimeView { period: period_for_rate(ticks_per_second), ..governor.time },
            backlog: FastForwardingStateInfo { initial_pending_ticks: 0, ..governor.backlog },
            next: Some(StoryPlaybackState::Playing),
        }
    } else if governor.time.accumulated > NANOS_PER_SECOND {
        let time = SimulationTimeView {
            accumulated: 0,
            period: period_for_rate(MAX_SYSTEM_TICKS_PER_SECOND as int),
        };
        if playback != StoryPlaybackState::Paused {
            let owed = owed_ticks(ticks_per_second, governor.time.accumulated) as isize;
            Governor {
                time,
                backlog: FastForwardingStateInfo {
                    initial_pending_ticks: owed,
                    pending_ticks: owed,
                },
                next: Some(StoryPlaybackState::FastForwarding),
            }
        } else {
            Governor { time, ..governor }
        }
    } else {
        governor
    }
}

/// Whether a look of the governor starts a fast-forwarding: nothing is pending, the
/// story neither fast-forwards nor is paused, and more than a second has gone by with
/// no step made for it.
pub open spec fn starts_fast_forward(governor: Governor, playback: StoryPlaybackState) -> bool {
    &&& governor.backlog.pending_ticks == 0
    &&& playback != StoryPlaybackState::FastForwarding
    &&& playback != StoryPlaybackState::Paused
    &&& governor.time.accumulated > NANOS_PER_SECOND
}

/// Whether the ticks owed for the time gone by can be held as a backlog.
pub fn can_hold_owed_ticks(
    simulation_time: &SimulationTime,
    ticks_per_second: &TicksPerSecond,
) -> (can: bool)
    requires
        ticks_per_second.wf(),
    ensures
        can == (owed_ticks(ticks_per_second.0 as int, simulation_time@.accumulated) <= isize::MAX),
{
    let seconds: u64 = simulation_time.accumulated / NANOS_PER_SECOND;
    assert(0 <= ticks_per_second.0 * seconds <= 1_500 * u64::MAX) by (nonlinear_arith)
        requires
            0 < ticks_per_second.0 <= 1_500,
            0 <= seconds <= u64::MAX,
    ;
    let owed: u128 = (ticks_per_second.0 as u128) * (seconds as u128);
    owed <= isize::MAX as u128
}

/// Controls whether the simulation runs at the user's rate or fast: see [`governed`].
pub fn set_rate_of_time(
    simulation_time: &mut SimulationTime,
    fast_forward_state_info: &mut FastForwardingStateInfo,
    ticks_per_second: &TicksPerSecond,
    story_playback_state: StoryPlaybackState,
    next_story_playback_state: &mut NextPlaybackState,
)
    requires
        old(simulation_time).wf(),
        old(fast_forward_state_info).wf(),
        ticks_per_second.wf(),
        starts_fast_forward(
            Governor {
                time: old(simulation_time)@,
                backlog: *old(fast_forward_state_info),
                next: old(next_story_playback_state).0,
            },
            story_playback_state,
        ) ==> owed_ticks(ticks_per_second.0 as int, old(simulation_time)@.accumulated)
            <= isize::MAX,
    ensures
        (Governor {
            time: final(simulation_time)@,
            backlog: *final(fast_forward_state_info),
            next: final(next_story_playback_state).0,
        }) == governed(
            Governor {
                time: old(simulation_time)@,
                backlog: *old(fast_forward_state_info),
                next: old(next_story_playback_state).0,
            },
            story_playback_state,
            ticks_per_second.0 as int,
        ),
        final(simulation_time).wf(),
        final(fast_forward_state_info).wf(),
{
    if fast_forward_state_info.pending_ticks == 0 {
        if story_playback_state == StoryPlaybackState::FastForwarding {
            simulation_time.period = period_of(ticks_per_second.0);
            next_story_playback_state.set(StoryPlaybackState::Playing);
            fast_forward_state_info.initial_pending_ticks = 0;
        } else {
            let accumulated = simulation_time.accumulated;
            if accumulated > NANOS_PER_SECOND {
                simulation_time.accumulated = 0;
                simulation_time.period = period_of(MAX_SYSTEM_TICKS_PER_SECOND);
                if story_playback_state != StoryPlaybackState::Paused {
                    next_story_playback_state.set(StoryPlaybackState::FastForwarding);
                    let seconds: u64 = accumulated / NANOS_PER_SECOND;
                    assert(0 <= ticks_per_second.0 * seconds) by (nonlinear_arith)
                        requires
                            0 < ticks_per_second.0,
                            0 <= seconds,
                    ;
                    let ticks: isize = ((ticks_per_second.0 as u128) * (seconds as u128)) as isize;
                    fast_forward_state_info.pending_ticks = ticks;
                    fast_forward_state_info.initial_pending_ticks = ticks;
                }
            }
        }
    } else {
        fast_forward_state_info.pending_ticks = fast_forward_state_info.pending_ticks - 1;
    }
}

/// The time step after the user's rate was looked at: it follows the user's rate,
/// except while the story is fast-forwarding or about to.
pub open spec fn time_scaled(
    time: SimulationTimeView,
    ticks_per_second: int,
    playback: StoryPlaybackState,
    next: Option<StoryPlaybackState>,
) -> SimulationTimeView {
    if playback == StoryPlaybackState::FastForwarding || next == Some(
        StoryPlaybackState::FastForwarding,
    ) {
        time
    } else {
        SimulationTimeView { period: period_for_rate(ticks_per_second), ..time }
    }
}

/// Sets the step to the user's rate, and keeps its hands off while the fast rate is
/// in force or about to be.
pub fn update_time_scale(
    simulation_time: &mut SimulationTime,
    ticks_per_second: &TicksPerSecond,
    story_playback_state: StoryPlaybackState,
    next_story_playback_state: &NextPlaybackState,
)
    requires
        old(simulation_time).wf(),
        ticks_per_second.wf(),
    ensures
        final(simulation_time)@ == time_scaled(
            old(simulation_time)@,
            ticks_per_second.0 as int,
            story_playback_state,
            next_story_playback_state.0,
        ),
        final(simulation_time).wf(),
{
    if story_playback_state == StoryPlaybackState::FastForwarding {
        return ;
    }
    match next_story_playback_state.0 {
        Some(StoryPlaybackState::FastForwarding) => {
            return ;
        },
        _ => {},
    }
    simulation_time.period = period_of(ticks_per_second.0);
}

/// Why a story could not be taken up again.
#[derive(Clone, Copy, Debug, PartialEq, Eq, Structural)]
pub enum ResumeError {
    /// A moment given is not one of the calendar.
    InvalidTimestamp,
    /// The clock or the time step cannot hold what the gap adds to it.
    Overflow,
}

/// All that taking a story up again decides about.
pub struct Resumption {
    pub real_world_time: int,
    pub story_time: StoryTimeView,
    pub simulation_time: SimulationTimeView,
    pub next: Option<StoryPlaybackState>,
}

/// What taking a story up again at the moment `now` makes of it.
///
/// A story that was never looked at only notes the moment. Otherwise the gap since
/// the last look is reconciled: what lies beyond a day is added to the clock at once,
/// if the story keeps real time, and the rest, a day at most, goes by as real time
/// that steps are owed for. Either way the story is asked to play.
pub open spec fn resumed(before: Resumption, ticks_per_second: int, now: int) -> Result<
    Resumption,
    ResumeError,
> {
    if before.real_world_time == 0 {
        Ok(Resumption { real_world_time: now, next: Some(StoryPlaybackState::Playing), ..before })
    } else if !timestamp_in_range(before.real_world_time) || !timestamp_in_range(now) {
        Err(ResumeError::InvalidTimestamp)
    } else {
        let gap = gap_seconds(before.real_world_time, now);
        let ticks = before.story_time.elapsed_ticks + teleported_ticks(
            gap,
            before.story_time.is_real_time,
            ticks_per_second,
        );
        let accumulated = before.simulation_time.accumulated + owed_seconds(gap)
            * NANOS_PER_SECOND;
        if ticks > isize::MAX || accumulated > u64::MAX {
            Err(ResumeError::Overflow)
        } else {
            Ok(
                Resumption {
                    story_time: StoryTimeView { elapsed_ticks: ticks, ..before.story_time },
                    simulation_time: SimulationTimeView {
                        accumulated: accumulated as nat,
                        ..before.simulation_time
                    },
                    next: Some(StoryPlaybackState::Playing),
                    ..before
                },
            )
        }
    }
}

/// Takes a story up again at the moment `now_millis`: see [`resumed`]. Where that
/// cannot be done, nothing is changed.
pub fn resume_story_time(
    story_real_world_time: &mut StoryRealWorldTime,
    simulation_time: &mut SimulationTime,
    next_story_playback_state: &mut NextPlaybackState,
    story_time: &mut StoryTime,
    ticks_per_second: &TicksPerSecond,
    now_millis: i64,
) -> (result: Result<(), ResumeError>)
    requires
        old(story_time).wf(),
        old(simulation_time).wf(),
        ticks_per_second.wf(),
    ensures
        match result {
            Ok(()) => resumed(
                Resumption {
                    real_world_time: old(story_real_world_time).0 as int,
                    story_time: old(story_time)@,
                    simulation_time: old(simulation_time)@,
                    next: old(next_story_playback_state).0,
                },
                ticks_per_second.0 as int,
                now_millis as int,
            ) == Ok::<Resumption, ResumeError>(
                Resumption {
                    real_world_time: final(story_real_world_time).0 as int,
                    story_time: final(story_time)@,
                    simulation_time: final(simulation_time)@,
                    next: final(next_story_playback_state).0,
                },
            ),
            Err(e) => {
                &&& resumed(
                    Resumption {
                        real_world_time: old(story_real_world_time).0 as int,
                        story_time: old(story_time)@,
                        simulation_time: old(simulation_time)@,
                        next: old(next_story_playback_state).0,
                    },
                    ticks_per_second.0 as int,
                    now_millis as int,
                ) == Err::<Resumption, ResumeError>(e)
                &&& *final(story_real_world_time) == *old(story_real_world_time)
                &&& *final(simulation_time) == *old(simulation_time)
                &&& *final(next_story_playback_state) == *old(next_story_playback_state)
                &&& *final(story_time) == *old(story_time)
            },
        },
        final(story_time).wf(),
        final(simulation_time).wf(),
{
    let last = story_real_world_time.0;
    if last == 0 {
        story_real_world_time.0 = now_millis;
        next_story_playback_state.set(StoryPlaybackState::Playing);
        return Ok(());
    }
    if last < MIN_TIMESTAMP_MILLIS || last > MAX_TIMESTAMP_MILLIS || now_millis
        < MIN_TIMESTAMP_MILLIS || now_millis > MAX_TIMESTAMP_MILLIS {
        return Err(ResumeError::InvalidTimestamp);
    }
    let gap: i64 = elapsed_seconds(last, now_millis);
    let mut missed_ticks: i128 = 0;
    let mut owed: u64 = 0;
    if gap > SECONDS_PER_DAY as i64 {
        if story_time.keeps_real_time() {
            let seconds_past_max: i128 = (gap - SECONDS_PER_DAY as i64) as i128;
            assert(0 <= seconds_past_max * ticks_per_second.0 <= 20_000_000_000_000 * 1_500)
                by (nonlinear_arith)
                requires
                    0 <= seconds_past_max <= 20_000_000_000_000,
                    0 < ticks_per_second.0 <= 1_500,
            ;
            missed_ticks = seconds_past_max * (ticks_per_second.0 as i128);
        }
        owed = SECONDS_PER_DAY as u64;
    } else if gap >= 0 {
        owed = gap as u64;
    }
    let total_ticks: i128 = story_time.elapsed_ticks() as i128 + missed_ticks;
    let owed_nanos: u64 = owed * NANOS_PER_SECOND;
    if total_ticks > isize::MAX as i128 || owed_nanos > u64::MAX - simulation_time.accumulated {
        return Err(ResumeError::Overflow);
    }
    story_time.teleport(missed_ticks as isize);
    simulation_time.tick(owed_nanos);
    next_story_playback_state.set(StoryPlaybackState::Playing);
    Ok(())
}

/// Whether taking a story up again at the moment `now` accounts for what came of it:
/// where it could be done, the story afterwards is the one that [`resumed`] gives for
/// that moment; where it could not, the error is the one that [`resumed`] gives for
/// that moment, and the story is as it was.
pub open spec fn resumes_as(
    before: Resumption,
    after: Resumption,
    result: Result<(), ResumeError>,
    ticks_per_second: int,
    now: int,
) -> bool {
    match result {
        Ok(()) => resumed(before, ticks_per_second, now) == Ok::<Resumption, ResumeError>(after),
        Err(e) => resumed(before, ticks_per_second, now) == Err::<Resumption, ResumeError>(e)
            && after == before,
    }
}

/// Takes a story up again now. On the first run the moment is only noted; later the
/// time that went by while the story lay idle is reconciled as [`resumed`] says, for
/// the moment that the clock of the real world gives.
///
/// That moment is one of the calendar, and what comes of the call is what [`resumed`]
/// gives for it. So the first run always succeeds, a moment noted earlier that is not
/// of the calendar is always refused, and wherever no moment of the calendar leads to
/// an error, there is none.
pub fn setup_story_time(
    story_real_world_time: &mut StoryRealWorldTime,
    simulation_time: &mut SimulationTime,
    next_story_playback_state: &mut NextPlaybackState,
    story_time: &mut StoryTime,
    ticks_per_second: &TicksPerSecond,
) -> (result: Result<(), ResumeError>)
    requires
        old(story_time).wf(),
        old(simulation_time).wf(),
        ticks_per_second.wf(),
    ensures
        final(story_time).wf(),
        final(simulation_time).wf(),
        exists|now: int|
            timestamp_in_range(now) && #[trigger] resumes_as(
                Resumption {
                    real_world_time: old(story_real_world_time).0 as int,
                    story_time: old(story_time)@,
                    simulation_time: old(simulation_time)@,
                    next: old(next_story_playback_state).0,
                },
                Resumption {
                    real_world_time: final(story_real_world_time).0 as int,
                    story_time: final(story_time)@,
                    simulation_time: final(simulation_time)@,
                    next: final(next_story_playback_state).0,
                },
                result,
                ticks_per_second.0 as int,
                now,
            ),
        old(story_real_world_time).0 == 0 ==> result is Ok,
        old(story_real_world_time).0 != 0 && !timestamp_in_range(
            old(story_real_world_time).0 as int,
        ) ==> result == Err::<(), ResumeError>(ResumeError::InvalidTimestamp),
        (forall|now: int|
            timestamp_in_range(now) ==> (#[trigger] resumed(
                Resumption {
                    real_world_time: old(story_real_world_time).0 as int,
                    story_time: old(story_time)@,
                    simulation_time: old(simulation_time)@,
                    next: old(next_story_playback_state).0,
                },
                ticks_per_second.0 as int,
                now,
            )) is Ok) ==> result is Ok,
        result is Ok ==> final(next_story_playback_state).0 == Some(StoryPlaybackState::Playing),
        result is Err ==> {
            &&& *final(story_real_world_time) == *old(story_real_world_time)
            &&& *final(simulation_time) == *old(simulation_time)
            &&& *final(next_story_playback_state) == *old(next_story_playback_state)
            &&& *final(story_time) == *old(story_time)
        },
{
    let now = now_millis();
    let result = resume_story_time(
        story_real_world_time,
        simulation_time,
        next_story_playback_state,
        story_time,
        ticks_per_second,
        now,
    );
    assert(resumes_as(
        Resumption {
            real_world_time: old(story_real_world_time).0 as int,
            story_time: old(story_time)@,
            simulation_time: old(simulation_time)@,
            next: old(next_story_playback_state).0,
        },
        Resumption {
            real_world_time: story_real_world_time.0 as int,
            story_time: story_time@,
            simulation_time: simulation_time@,
            next: next_story_playback_state.0,
        },
        result,
        ticks_per_second.0 as int,
        now as int,
    ));
    result
}

/// The governor after it has looked at a fast-forwarding story so many times in a row.
pub open spec fn fast_forwarded(governor: Governor, ticks_per_second: int, looks: nat) -> Governor
    decreases looks,
{
    if looks == 0 {
        governor
    } else {
        governed(
            fast_forwarded(governor, ticks_per_second, (looks - 1) as nat),
            StoryPlaybackState::FastForwarding,
            ticks_per_second,
        )
    }
}

/// While ticks are pending, every look of the governor takes exactly one of them off
/// and leaves everything else as it is: the step, what was owed at the start, and the
/// change of state that has been asked for.
pub proof fn lemma_backlog_strictly_decreases(governor: Governor, ticks_per_second: int, looks: nat)
    requires
        governor.backlog.wf(),
        looks <= governor.backlog.pending_ticks,
    ensures
        fast_forwarded(governor, ticks_per_second, looks) == (Governor {
            backlog: FastForwardingStateInfo {
                pending_ticks: (governor.backlog.pending_ticks - looks) as isize,
                ..governor.backlog
            },
            ..governor
        }),
        fast_forwarded(governor, ticks_per_second, looks).backlog.wf(),
    decreases looks,
{
    if looks > 0 {
        lemma_backlog_strictly_decreases(governor, ticks_per_second, (looks - 1) as nat);
    }
}

/// A backlog is worked off in as many looks as ticks were pending, and the look after
/// that ends the fast-forwarding: the story is asked to play, nothing is owed any
/// more, and the step is the one for the user's rate as it stands at that look.
pub proof fn lemma_fast_forward_returns_to_playing(governor: Governor, ticks_per_second: int)
    requires
        governor.backlog.wf(),
    ensures
        fast_forwarded(
            governor,
            ticks_per_second,
            governor.backlog.pending_ticks as nat,
        ).backlog.pending_ticks == 0,
        fast_forwarded(governor, ticks_per_second, (governor.backlog.pending_ticks + 1) as nat) == (
        Governor {
            time: SimulationTimeView { period: period_for_rate(ticks_per_second), ..governor.time },
            backlog: FastForwardingStateInfo { initial_pending_ticks: 0, pending_ticks: 0 },
            next: Some(StoryPlaybackState::Playing),
        }),
{
    lemma_backlog_strictly_decreases(
        governor,
        ticks_per_second,
        governor.backlog.pending_ticks as nat,
    );
}

/// However long a story lay idle, no more than a day of it is played out: the time
/// owed is the gap cut off at a day, so that any two gaps of a day or more owe the same.
pub proof fn lemma_backlog_is_at_most_a_day(gap: int, other_gap: int)
    ensures
        0 <= owed_seconds(gap) <= SECONDS_PER_DAY,
        owed_seconds(gap) <= gap || gap < 0,
        gap >= SECONDS_PER_DAY && other_gap >= SECONDS_PER_DAY ==> owed_seconds(gap)
            == owed_seconds(other_gap),
{
}

/// A story that does not keep real time is never moved ahead at once, and one that
/// does is moved ahead by no more than a day's worth of ticks as long as the gap is
/// two days or less.
pub proof fn lemma_teleport_is_bounded(gap: int, is_real_time: bool, ticks_per_second: int)
    requires
        0 <= ticks_per_second,
    ensures
        0 <= teleported_ticks(gap, is_real_time, ticks_per_second),
        !is_real_time ==> teleported_ticks(gap, is_real_time, ticks_per_second) == 0,
        gap <= SECONDS_PER_DAY ==> teleported_ticks(gap, is_real_time, ticks_per_second) == 0,
        gap <= 2 * SECONDS_PER_DAY ==> teleported_ticks(gap, is_real_time, ticks_per_second)
            <= SECONDS_PER_DAY * ticks_per_second,
{
    assert(gap > SECONDS_PER_DAY ==> (gap - SECONDS_PER_DAY) * ticks_per_second >= 0)
        by (nonlinear_arith)
        requires
            0 <= ticks_per_second,
    ;
    assert(gap <= 2 * SECONDS_PER_DAY ==> (gap - SECONDS_PER_DAY) * ticks_per_second
        <= SECONDS_PER_DAY * ticks_per_second) by (nonlinear_arith)
        requires
            0 <= ticks_per_second,
    ;
}

/// Taking a story up again never turns its clock back, never adds more than a day to
/// the time that steps are owed for, and leaves the length of a step alone.
pub proof fn lemma_resumption_owes_at_most_a_day(
    before: Resumption,
    ticks_per_second: int,
    now: int,
)
    requires
        0 <= ticks_per_second,
        resumed(before, ticks_per_second, now) is Ok,
    ensures
        ({
            let after = resumed(before, ticks_per_second, now)->Ok_0;
            &&& after.story_time.elapsed_ticks >= before.story_time.elapsed_ticks
            &&& !before.story_time.is_real_time ==> after.story_time == before.story_time
            &&& before.simulation_time.accumulated <= after.simulation_time.accumulated
                <= before.simulation_time.accumulated + SECONDS_PER_DAY * NANOS_PER_SECOND
            &&& after.simulation_time.period == before.simulation_time.period
            &&& after.next == Some(StoryPlaybackState::Playing)
        }),
{
    if before.real_world_time != 0 {
        let gap = gap_seconds(before.real_world_time, now);
        lemma_teleport_is_bounded(gap, before.story_time.is_real_time, ticks_per_second);
        lemma_backlog_is_at_most_a_day(gap, gap);
    }
}

} // verus!
