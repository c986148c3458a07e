//! The state of a running story as one value, and the order in which its clock and
//! its governor are attended to.
//!
//! Within a step of the simulation the clock counts the tick first and the governor
//! looks at the backlog last. Between steps, once per frame, a change of state that
//! was asked for is made, and only then is the step set to the user's rate, so that a
//! fast-forwarding that has just been asked for keeps its fast step.

use crate::playback::can_hold_owed_ticks;
use crate::playback::governed;
use crate::playback::owed_ticks;
use crate::playback::period_for_rate;
use crate::playback::set_rate_of_time;
use crate::playback::starts_fast_forward;
use crate::playback::time_scaled;
use crate::playback::update_time_scale;
use crate::playback::FastForwardingStateInfo;
use crate::playback::Governor;
use crate::playback::NextPlaybackState;
use crate::playback::SimulationTime;
use crate::playback::SimulationTimeView;
use crate::playback::StoryPlaybackState;
use crate::playback::NANOS_PER_SECOND;
use crate::story_time::update_story_elapsed_ticks;
use crate::story_time::StoryRealWorldTime;
use crate::story_time::StoryTime;
use crate::story_time::StoryTimeView;
use crate::story_time::TicksPerSecond;
use crate::story_time::DEFAULT_TICKS_PER_SECOND;
use vstd::prelude::*;

verus! {

/// All that the clock and the governor of one story keep.
pub struct SimulationState {
    pub story_time: StoryTime,
    pub real_world_time: StoryRealWorldTime,
    pub ticks_per_second: TicksPerSecond,
    pub fast_forward: FastForwardingStateInfo,
    pub simulation_time: SimulationTime,
    pub playback: StoryPlaybackState,
    pub next_playback: NextPlaybackState,
}

/// What a [`SimulationState`] stands for.
pub struct SimulationView {
    pub story_time: StoryTimeView,
    pub real_world_time: int,
    pub ticks_per_second: int,
    pub governor: Governor,
    pub playback: StoryPlaybackState,
}

impl View for SimulationState {
    type V = SimulationView;

    open spec fn view(&self) -> SimulationView {
        SimulationView {
            story_time: self.story_time@,
            real_world_time: self.real_world_time.0 as int,
            ticks_per_second: self.ticks_per_second.0 as int,
            governor: Governor {
                time: self.simulation_time@,
                backlog: self.fast_forward,
                next: self.next_playback.0,
            },
            playback: self.playback,
        }
    }
}

impl SimulationView {
    pub open spec fn wf(self) -> bool {
        &&& self.story_time.wf()
        &&& self.governor.time.wf()
        &&& self.governor.backlog.wf()
        &&& TicksPerSecond(self.ticks_per_second as isize).wf()
        &&& self.ticks_per_second == self.ticks_per_second as isize
    }

    /// Whether the numbers of the story leave room for one more step: the clock can
    /// count the tick, unless the story is paused and counts none, and the ticks owed
    /// for the time gone by can be held, if this step starts a fast-forwarding.
    pub open spec fn has_room(self) -> bool {
        &&& self.playback != StoryPlaybackState::Paused ==> self.story_time.elapsed_ticks
            < isize::MAX
        &&& starts_fast_forward(self.governor, self.playback) ==> owed_ticks(
            self.ticks_per_second,
            self.governor.time.accumulated,
        ) <= isize::MAX
    }

    /// The story at the end of a step of the simulation that ends at the moment `now`:
    /// the tick is counted unless the story is paused, the moment is noted, and the
    /// governor has had its look.
    pub open spec fn step_ended(self, now: int) -> SimulationView {
        SimulationView {
            story_time: if self.playback != StoryPlaybackState::Paused {
                StoryTimeView {
                    elapsed_ticks: self.story_time.elapsed_ticks + 1,
                    ..self.story_time
                }
            } else {
                self.story_time
            },
            real_world_time: now,
            governor: governed(self.governor, self.playback, self.ticks_per_second),
            ..self
        }
    }

    /// The story after the change of state that was asked for, if any, was made.
    pub open spec fn transitioned(self) -> SimulationView {
        SimulationView {
            playback: match self.governor.next {
                Some(state) => state,
                None => self.playback,
            },
            governor: Governor { next: None, ..self.governor },
            ..self
        }
    }

    /// The story after a frame at the moment `now`: the change of state that was asked
    /// for is made, the step follows the user's rate unless the story fast-forwards,
    /// and the moment is noted.
    pub open spec fn frame_ended(self, now: int) -> SimulationView {
        let moved = self.transitioned();
        SimulationView {
            real_world_time: now,
            governor: Governor {
                time: time_scaled(
                    moved.governor.time,
                    moved.ticks_per_second,
                    moved.playback,
                    moved.governor.next,
                ),
                ..moved.governor
            },
            ..moved
        }
    }
}

/// The governor of a story that has not begun: no time has gone by, the step is the
/// one for the default rate, nothing is owed and no change of state is asked for.
pub open spec fn idle_governor() -> Governor {
    Governor {
        time: SimulationTimeView {
            accumulated: 0,
            period: period_for_rate(DEFAULT_TICKS_PER_SECOND as int),
        },
        backlog: FastForwardingStateInfo { initial_pending_ticks: 0, pending_ticks: 0 },
        next: None,
    }
}

impl SimulationState {
    pub open spec fn wf(&self) -> bool {
        self@.wf()
    }

    /// The state of a story that has not begun: stopped, with nothing owed, at the
    /// default rate.
    pub fn new(story_time: StoryTime) -> (state: SimulationState)
        requires
            story_time.wf(),
        ensures
            state.wf(),
            state@ == (SimulationView {
                story_time: story_time@,
                real_world_time: 0,
                ticks_per_second: DEFAULT_TICKS_PER_SECOND as int,
                governor: idle_governor(),
                playback: StoryPlaybackState::Stopped,
            }),
    {
        SimulationState {
            story_time,
            real_world_time: StoryRealWorldTime(0),
            ticks_per_second: TicksPerSecond(DEFAULT_TICKS_PER_SECOND),
            fast_forward: FastForwardingStateInfo { initial_pending_ticks: 0, pending_ticks: 0 },
            simulation_time: SimulationTime::from_ticks_per_second(DEFAULT_TICKS_PER_SECOND),
            playback: StoryPlaybackState::Stopped,
            next_playback: NextPlaybackState(None),
        }
    }

    /// Whether the numbers of the story leave room for one more step.
    pub fn has_room(&self) -> (room: bool)
        requires
            self.wf(),
        ensures
            room == self@.has_room(),
    {
        let counts = match self.playback {
            StoryPlaybackState::Paused => true,
            _ => self.story_time.elapsed_ticks() < isize::MAX,
        };
        let starts = self.fast_forward.pending_ticks == 0 && match self.playback {
            StoryPlaybackState::FastForwarding => false,
            StoryPlaybackState::Paused => false,
            _ => self.simulation_time.accumulated() > NANOS_PER_SECOND,
        };
        counts && (!starts || can_hold_owed_ticks(&self.simulation_time, &self.ticks_per_second))
    }

    /// Ends a step of the simulation at the moment `now_millis`.
    pub fn end_step(&mut self, now_millis: i64)
        requires
            old(self).wf(),
            old(self)@.has_room(),
        ensures
            final(self)@ == old(self)@.step_ended(now_millis as int),
            final(self).wf(),
    {
        match self.playback {
            StoryPlaybackState::Paused => {},
            _ => {
                update_story_elapsed_ticks(&mut self.story_time);
            },
        }
        self.real_world_time = StoryRealWorldTime(now_millis);
        set_rate_of_time(
            &mut self.simulation_time,
            &mut self.fast_forward,
            &self.ticks_per_second,
            self.playback,
            &mut self.next_playback,
        );
    }

    /// Makes the change of state that was asked for, if any.
    pub fn apply_transition(&mut self)
        ensures
            final(self)@ == old(self)@.transitioned(),
            old(self).wf() ==> final(self).wf(),
    {
        self.next_playback.apply(&mut self.playback);
    }

    /// Attends to the story once per frame, at the moment `now_millis`.
    pub fn end_frame(&mut self, now_millis: i64)
        requires
            old(self).wf(),
        ensures
            final(self)@ == old(self)@.frame_ended(now_millis as int),
            final(self).wf(),
    {
        self.apply_transition();
        update_time_scale(
            &mut self.simulation_time,
            &self.ticks_per_second,
            self.playback,
            &self.next_playback,
        );
        self.real_world_time = StoryRealWorldTime(now_millis);
    }
}

/// The state of a story that is about to begin now, by the clock on the wall.
pub fn initialize_story_time_resources() -> (state: SimulationState)
    ensures
        state.wf(),
        state@.story_time.elapsed_ticks == 0,
        state@.real_world_time == 0,
        state@.ticks_per_second == DEFAULT_TICKS_PER_SECOND,
        state@.playback == StoryPlaybackState::Stopped,
        state@.governor == idle_governor(),
{
    SimulationState::new(StoryTime::default())
}

/// A fast-forwarding that the governor has just asked for keeps its fast step through
/// the frame that follows, and so does one that is under way: the user's rate is not
/// written over it. A paused story is never sent into fast-forwarding.
pub proof fn lemma_rate_refresh_spares_fast_forward(state: SimulationView, now: int, later: int)
    requires
        state.wf(),
    ensures
        state.step_ended(now).governor.next == Some(StoryPlaybackState::FastForwarding)
            ==> state.step_ended(now).frame_ended(later).governor.time == state.step_ended(
            now,
        ).governor.time && state.step_ended(now).frame_ended(later).playback
            == StoryPlaybackState::FastForwarding,
        state.playback == StoryPlaybackState::FastForwarding && state.governor.next is None
            ==> state.frame_ended(later).governor.time == state.governor.time,
        state.playback == StoryPlaybackState::Paused && state.governor.next != Some(
            StoryPlaybackState::FastForwarding,
        ) ==> state.step_ended(now).governor.next != Some(StoryPlaybackState::FastForwarding),
{
}

/// The clock of a story never runs back: neither a step nor a frame takes a tick away,
/// a step adds one at most, and a frame leaves the clock alone. Nor does the backlog
/// ever hold more than was owed when the fast-forwarding started.
pub proof fn lemma_clock_never_runs_back(state: SimulationView, now: int)
    requires
        state.wf(),
        state.has_room(),
    ensures
        state.story_time.elapsed_ticks <= state.step_ended(now).story_time.elapsed_ticks
            <= state.story_time.elapsed_ticks + 1,
        state.frame_ended(now).story_time == state.story_time,
        state.step_ended(now).governor.backlog.wf(),
        state.frame_ended(now).governor.backlog == state.governor.backlog,
{
    assert(0 <= state.ticks_per_second * (state.governor.time.accumulated as int
        / NANOS_PER_SECOND as int)) by (nonlinear_arith)
        requires
            0 < state.ticks_per_second,
            0 <= state.governor.time.accumulated as int / NANOS_PER_SECOND as int,
    ;
}

/// The story after so many rounds of a step followed by a frame, each at the moment
/// `now`.
pub open spec fn played(state: SimulationView, now: int, rounds: nat) -> SimulationView
    decreases rounds,
{
    if rounds == 0 {
        state
    } else {
        played(state, now, (rounds - 1) as nat).step_ended(now).frame_ended(now)
    }
}

/// A fast-forwarding story with ticks pending stays fast-forwarding, at its fast step,
/// for as many rounds as ticks are pending, each round taking one tick off the backlog
/// and counting one on the clock.
pub proof fn lemma_fast_forward_runs_its_course(state: SimulationView, now: int, rounds: nat)
    requires
        state.wf(),
        state.playback == StoryPlaybackState::FastForwarding,
        state.governor.next is None,
        rounds <= state.governor.backlog.pending_ticks,
    ensures
        played(state, now, rounds).playback == StoryPlaybackState::FastForwarding,
        played(state, now, rounds).governor == (Governor {
            backlog: FastForwardingStateInfo {
                pending_ticks: (state.governor.backlog.pending_ticks - rounds) as isize,
                ..state.governor.backlog
            },
            ..state.governor
        }),
        played(state, now, rounds).story_time.elapsed_ticks == state.story_time.elapsed_ticks
            + rounds,
        played(state, now, rounds).ticks_per_second == state.ticks_per_second,
    decreases rounds,
{
    if rounds > 0 {
        lemma_fast_forward_runs_its_course(state, now, (rounds - 1) as nat);
    }
}

/// A fast-forwarding story returns to playing in the round after its backlog is worked
/// off, with nothing owed and with the step that the user's rate asks for.
pub proof fn lemma_story_returns_to_playing(state: SimulationView, now: int)
    requires
        state.wf(),
        state.playback == StoryPlaybackState::FastForwarding,
        state.governor.next is None,
    ensures
        ({
            let after = played(state, now, (state.governor.backlog.pending_ticks + 1) as nat);
            &&& after.playback == StoryPlaybackState::Playing
            &&& after.governor.next is None
            &&& after.governor.backlog == (FastForwardingStateInfo {
                initial_pending_ticks: 0,
                pending_ticks: 0,
            })
            &&& after.governor.time == (SimulationTimeView {
                period: period_for_rate(state.ticks_per_second),
                ..state.governor.time
            })
        }),
{
    lemma_fast_forward_runs_its_course(state, now, state.governor.backlog.pending_ticks as nat);
}

} // verus!
