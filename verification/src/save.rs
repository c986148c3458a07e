//! When the world is saved.

use crate::playback::StoryPlaybackState;
use vstd::prelude::*;

verus! {

/// What the periodic saving does at one look.
#[derive(Clone, Copy, Debug, PartialEq, Eq, Structural)]
pub enum SaveStep {
    /// Nothing: the story is fast-forwarding, and saving would slow it down.
    Nothing,
    /// A snapshot of the world is taken and kept in memory.
    Snapshot,
    /// A snapshot is taken and written out.
    SnapshotAndWrite,
}

/// Whether it is time to write the world out: it never was, or the interval has gone
/// by since it last was. Times are in milliseconds since the program started.
pub open spec fn is_save_due(
    last_save_millis: int,
    elapsed_millis: int,
    interval_millis: int,
) -> bool {
    last_save_millis == 0 || elapsed_millis - last_save_millis >= interval_millis
}

/// What the periodic saving does at one look.
pub open spec fn save_step(
    is_fast_forwarding: bool,
    last_save_millis: int,
    elapsed_millis: int,
    interval_millis: int,
) -> SaveStep {
    if is_fast_forwarding {
        SaveStep::Nothing
    } else if is_save_due(last_save_millis, elapsed_millis, interval_millis) {
        SaveStep::SnapshotAndWrite
    } else {
        SaveStep::Snapshot
    }
}

/// Decides what the periodic saving does now.
pub fn periodic_save_step(
    is_fast_forwarding: bool,
    last_save_millis: u64,
    elapsed_millis: u64,
    auto_save_interval_ms: isize,
) -> (step: SaveStep)
    ensures
        step == save_step(
            is_fast_forwarding,
            last_save_millis as int,
            elapsed_millis as int,
            auto_save_interval_ms as int,
        ),
{
    if is_fast_forwarding {
        return SaveStep::Nothing;
    }
    if last_save_millis == 0 {
        return SaveStep::SnapshotAndWrite;
    }
    let since: i128 = elapsed_millis as i128 - last_save_millis as i128;
    if since >= auto_save_interval_ms as i128 {
        SaveStep::SnapshotAndWrite
    } else {
        SaveStep::Snapshot
    }
}

/// The time of the last writing after one look: a writing that went well is noted, and
/// nothing else is.
pub fn note_save(last_save_millis: &mut u64, step: SaveStep, written: bool, elapsed_millis: u64)
    ensures
        *final(last_save_millis) == (if step == SaveStep::SnapshotAndWrite && written {
            elapsed_millis
        } else {
            *old(last_save_millis)
        }),
{
    match step {
        SaveStep::SnapshotAndWrite => {
            if written {
                *last_save_millis = elapsed_millis;
            }
        },
        _ => {},
    }
}

/// Whether the world is saved after a frame: only while the story plays.
pub fn saves_after_frame(story_playback_state: StoryPlaybackState) -> (saves: bool)
    ensures
        saves == (story_playback_state == StoryPlaybackState::Playing),
{
    match story_playback_state {
        StoryPlaybackState::Playing => true,
        _ => false,
    }
}

} // verus!
