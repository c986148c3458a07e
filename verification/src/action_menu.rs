//! What the menu of actions offers as the story stands.

use crate::external_event::ExternalSimulationEvent;
use crate::external_event::VisibleGridState;
use crate::settings::Settings;
use crate::story_time::StoryTime;
use crate::story_time::StoryTimeView;
use crate::story_time::SunTimes;
use vstd::prelude::*;

verus! {

/// Whether food is withheld for now: the user has asked for food around sunrise only,
/// the story keeps real time, and it is not around sunrise.
pub open spec fn food_disabled(
    settings: Settings,
    story_time: StoryTimeView,
    sun: SunTimes,
) -> bool {
    settings.is_breathwork_scheduled && story_time.is_real_time
        && !story_time.is_within_schedule_window(sun)
}

/// Whether the menu withholds food for now.
pub fn is_food_disabled(settings: &Settings, story_time: &StoryTime, sun: SunTimes) -> (disabled:
    bool)
    requires
        story_time.wf(),
        0 <= sun.sunrise < 1440,
    ensures
        disabled == food_disabled(*settings, story_time@, sun),
{
    settings.is_breathwork_scheduled && story_time.keeps_real_time()
        && !story_time.is_within_schedule_window(sun)
}

/// The request that the menu's button for changing the view makes: from the nest to
/// the crater, and from anywhere else to the nest.
pub fn view_button_event(visible: Option<VisibleGridState>) -> (event: ExternalSimulationEvent)
    ensures
        event == (match visible {
            Some(VisibleGridState::Nest) => ExternalSimulationEvent::ShowCrater,
            _ => ExternalSimulationEvent::ShowNest,
        }),
{
    match visible {
        Some(VisibleGridState::Nest) => ExternalSimulationEvent::ShowCrater,
        _ => ExternalSimulationEvent::ShowNest,
    }
}

} // verus!
