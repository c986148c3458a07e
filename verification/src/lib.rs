//! The rules of an ant colony simulation: the story clock and its fast-forward
//! governor, the per-tick action economy of the ants, and the grid they live on.

pub mod action_menu;
pub mod ant;
pub mod element;
pub mod element_commands;
pub mod external_event;
pub mod hunger;
pub mod hunger_system;
pub mod initiative;
pub mod playback;
pub mod position;
pub mod regurgitation;
pub mod save;
pub mod settings;
pub mod simulation;
pub mod story_time;
pub mod world_gen;
pub mod world_map;
pub mod world_rng;
