pub mod abilities;
pub mod attack;
pub mod builds;
pub mod champions;
pub mod common;
pub mod config;
pub mod event_steps;
pub mod events;
pub mod guards;
pub mod item_effects;
pub mod items;
pub mod keyed;
pub mod runes;
pub mod simulation;
pub mod text;
