//! The rules of a four-seat arena fighter: setup, match flow, fighter state
//! machines and the deterministic events that describe them.
//!
//! Everything here works on integers, enums and flags. Numbers that live in
//! floating point elsewhere are carried by their bit pattern (see [`scalar`]).

pub mod action;
pub mod action_laws;
pub mod air;
pub mod air_laws;
pub mod bodies;
pub mod body_laws;
pub mod dash;
pub mod dash_laws;
pub mod event_laws;
pub mod feedback;
pub mod fighter;
pub mod fixed;
pub mod gestures;
pub mod global_input;
pub mod grab;
pub mod grab_laws;
pub mod ground_laws;
pub mod guard;
pub mod headless;
pub mod ids;
pub mod input;
pub mod input_laws;
pub mod journal;
pub mod keys;
pub mod lifecycle;
pub mod lifecycle_laws;
pub mod loadout;
pub mod match_laws;
pub mod match_state;
pub mod menu_laws;
pub mod movement;
pub mod movement_laws;
pub mod number_laws;
pub mod pending;
pub mod pose;
pub mod presentation;
pub mod profile;
pub mod profile_laws;
pub mod reaction;
pub mod reaction_laws;
pub mod rules;
pub mod sampling;
pub mod scalar;
pub mod schedule;
pub mod setup;
pub mod show_laws;
pub mod sim_event;
pub mod spawn;
pub mod start;
pub mod step;
pub mod table_laws;
pub mod technique;
pub mod ticks;
pub mod transition;
pub mod travel;
pub mod ultimate;
