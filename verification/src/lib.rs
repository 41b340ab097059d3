//! The simulation core of a small real-time combat game: entity and
//! component stores, the spell catalog, and the per-tick systems that
//! advance casts, resolve damage over time, apply damage and derive
//! mortality.

pub mod animation;
pub mod button_definitions;
pub mod color;
pub mod components;
pub mod construct_game;
pub mod construct_window;
pub mod effects;
pub mod entities;
pub mod g_entities;
pub mod g_properties;
pub mod game;
pub mod helpers;
pub mod laws;
pub mod properties;
pub mod render_pipeline;
pub mod stats_panel;
pub mod systems;
pub mod tables;
pub mod text;
pub mod update_game;
pub mod user_input;
pub mod widgets;
