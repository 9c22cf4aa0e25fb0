//! Game rules of RustyDasher: modes, difficulties, run statistics, high
//! scores, viewport classes, menu and touch decisions, and the small integer
//! algorithms (random numbers, mesh index buffers, URL query parsing) that the
//! game is built on.

pub mod state;
pub mod stats;
pub mod save;
pub mod ui_scale;
pub mod rng;
pub mod mesh_index;
pub mod qa;
pub mod screenshot_tour;
pub mod touch_controls;
pub mod ui;
pub mod world;
pub mod viewport;
pub mod player;
pub mod constants;
