//! Industrial Evolution: the game rules of a small factory-management game.
//!
//! The library holds the parts of the game that decide things: item
//! containers, tile neighbourhoods and path following, worker jobs, the
//! hand-over of items between workers and containers, assembly production,
//! dialogue progression and sprite facing.  The engine side (rendering,
//! input, entity bookkeeping, floating-point positions and money) lives in
//! the application around it and hands the library plain values.

pub mod items;
pub mod tiles;
pub mod container;
pub mod tile_pathfinding;
pub mod job_error;
pub mod jobs;
pub mod job_ui;
pub mod worker;
pub mod day_cycle;
pub mod player;
pub mod assembly;
pub mod ui;
pub mod bundles;
pub mod ghost;
pub mod modes;
pub mod tutorial;
pub mod receivables;
