//! Playlist engine, schedulers and wire protocol of a wallpaper rotation daemon.

pub mod builder;
pub mod cleanup;
pub mod client;
pub mod cron_job;
pub mod day_night;
pub mod ipc;
pub mod json;
pub mod message;
pub mod oneway;
pub mod paths;
pub mod persistence;
pub mod queue;
pub mod row_types;
pub mod scheduler;
pub mod text;
pub mod transport;
pub mod wallpaper_queue;
pub mod wire;
