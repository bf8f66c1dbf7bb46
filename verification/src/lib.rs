//! Input-capture and counting core of a desktop merit-counter toy.
//!
//! Every keystroke and mouse click becomes one unit of "merit". The library
//! holds the verified logic of that pipeline: key-code normalization, the
//! modifier-inference state machine, batching and aggregation of triggers,
//! the counting store with its enable/disable policy and day rollover,
//! monitor-geometry mapping of clicks into heatmap cells, mouse-distance
//! tracking, and the write-behind buffering policy for durable history.
//! Reading the clock, the screen list and the disk stays outside; callers
//! hand those in as plain values.

pub mod achievements;
pub mod active_app;
pub mod activity;
pub mod anim;
pub mod assoc;
pub mod batcher;
pub mod bounds;
pub mod counter_map;
pub mod daily;
pub mod datekey;
pub mod distance;
pub mod heatmap;
pub mod heatmap_codec;
pub mod heatmap_grid;
pub mod heatmap_state;
pub mod history;
pub mod hydrate;
pub mod input;
pub mod interning;
pub mod keycodes;
pub mod listener;
pub mod merit_stats;
pub mod modifiers;
pub mod monitors;
pub mod perf;
pub mod persist;
pub mod placement;
pub mod rng;
pub mod settings;
pub mod skins;
pub mod stats;
pub mod storage;
pub mod strtools;
pub mod vassoc;

pub use datekey::DateKey;
