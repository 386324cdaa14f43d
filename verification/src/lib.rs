//! Per-frame gameplay core of an "avoid obstacles, collect items" arcade game.
//!
//! The library owns the simulation model: a registry of actors (one player,
//! recycled obstacle gates and collectibles, a background), a session-state
//! record (score, high score, lives, pause flag, countdown timers), and the
//! per-tick rules that move actors, detect collisions and resolve them into
//! score, lives, timers and emitted effects (audio cues, high-score writes).
//! Geometry is fixed-point: all lengths are hundredths of a world unit and
//! all angles hundredths of a degree, so every rule is exact integer math.

pub mod actor;
pub mod banner;
pub mod collision;
pub mod effects;
pub mod events;
pub mod geom;
pub mod highscore;
pub mod laws;
pub mod motion;
pub mod scene;
pub mod session;
pub mod timers;
pub mod world;
