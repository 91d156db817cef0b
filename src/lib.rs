//! Scripted choreography for animated actors, and the small rules of the
//! game built on it.
//!
//! A `Choreography` is a timed script of events. Staging it on a `Stage`
//! creates a `Director`, which advances a master clock each frame and applies
//! every event whose timestamp falls in the frame's window to the actors it
//! names. Actors follow `AnimationPath`s: pure functions of their local time.
//! A frame runs in three phases: `Stage::direct_play`, then
//! `Stage::animate_transforms`, then `Stage::clean_up`.
//!
//! Time is counted in whole microseconds and positions in fixed-point integer
//! coordinates, so that every rule here is exact. Elliptic paths need the
//! cosine and sine of a phase: a path lists the phases it needs
//! (`AnimationPath::phases`) and the host supplies their unit-circle points.

pub mod geometry;
pub mod path;
pub mod actor;
pub mod choreography;
pub mod director;
pub mod stage;
pub mod cutscene;
pub mod effects;
pub mod music;
pub mod score;
pub mod texture;
pub mod thoughts;
