//! A four-way intersection traffic simulation: vehicles approach from the
//! four screen edges, optionally turn once at the crossing, and leave the
//! screen; spawns are rate-limited per approach direction.

pub mod clock;
pub mod geometry;
pub mod heading;
pub mod motion;
pub mod random;
pub mod scene;
pub mod throttle;
pub mod vehicle;
pub mod world;
