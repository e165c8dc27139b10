//! Simulation core of a top-down action game: box collisions, eight-way
//! movement inside a square map, an enemy state machine that wanders or
//! chases, and timed, direction-gated melee attacks with random blocking.
//!
//! Positions are integer world units; a defense ratio is a count of
//! millionths (see `constants::DEFENSE_SCALE`).

pub mod collisions;
pub mod constants;
mod random;
pub mod ennemies;
pub mod player;
