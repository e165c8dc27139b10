use vstd::prelude::*;

verus! {

/// Side of the square play area; the area spans `-MAP_SIZE / 2 ..= MAP_SIZE / 2` on each axis.
pub const MAP_SIZE: i32 = 3200;

/// Size of the safe zone kept free of enemies at spawn time.
pub const SANCTUARY_WIDTH: i32 = 200;
pub const SANCTUARY_HEIGHT: i32 = 200;

/// Enemies spawn with `-SPAWN_MAX_X <= x < SPAWN_MAX_X`, likewise for y: half the map
/// less half the sanctuary.
pub const SPAWN_MAX_X: i32 = 1500;
pub const SPAWN_MAX_Y: i32 = 1500;

pub const ENNEMY_HITBOX_WIDTH: u32 = 24;
pub const ENNEMY_HITBOX_HEIGHT: u32 = 32;

/// Player size used for the play-area limits.
pub const PLAYER_HITBOX_WIDTH: u32 = 40;
pub const PLAYER_HITBOX_HEIGHT: u32 = 50;

/// Player box used against obstacles and enemies (four fifths of the sprite size).
/// The player stays within `-PLAYER_BOUND ..= PLAYER_BOUND` on both axes: half the map
/// less half its width.
pub const PLAYER_BOUND: i32 = 1580;

pub const PLAYER_BOX_WIDTH: u32 = 32;
pub const PLAYER_BOX_HEIGHT: u32 = 40;

pub const ENNEMY_NORMAL_SPEED: u32 = 1;
pub const ENNEMY_SPRINT_SPEED: u32 = 2;
pub const PLAYER_NORMAL_SPEED: u32 = 2;
pub const PLAYER_SPRINT_SPEED: u32 = 4;

/// Offset of the attack probe box from the attacker's center.
pub const ENNEMY_ATTACK_RANGE: u32 = 20;

/// An enemy chases a living player strictly closer than this.
pub const ENNEMY_AGGRO_DISTANCE: u32 = 200;

/// Attack cadence of an enemy, in milliseconds.
pub const ENNEMY_ATTACK_DELAY: u64 = 1000;

pub const ENNEMIES_NUMBER: usize = 20;

/// A defense ratio `d` blocks an attack with probability `d / DEFENSE_SCALE`.
pub const DEFENSE_SCALE: u32 = 1000000;

pub const ENNEMY_HEALTH: i32 = 10;
pub const ENNEMY_ATTACK: i32 = 5;
pub const ENNEMY_DEFENSE_RATIO: u32 = 500000;

pub const PLAYER_HEALTH: i32 = 20;
pub const PLAYER_DEFENSE_RATIO: u32 = 250000;

/// Wander durations are drawn from `WANDER_MIN .. WANDER_MAX` ticks.
pub const WANDER_MIN: i32 = 25;
pub const WANDER_MAX: i32 = 50;

} // verus!
