//! Tuning values of the game, in whole world units and nanoseconds.

use vstd::prelude::*;

verus! {

/// Most enemies alive at once.
pub const BASE_ENEMIES: usize = 10;

/// Edge of one sprite; the unit that ranges are counted in.
pub const SPRITE_SIZE: u32 = 22;

/// Distance inside which an idle enemy starts to follow the player.
pub const ENEMY_SIGHT_RANGE: u32 = 2000;

/// Distance to the orbit point under which a follower stands still.
pub const FOLLOW_DEAD_ZONE: u32 = 8;

/// Slowest speed an enemy follows at, in units per second.
pub const ENEMY_MIN_SPEED: u32 = 20;

/// The speed that no enemy reaches.
pub const ENEMY_MAX_SPEED: u32 = 40;

/// Reach of an enemy's strike, three sprite sizes.
pub const ENEMY_CHARGING_RANGE: u32 = 66;

/// How long an enemy winds up.
pub const ENEMY_CHARGING_TIME: u64 = 2_000_000_000;

/// How long an enemy holds before it strikes.
pub const ENEMY_READY_TIME: u64 = 500_000_000;

/// How long a strike lasts, and its volume lives.
pub const ENEMY_DELIVER_TIME: u64 = 1_000_000_000;

/// How long the effect left by a dead enemy stays.
pub const DEATH_EFFECT_TIME: u64 = 1_000_000_000;

/// The duration of the calm phase of a cycle.
pub const CYCLE_DURATION: u64 = 5_000_000_000;

/// The weight of the first cycle; every unit of weight is one falling meteor.
pub const CYCLE_WEIGHT: usize = 3;

/// The shortest delay between two meteor spawns.
pub const METEOR_SPAWN_DELAY: u64 = 250_000_000;

/// The longest extra delay added to `METEOR_SPAWN_DELAY` at session start.
pub const METEOR_SPAWN_JITTER: u64 = 100_000_000;

/// Height a meteor starts to fall from, in thousandths of a world unit.
pub const METEOR_START_HEIGHT: i32 = 25_000;

/// Least height a meteor loses per step.
pub const METEOR_MIN_FALL: u32 = 300;

/// The height per step that no meteor reaches.
pub const METEOR_MAX_FALL: u32 = 500;

/// Score for a meteor that lands away from the player.
pub const METEOR_DODGED_SCORE: usize = 3;

/// Collision group of the strike volumes of enemies.
pub const ATTACK_GROUP: u32 = 1;

/// Collision group of the enemies.
pub const ENEMY_GROUP: u32 = 2;

/// Collision group of the player.
pub const PLAYER_GROUP: u32 = 4;

/// Collision group of the hit volumes of drawn attacks.
pub const ATTACK_TRAIL_GROUP: u32 = 8;

/// Smallest enclosed area of a valid attack shape.
pub const MIN_ATTACK_AREA: u64 = 10_000;

/// How long an attack trail may wait for its first hit.
pub const ATTACK_COOLDOWN: u64 = 100_000_000;

/// Speed of the player in units per second.
pub const PLAYER_SPEED: u32 = 66;

/// How many times faster than walking a dodge is.
pub const DODGING_SPEED: u32 = 8;

/// How long a dodge lasts.
pub const DODGING_TIMER: u64 = 150_000_000;

/// How long the player waits between two dodges.
pub const DODGING_COOLDOWN: u64 = 1_000_000_000;

} // verus!
