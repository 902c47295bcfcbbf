//! Protocol and game constants. All timing is in milliseconds and all
//! world geometry in integer world units.

use vstd::prelude::*;

verus! {

/// The host's well-known UDP port.
pub const HOST_PORT: u16 = 12345;

/// Shots the attacker gets per round.
pub const BULLETS_PER_ROUND: u32 = 3;

/// Length of one attacking round.
pub const ROUND_TIME_MS: u32 = 30000;

/// Full health of each player.
pub const PLAYER_HP: u32 = 100;

pub const DAMAGE_HEAD: u32 = 100;

pub const DAMAGE_TORSO: u32 = 40;

pub const DAMAGE_LEGS: u32 = 30;

/// Presentation delay between a lethal hit and the game-over announcement.
pub const GAME_OVER_DELAY_MS: u32 = 2000;

/// Interval of the game-over burst repeat.
pub const GAME_OVER_RESEND_INTERVAL_MS: u32 = 100;

/// How many times the burst repeat fires after the immediate send.
pub const GAME_OVER_RESEND_LIMIT: u32 = 30;

/// Interval of the host's authoritative state snapshot stream.
pub const STATE_SYNC_INTERVAL_MS: u32 = 50;

/// Interval of the defender position stream.
pub const DEFENDER_SYNC_INTERVAL_MS: u32 = 16;

/// Interval of the attacker's crosshair stream.
pub const CROSSHAIR_SYNC_INTERVAL_MS: u32 = 50;

/// Interval between discovery broadcasts while searching for a room.
pub const DISCOVERY_INTERVAL_MS: u32 = 500;

/// Cooldown between two shots of the attacker.
pub const SHOT_COOLDOWN_MS: u32 = 1000;

/// Width of a standing player's hitbox.
pub const PLAYER_WIDTH: i32 = 50;

/// Height of a standing player's hitbox.
pub const PLAYER_HEIGHT: i32 = 100;

/// Height of a crouching player's hitbox: seven tenths of standing.
pub const PLAYER_HEIGHT_CROUCHED: i32 = 70;

/// How far from the attacker's fixed position the aim point can travel.
pub const MAX_AIM_OFFSET: i32 = 500;

/// Coordinates handled by the shot computation stay within this bound,
/// which keeps all intermediate squares inside 64-bit arithmetic.
pub const COORD_LIMIT: i32 = 1000000;

pub const ATTACKER_START_X: i32 = 0;

pub const ATTACKER_START_Y: i32 = 200;

pub const DEFENDER_START_X: i32 = 0;

pub const DEFENDER_START_Y: i32 = -40;

/// Z layer on which player entities sit.
pub const PLAYER_LAYER_Z: i32 = 1;

} // verus!
