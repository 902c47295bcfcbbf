//! The wire messages: one tagged union with a variant per protocol message.
//!
//! Coordinates travel as signed 32-bit world units and health, timers and
//! counters as unsigned 32-bit values; the simulation around the library
//! converts to and from its own floating-point world on the way in and out.

use vstd::prelude::*;
use crate::player::PeerRole;
use crate::player::PlayerId;
use crate::player::PlayerRole;

verus! {

/// A 2-component integer vector: an aim point, a velocity, a movement input.
#[derive(Clone, Copy, Debug, PartialEq, Eq, Structural)]
pub struct Vec2i {
    pub x: i32,
    pub y: i32,
}

/// A 3-component integer vector: a world position.
#[derive(Clone, Copy, Debug, PartialEq, Eq, Structural)]
pub struct Vec3i {
    pub x: i32,
    pub y: i32,
    pub z: i32,
}

/// The defender's current dodge pose, synchronized so the attacker's side
/// can draw and hit-test the defender in the matching pose.
#[derive(Clone, Copy, Debug, PartialEq, Eq, Structural)]
pub enum DodgeAction {
    Neutral,
    Crouch,
    SideLeft,
    SideRight,
}

/// A discrete defender input carried inside `PlayerInput`.
#[derive(Clone, Copy, Debug, PartialEq, Eq, Structural)]
pub enum InputAction {
    Crouch,
    Dodge,
}

/// One player's authoritative state inside a `GameState` snapshot.
#[derive(Clone, Copy, Debug, PartialEq, Eq, Structural)]
pub struct PlayerSnapshot {
    pub pos: Vec3i,
    pub role: PlayerRole,
    pub health: u32,
}

/// Every message of the protocol. Delivery is best-effort and unordered:
/// no sequence numbers, no acknowledgements. Handlers therefore have to be
/// idempotent against duplicates and tolerant of loss.
#[derive(Clone, Copy, Debug, PartialEq, Eq)]
pub enum NetworkMessage {
    RoomDiscoveryRequest,
    RoomDiscoveryResponse { room_id: u32, player_name: PeerRole },
    JoinRequest { room_id: u32 },
    JoinAccept { player_id: PlayerId },
    JoinReject,
    GameState { p1: PlayerSnapshot, p2: PlayerSnapshot },
    PlayerInput {
        player_id: PlayerId,
        movement: Option<Vec2i>,
        action: Option<InputAction>,
        crosshair_pos: Option<Vec2i>,
    },
    PlayerHit { player_id: PlayerId, damage: u32 },
    GameOver { winner: PlayerId },
    StartGame,
    RoundInfoSync {
        current_attacker: PlayerId,
        bullets_left: u32,
        round_timer_remaining_ms: u32,
        p1_health: u32,
        p2_health: u32,
        bullets_fired: u32,
        bullets_hit: u32,
    },
    SwitchRoles { new_attacker: PlayerId },
    CrosshairPosition { position: Vec2i },
    DefenderState { position: Vec3i, dodge_action: DodgeAction },
    BulletSpawn {
        bullet_id: u64,
        owner: PlayerId,
        start_pos: Vec2i,
        target_pos: Vec2i,
        velocity: Vec2i,
    },
    HealthUpdate { player_id: PlayerId, health: u32 },
    RematchRequest,
    RematchReady,
}

/// The kind of a message, without its payload: what the inbound queue's
/// cooperative handlers dispatch on.
#[derive(Clone, Copy, Debug, PartialEq, Eq, Structural)]
pub enum MsgKind {
    RoomDiscoveryRequest,
    RoomDiscoveryResponse,
    JoinRequest,
    JoinAccept,
    JoinReject,
    GameState,
    PlayerInput,
    PlayerHit,
    GameOver,
    StartGame,
    RoundInfoSync,
    SwitchRoles,
    CrosshairPosition,
    DefenderState,
    BulletSpawn,
    HealthUpdate,
    RematchRequest,
    RematchReady,
}

impl NetworkMessage {
    pub open spec fn kind_spec(self) -> MsgKind {
        match self {
            NetworkMessage::RoomDiscoveryRequest => MsgKind::RoomDiscoveryRequest,
            NetworkMessage::RoomDiscoveryResponse { .. } => MsgKind::RoomDiscoveryResponse,
            NetworkMessage::JoinRequest { .. } => MsgKind::JoinRequest,
            NetworkMessage::JoinAccept { .. } => MsgKind::JoinAccept,
            NetworkMessage::JoinReject => MsgKind::JoinReject,
            NetworkMessage::GameState { .. } => MsgKind::GameState,
            NetworkMessage::PlayerInput { .. } => MsgKind::PlayerInput,
            NetworkMessage::PlayerHit { .. } => MsgKind::PlayerHit,
            NetworkMessage::GameOver { .. } => MsgKind::GameOver,
            NetworkMessage::StartGame => MsgKind::StartGame,
            NetworkMessage::RoundInfoSync { .. } => MsgKind::RoundInfoSync,
            NetworkMessage::SwitchRoles { .. } => MsgKind::SwitchRoles,
            NetworkMessage::CrosshairPosition { .. } => MsgKind::CrosshairPosition,
            NetworkMessage::DefenderState { .. } => MsgKind::DefenderState,
            NetworkMessage::BulletSpawn { .. } => MsgKind::BulletSpawn,
            NetworkMessage::HealthUpdate { .. } => MsgKind::HealthUpdate,
            NetworkMessage::RematchRequest => MsgKind::RematchRequest,
            NetworkMessage::RematchReady => MsgKind::RematchReady,
        }
    }

    /// The kind of this message.
    pub fn kind(&self) -> (k: MsgKind)
        ensures
            k == self.kind_spec(),
    {
        match self {
            NetworkMessage::RoomDiscoveryRequest => MsgKind::RoomDiscoveryRequest,
            NetworkMessage::RoomDiscoveryResponse { .. } => MsgKind::RoomDiscoveryResponse,
            NetworkMessage::JoinRequest { .. } => MsgKind::JoinRequest,
            NetworkMessage::JoinAccept { .. } => MsgKind::JoinAccept,
            NetworkMessage::JoinReject => MsgKind::JoinReject,
            NetworkMessage::GameState { .. } => MsgKind::GameState,
            NetworkMessage::PlayerInput { .. } => MsgKind::PlayerInput,
            NetworkMessage::PlayerHit { .. } => MsgKind::PlayerHit,
            NetworkMessage::GameOver { .. } => MsgKind::GameOver,
            NetworkMessage::StartGame => MsgKind::StartGame,
            NetworkMessage::RoundInfoSync { .. } => MsgKind::RoundInfoSync,
            NetworkMessage::SwitchRoles { .. } => MsgKind::SwitchRoles,
            NetworkMessage::CrosshairPosition { .. } => MsgKind::CrosshairPosition,
            NetworkMessage::DefenderState { .. } => MsgKind::DefenderState,
            NetworkMessage::BulletSpawn { .. } => MsgKind::BulletSpawn,
            NetworkMessage::HealthUpdate { .. } => MsgKind::HealthUpdate,
            NetworkMessage::RematchRequest => MsgKind::RematchRequest,
            NetworkMessage::RematchReady => MsgKind::RematchReady,
        }
    }
}

} // verus!
