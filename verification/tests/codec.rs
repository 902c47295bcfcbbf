//! Wire-codec round trips and rejection of malformed datagrams.

use wallduel::codec::decode;
use wallduel::codec::encode;
use wallduel::msg::DodgeAction;
use wallduel::msg::InputAction;
use wallduel::msg::NetworkMessage;
use wallduel::msg::PlayerSnapshot;
use wallduel::msg::Vec2i;
use wallduel::msg::Vec3i;
use wallduel::player::PeerRole;
use wallduel::player::PlayerId;
use wallduel::player::PlayerRole;

fn round_trip(m: NetworkMessage) {
    let bytes = encode(&m);
    let back = decode(&bytes);
    assert_eq!(back, Some(m));
}

#[test]
fn round_trip_nullary_messages() {
    round_trip(NetworkMessage::RoomDiscoveryRequest);
    round_trip(NetworkMessage::JoinReject);
    round_trip(NetworkMessage::StartGame);
    round_trip(NetworkMessage::RematchRequest);
    round_trip(NetworkMessage::RematchReady);
}

#[test]
fn round_trip_discovery_and_join() {
    round_trip(NetworkMessage::RoomDiscoveryResponse {
        room_id: 0xDEAD_BEEF,
        player_name: PeerRole::Host,
    });
    round_trip(NetworkMessage::RoomDiscoveryResponse {
        room_id: 0,
        player_name: PeerRole::Client,
    });
    round_trip(NetworkMessage::JoinRequest { room_id: 4242 });
    round_trip(NetworkMessage::JoinAccept {
        player_id: PlayerId::Player2,
    });
}

#[test]
fn round_trip_game_state() {
    round_trip(NetworkMessage::GameState {
        p1: PlayerSnapshot {
            pos: Vec3i { x: 0, y: 200, z: 1 },
            role: PlayerRole::Attacker,
            health: 100,
        },
        p2: PlayerSnapshot {
            pos: Vec3i { x: -17, y: -40, z: 1 },
            role: PlayerRole::Defender,
            health: 60,
        },
    });
}

#[test]
fn round_trip_player_input_all_option_shapes() {
    round_trip(NetworkMessage::PlayerInput {
        player_id: PlayerId::Player1,
        movement: None,
        action: None,
        crosshair_pos: None,
    });
    round_trip(NetworkMessage::PlayerInput {
        player_id: PlayerId::Player2,
        movement: Some(Vec2i { x: -1, y: 1 }),
        action: Some(InputAction::Crouch),
        crosshair_pos: Some(Vec2i { x: 33, y: -44 }),
    });
    round_trip(NetworkMessage::PlayerInput {
        player_id: PlayerId::Player2,
        movement: Some(Vec2i { x: 0, y: 0 }),
        action: Some(InputAction::Dodge),
        crosshair_pos: None,
    });
}

#[test]
fn round_trip_round_info_sync() {
    round_trip(NetworkMessage::RoundInfoSync {
        current_attacker: PlayerId::Player2,
        bullets_left: 2,
        round_timer_remaining_ms: 29950,
        p1_health: 100,
        p2_health: 60,
        bullets_fired: 1,
        bullets_hit: 1,
    });
}

#[test]
fn round_trip_events() {
    round_trip(NetworkMessage::PlayerHit {
        player_id: PlayerId::Player2,
        damage: 40,
    });
    round_trip(NetworkMessage::GameOver {
        winner: PlayerId::Player1,
    });
    round_trip(NetworkMessage::SwitchRoles {
        new_attacker: PlayerId::Player2,
    });
    round_trip(NetworkMessage::HealthUpdate {
        player_id: PlayerId::Player2,
        health: 0,
    });
}

#[test]
fn round_trip_streams() {
    round_trip(NetworkMessage::CrosshairPosition {
        position: Vec2i {
            x: i32::MIN,
            y: i32::MAX,
        },
    });
    for dodge in [
        DodgeAction::Neutral,
        DodgeAction::Crouch,
        DodgeAction::SideLeft,
        DodgeAction::SideRight,
    ] {
        round_trip(NetworkMessage::DefenderState {
            position: Vec3i {
                x: 1,
                y: -2,
                z: 3,
            },
            dodge_action: dodge,
        });
    }
}

#[test]
fn round_trip_bullet_spawn() {
    round_trip(NetworkMessage::BulletSpawn {
        bullet_id: u64::MAX - 1,
        owner: PlayerId::Player1,
        start_pos: Vec2i { x: 0, y: 200 },
        target_pos: Vec2i { x: 12, y: -40 },
        velocity: Vec2i { x: 12, y: -240 },
    });
    round_trip(NetworkMessage::BulletSpawn {
        bullet_id: 0,
        owner: PlayerId::Player2,
        start_pos: Vec2i { x: 0, y: 0 },
        target_pos: Vec2i { x: 0, y: 0 },
        velocity: Vec2i { x: 0, y: 0 },
    });
}

#[test]
fn decode_rejects_malformed_datagrams() {
    // empty
    assert_eq!(decode(&vec![]), None);
    // unknown tag
    assert_eq!(decode(&vec![200u8]), None);
    // wrong length for the tag
    assert_eq!(decode(&vec![0u8, 0u8]), None);
    assert_eq!(decode(&vec![3u8]), None);
    // bad player id byte
    assert_eq!(decode(&vec![3u8, 0u8]), None);
    assert_eq!(decode(&vec![3u8, 3u8]), None);
    // truncated payload
    let full = encode(&NetworkMessage::JoinRequest { room_id: 7 });
    let truncated = full[..full.len() - 1].to_vec();
    assert_eq!(decode(&truncated), None);
    // trailing garbage
    let mut padded = full.clone();
    padded.push(0);
    assert_eq!(decode(&padded), None);
}

#[test]
fn decode_rejects_bad_enum_bytes() {
    // DefenderState with a dodge byte outside 0..=3
    let good = encode(&NetworkMessage::DefenderState {
        position: Vec3i { x: 0, y: 0, z: 0 },
        dodge_action: DodgeAction::Neutral,
    });
    let mut bad = good.clone();
    let last = bad.len() - 1;
    bad[last] = 9;
    assert_eq!(decode(&bad), None);
    assert!(decode(&good).is_some());
}

#[test]
fn encoding_is_tagged_and_fixed_size() {
    let m = NetworkMessage::GameOver {
        winner: PlayerId::Player2,
    };
    let bytes = encode(&m);
    assert_eq!(bytes[0], 8);
    assert_eq!(bytes.len(), 2);
    let spawn = encode(&NetworkMessage::BulletSpawn {
        bullet_id: 7,
        owner: PlayerId::Player1,
        start_pos: Vec2i { x: 1, y: 2 },
        target_pos: Vec2i { x: 3, y: 4 },
        velocity: Vec2i { x: 5, y: 6 },
    });
    assert_eq!(spawn[0], 14);
    assert_eq!(spawn.len(), 34);
}
