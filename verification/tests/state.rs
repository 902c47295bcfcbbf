//! The round/role state machine, the queue discipline, and the
//! event-message behaviors, on concrete values.

use wallduel::bullets::Bullet;
use wallduel::bullets::BulletBoard;
use wallduel::consts::BULLETS_PER_ROUND;
use wallduel::consts::GAME_OVER_RESEND_LIMIT;
use wallduel::consts::PLAYER_HP;
use wallduel::consts::ROUND_TIME_MS;
use wallduel::gameover::GameOverAction;
use wallduel::gameover::GameOverPhase;
use wallduel::gameover::GameOverState;
use wallduel::msg::MsgKind;
use wallduel::msg::NetworkMessage;
use wallduel::msg::Vec2i;
use wallduel::player::PlayerId;
use wallduel::player::PlayerRole;
use wallduel::player::RoleAssignment;
use wallduel::queue::Handler;
use wallduel::queue::InboundQueue;
use wallduel::rate::RateTimer;
use wallduel::round::RoundInfo;
use wallduel::shot::damage_of;
use wallduel::shot::resolve_shot;
use wallduel::shot::HitboxType;
use wallduel::view::view_for;

#[test]
fn switch_roles_message_is_idempotent() {
    // applying SwitchRoles{attacker = Player2} twice leaves the attacker
    // at Player2 and flips the state only once
    let mut round = RoundInfo::new(PlayerId::Player1);
    let changed_first = round.apply_switch_roles(PlayerId::Player2);
    assert!(changed_first);
    assert_eq!(round.current_attacker, PlayerId::Player2);
    assert!(round.is_switching);
    let snapshot = round;
    let changed_again = round.apply_switch_roles(PlayerId::Player2);
    assert!(!changed_again);
    assert_eq!(round, snapshot);
    // the derived view does not flip a second time either
    let view_once = view_for(PlayerId::Player2, round.current_attacker);
    let view_twice = view_for(PlayerId::Player2, round.current_attacker);
    assert_eq!(view_once, view_twice);
    assert!(view_once.is_attacker_view);
}

#[test]
fn bullet_spawn_deduplicates_by_id() {
    let mut board = BulletBoard::new();
    let b = Bullet {
        id: 7,
        owner: PlayerId::Player1,
        start_pos: Vec2i { x: 0, y: 200 },
        target_pos: Vec2i { x: 0, y: -40 },
        velocity: Vec2i { x: 0, y: -240 },
    };
    assert!(board.spawn(b));
    assert!(!board.spawn(b));
    assert_eq!(board.len(), 1);
    assert!(board.has_id(7));
    assert!(!board.has_id(8));
}

#[test]
fn exactly_one_attacker_in_every_assignment() {
    for attacker in [PlayerId::Player1, PlayerId::Player2] {
        let roles = RoleAssignment::from_attacker(attacker);
        let attackers = [roles.p1, roles.p2]
            .iter()
            .filter(|r| matches!(r, PlayerRole::Attacker))
            .count();
        assert_eq!(attackers, 1);
        let flipped = roles.flipped();
        let attackers_after = [flipped.p1, flipped.p2]
            .iter()
            .filter(|r| matches!(r, PlayerRole::Attacker))
            .count();
        assert_eq!(attackers_after, 1);
        assert_ne!(roles.p1, flipped.p1);
    }
}

#[test]
fn view_matches_role_for_both_peers() {
    let roles = RoleAssignment::from_attacker(PlayerId::Player2);
    for local in [PlayerId::Player1, PlayerId::Player2] {
        let view = view_for(local, PlayerId::Player2);
        let is_attacker = matches!(roles.role_of(local), PlayerRole::Attacker);
        assert_eq!(view.is_attacker_view, is_attacker);
    }
}

#[test]
fn round_transition_trigger() {
    // bullets spent and field clear: the switch fires
    let mut round = RoundInfo::new(PlayerId::Player1);
    round.bullets_left = 0;
    assert!(round.switch_due(0));
    // timer expired but a bullet still in flight: no switch yet
    let mut expired = RoundInfo::new(PlayerId::Player1);
    expired.tick(ROUND_TIME_MS);
    assert_eq!(expired.round_timer_ms, 0);
    assert_eq!(expired.bullets_left, 0);
    assert!(!expired.switch_due(1));
    // that bullet despawns: now it fires
    assert!(expired.switch_due(0));
}

#[test]
fn timer_expiry_forfeits_bullets() {
    let mut round = RoundInfo::new(PlayerId::Player2);
    round.tick(29999);
    assert_eq!(round.round_timer_ms, 1);
    assert_eq!(round.bullets_left, BULLETS_PER_ROUND);
    round.tick(1);
    assert_eq!(round.round_timer_ms, 0);
    assert_eq!(round.bullets_left, 0);
}

#[test]
fn shots_and_hits_update_the_round() {
    let mut round = RoundInfo::new(PlayerId::Player1);
    round.record_shot();
    assert_eq!(round.bullets_left, 2);
    assert_eq!(round.bullets_fired_this_round, 1);
    let health = round.record_hit(PlayerId::Player2, 40);
    assert_eq!(health, 60);
    assert_eq!(round.p2_health, 60);
    assert_eq!(round.p1_health, PLAYER_HP);
    assert_eq!(round.bullets_hit_defender, 1);
    // damage floors at zero
    let floored = round.record_hit(PlayerId::Player2, 1000);
    assert_eq!(floored, 0);
}

#[test]
fn round_switch_resets_the_round_but_not_health() {
    let mut round = RoundInfo::new(PlayerId::Player1);
    round.record_shot();
    round.record_hit(PlayerId::Player2, 40);
    round.tick(500);
    round.reset_for_new_round(PlayerId::Player2);
    assert_eq!(round.bullets_left, BULLETS_PER_ROUND);
    assert_eq!(round.round_timer_ms, ROUND_TIME_MS);
    assert_eq!(round.current_attacker, PlayerId::Player2);
    assert_eq!(round.bullets_fired_this_round, 0);
    assert_eq!(round.bullets_hit_defender, 0);
    assert!(!round.is_switching);
    assert_eq!(round.p2_health, 60);
}

#[test]
fn authoritative_sync_is_clamped_into_the_data_model() {
    let mut round = RoundInfo::new(PlayerId::Player1);
    round.apply_round_sync(PlayerId::Player2, 900, 99999, 7, 101, 2, 2);
    assert_eq!(round.current_attacker, PlayerId::Player2);
    assert_eq!(round.bullets_left, BULLETS_PER_ROUND);
    assert_eq!(round.round_timer_ms, ROUND_TIME_MS);
    assert_eq!(round.p1_health, 7);
    assert_eq!(round.p2_health, PLAYER_HP);
}

#[test]
fn authoritative_sync_applies_the_round_timer() {
    // the whole payload is authoritative: a drifted local clock heals
    let mut round = RoundInfo::new(PlayerId::Player1);
    round.tick(12000);
    assert_eq!(round.round_timer_ms, 18000);
    round.apply_round_sync(PlayerId::Player1, 3, 25500, 100, 100, 0, 0);
    assert_eq!(round.round_timer_ms, 25500);
}

#[test]
fn queue_drain_keeps_unowned_messages_in_order() {
    let mut q = InboundQueue::new();
    let gs = NetworkMessage::StartGame;
    let cp = NetworkMessage::CrosshairPosition {
        position: Vec2i { x: 1, y: 2 },
    };
    let hu = NetworkMessage::HealthUpdate {
        player_id: PlayerId::Player1,
        health: 50,
    };
    let sr = NetworkMessage::SwitchRoles {
        new_attacker: PlayerId::Player2,
    };
    q.push(gs);
    q.push(cp);
    q.push(hu);
    q.push(sr);
    // the client-sync handler owns only SwitchRoles here
    let owned = q.take_owned(Handler::ClientSync);
    assert_eq!(owned, vec![sr]);
    assert_eq!(q.len(), 3);
    // the rest stays for later handlers, in arrival order
    let conn = q.take_owned(Handler::Connection);
    assert_eq!(conn, vec![gs]);
    let cross = q.take_owned(Handler::CrosshairStream);
    assert_eq!(cross, vec![cp]);
    let health = q.take_owned(Handler::HealthEvents);
    assert_eq!(health, vec![hu]);
    assert_eq!(q.len(), 0);
}

#[test]
fn message_kinds_have_exactly_one_owner() {
    let kinds = [
        MsgKind::RoomDiscoveryRequest,
        MsgKind::RoomDiscoveryResponse,
        MsgKind::JoinRequest,
        MsgKind::JoinAccept,
        MsgKind::JoinReject,
        MsgKind::GameState,
        MsgKind::PlayerInput,
        MsgKind::PlayerHit,
        MsgKind::GameOver,
        MsgKind::StartGame,
        MsgKind::RoundInfoSync,
        MsgKind::SwitchRoles,
        MsgKind::CrosshairPosition,
        MsgKind::DefenderState,
        MsgKind::BulletSpawn,
        MsgKind::HealthUpdate,
        MsgKind::RematchRequest,
        MsgKind::RematchReady,
    ];
    // drain with every handler in turn: each kind is consumed exactly once
    for k in kinds {
        let mut q = InboundQueue::new();
        q.push(message_of_kind(k));
        let mut consumed = 0;
        for h in [
            Handler::Connection,
            Handler::ClientSync,
            Handler::DefenderStream,
            Handler::CrosshairStream,
            Handler::BulletEvents,
            Handler::HealthEvents,
            Handler::GameOverEvents,
            Handler::RematchEvents,
        ] {
            consumed += q.take_owned(h).len();
        }
        assert_eq!(consumed, 1);
        assert_eq!(q.len(), 0);
    }
}

fn message_of_kind(k: MsgKind) -> NetworkMessage {
    let v2 = Vec2i { x: 0, y: 0 };
    match k {
        MsgKind::RoomDiscoveryRequest => NetworkMessage::RoomDiscoveryRequest,
        MsgKind::RoomDiscoveryResponse => NetworkMessage::RoomDiscoveryResponse {
            room_id: 1,
            player_name: wallduel::player::PeerRole::Host,
        },
        MsgKind::JoinRequest => NetworkMessage::JoinRequest { room_id: 1 },
        MsgKind::JoinAccept => NetworkMessage::JoinAccept {
            player_id: PlayerId::Player2,
        },
        MsgKind::JoinReject => NetworkMessage::JoinReject,
        MsgKind::GameState => NetworkMessage::GameState {
            p1: wallduel::msg::PlayerSnapshot {
                pos: wallduel::msg::Vec3i { x: 0, y: 0, z: 0 },
                role: PlayerRole::Attacker,
                health: 100,
            },
            p2: wallduel::msg::PlayerSnapshot {
                pos: wallduel::msg::Vec3i { x: 0, y: 0, z: 0 },
                role: PlayerRole::Defender,
                health: 100,
            },
        },
        MsgKind::PlayerInput => NetworkMessage::PlayerInput {
            player_id: PlayerId::Player1,
            movement: None,
            action: None,
            crosshair_pos: None,
        },
        MsgKind::PlayerHit => NetworkMessage::PlayerHit {
            player_id: PlayerId::Player1,
            damage: 1,
        },
        MsgKind::GameOver => NetworkMessage::GameOver {
            winner: PlayerId::Player1,
        },
        MsgKind::StartGame => NetworkMessage::StartGame,
        MsgKind::RoundInfoSync => NetworkMessage::RoundInfoSync {
            current_attacker: PlayerId::Player1,
            bullets_left: 3,
            round_timer_remaining_ms: 1,
            p1_health: 100,
            p2_health: 100,
            bullets_fired: 0,
            bullets_hit: 0,
        },
        MsgKind::SwitchRoles => NetworkMessage::SwitchRoles {
            new_attacker: PlayerId::Player1,
        },
        MsgKind::CrosshairPosition => NetworkMessage::CrosshairPosition { position: v2 },
        MsgKind::DefenderState => NetworkMessage::DefenderState {
            position: wallduel::msg::Vec3i { x: 0, y: 0, z: 0 },
            dodge_action: wallduel::msg::DodgeAction::Neutral,
        },
        MsgKind::BulletSpawn => NetworkMessage::BulletSpawn {
            bullet_id: 1,
            owner: PlayerId::Player1,
            start_pos: v2,
            target_pos: v2,
            velocity: v2,
        },
        MsgKind::HealthUpdate => NetworkMessage::HealthUpdate {
            player_id: PlayerId::Player1,
            health: 1,
        },
        MsgKind::RematchRequest => NetworkMessage::RematchRequest,
        MsgKind::RematchReady => NetworkMessage::RematchReady,
    }
}

#[test]
fn game_over_burst_is_bounded() {
    let mut g = GameOverState::new();
    g.trigger(PlayerId::Player1, PlayerId::Player2);
    // nothing happens during the presentation delay
    assert_eq!(g.tick(1999, true), GameOverAction::Quiet);
    // delay elapses: one immediate send
    let announce = g.tick(1, true);
    assert_eq!(
        announce,
        GameOverAction::Announce {
            winner: PlayerId::Player1,
            loser: PlayerId::Player2,
            send: true
        }
    );
    assert_eq!(g.total_sends, 1);
    // then the burst: one resend per interval, and no more than the limit
    let mut resends = 0;
    for _ in 0..100 {
        match g.tick(100, true) {
            GameOverAction::Resend { winner } => {
                assert_eq!(winner, PlayerId::Player1);
                resends += 1;
            }
            GameOverAction::Quiet => {}
            other => panic!("unexpected action {:?}", other),
        }
    }
    assert_eq!(resends, GAME_OVER_RESEND_LIMIT);
    assert_eq!(g.total_sends, 1 + GAME_OVER_RESEND_LIMIT);
    assert_eq!(g.phase, GameOverPhase::Done);
    // the repeat timer is cleared: further ticks stay quiet
    assert_eq!(g.tick(100, true), GameOverAction::Quiet);
    assert_eq!(g.total_sends, 1 + GAME_OVER_RESEND_LIMIT);
}

#[test]
fn client_game_over_has_no_burst() {
    let mut g = GameOverState::new();
    g.trigger(PlayerId::Player2, PlayerId::Player1);
    let announce = g.tick(2000, false);
    assert_eq!(
        announce,
        GameOverAction::Announce {
            winner: PlayerId::Player2,
            loser: PlayerId::Player1,
            send: false
        }
    );
    assert_eq!(g.phase, GameOverPhase::Done);
    assert_eq!(g.tick(100, false), GameOverAction::Quiet);
}

#[test]
fn shot_classification_by_height() {
    let defender = Vec2i { x: 0, y: -40 };
    // dead center: torso
    assert_eq!(
        resolve_shot(Vec2i { x: 0, y: -40 }, defender, false),
        Some(HitboxType::Torso)
    );
    // above 0.3 of the half-height: head
    assert_eq!(
        resolve_shot(Vec2i { x: 0, y: -40 + 20 }, defender, false),
        Some(HitboxType::Head)
    );
    // below -0.2 of the half-height: legs
    assert_eq!(
        resolve_shot(Vec2i { x: 0, y: -40 - 20 }, defender, false),
        Some(HitboxType::Legs)
    );
    // far away: miss
    assert_eq!(resolve_shot(Vec2i { x: 500, y: 500 }, defender, false), None);
    // crouching shrinks the hitbox: a shot at standing head height misses high
    assert_eq!(
        resolve_shot(Vec2i { x: 0, y: -40 + 45 }, defender, false),
        Some(HitboxType::Head)
    );
    assert_eq!(resolve_shot(Vec2i { x: 0, y: -40 + 45 }, defender, true), None);
}

#[test]
fn shot_damage_values() {
    assert_eq!(damage_of(HitboxType::Head), 100);
    assert_eq!(damage_of(HitboxType::Torso), 40);
    assert_eq!(damage_of(HitboxType::Legs), 30);
}

#[test]
fn rate_timer_fires_on_its_interval() {
    let mut t = RateTimer::new(50);
    assert!(!t.tick(20));
    assert!(!t.tick(20));
    assert!(t.tick(20));
    // a fresh period starts after firing
    assert!(!t.tick(49));
    assert!(t.tick(1));
}

#[test]
fn subnet_scan_skips_network_and_broadcast_addresses() {
    // 172.19.150.35 in a /20: the scan walks .1 through .254 of the
    // network 172.19.144.0
    let base = u32::from_be_bytes([172, 19, 150, 35]);
    let hosts = wallduel::subnet::subnet_hosts(base, 20);
    assert_eq!(hosts.len(), 254);
    let network = u32::from_be_bytes([172, 19, 144, 0]);
    assert_eq!(hosts[0], network | 1);
    assert_eq!(hosts[253], network | 254);
    assert!(!hosts.contains(&network));
    assert!(!hosts.contains(&(network | 255)));
    // any other prefix yields nothing: the caller falls back to broadcast
    assert!(wallduel::subnet::subnet_hosts(base, 24).is_empty());
}

#[test]
fn room_codes_are_four_digits() {
    for raw in [0u32, 1, 8999, 9000, u32::MAX] {
        let code = wallduel::roomid::room_code_from(raw);
        assert!((1000..10000).contains(&code));
    }
    let fresh = wallduel::roomid::fresh_room_code();
    assert!((1000..10000).contains(&fresh));
}
