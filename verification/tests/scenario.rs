//! End-to-end: discovery, join, game start, three torso hits, game over —
//! two sessions talking only through encoded datagrams.

use wallduel::codec::decode;
use wallduel::codec::encode;
use wallduel::msg::NetworkMessage;
use wallduel::msg::Vec2i;
use wallduel::player::PlayerId;
use wallduel::player::PlayerRole;
use wallduel::session::AppState;
use wallduel::session::RoundState;
use wallduel::session::Session;

/// Carry one message across the "network": encode, decode, deliver.
fn deliver(to: &mut Session, m: NetworkMessage) -> Option<NetworkMessage> {
    let bytes = encode(&m);
    let decoded = decode(&bytes).expect("a produced datagram always decodes");
    assert_eq!(decoded, m);
    to.receive_datagram(decoded)
}

#[test]
fn full_session() {
    let room = 4242;
    let mut host = Session::new_host(room);
    let mut client = Session::new_client();

    // --- discovery ------------------------------------------------------
    let ping = client.discovery_tick(500).expect("discovery broadcast due");
    assert_eq!(ping, NetworkMessage::RoomDiscoveryRequest);
    let pong = deliver(&mut host, ping).expect("host answers discovery");
    let join = deliver(&mut client, pong).expect("client joins on first response");
    assert_eq!(join, NetworkMessage::JoinRequest { room_id: room });
    assert!(client.room_found);
    assert_eq!(client.room_id, room);
    // a second response is a duplicate and is ignored
    assert_eq!(deliver(&mut client, pong), None);

    // --- join handshake ---------------------------------------------------
    let accept = deliver(&mut host, join).expect("host accepts the matching room id");
    assert_eq!(
        accept,
        NetworkMessage::JoinAccept {
            player_id: PlayerId::Player2
        }
    );
    host.handle_connection();
    assert!(host.connected);
    assert_eq!(deliver(&mut client, accept), None);
    client.handle_connection();
    assert!(client.connected);
    assert_eq!(client.app_state, AppState::InRoom);

    // a join request for some other room is silently ignored
    let bad_join = NetworkMessage::JoinRequest { room_id: room + 1 };
    assert_eq!(deliver(&mut host, bad_join), None);

    // --- game start -------------------------------------------------------
    let start = host.host_start_game();
    host.start_playing();
    assert_eq!(deliver(&mut client, start), None);
    client.handle_connection();
    assert_eq!(client.app_state, AppState::Playing);
    client.start_playing();

    // the host's player attacks first, and each side views its own role
    assert_eq!(host.round.current_attacker, PlayerId::Player1);
    assert!(host.view_config.is_attacker_view);
    assert!(!client.view_config.is_attacker_view);
    assert_eq!(host.roles.role_of(PlayerId::Player1), PlayerRole::Attacker);
    assert_eq!(host.roles.role_of(PlayerId::Player2), PlayerRole::Defender);

    // --- three torso shots end the game ------------------------------------
    let expected_health = [60u32, 20, 0];
    for (shot, want) in expected_health.iter().enumerate() {
        // aim at the defender's center: offset from (0, 200) to (0, -40)
        host.set_aim(Vec2i { x: 0, y: -240 });
        let report = host.try_fire().expect("all firing conditions hold");
        assert_eq!(
            report.bullet_msg,
            NetworkMessage::BulletSpawn {
                bullet_id: shot as u64,
                owner: PlayerId::Player1,
                start_pos: Vec2i { x: 0, y: 200 },
                target_pos: Vec2i { x: 0, y: -40 },
                velocity: Vec2i { x: 0, y: -240 },
            }
        );
        assert_eq!(host.round.bullets_left, 2 - shot as u32);
        let health_msg = report.health_msg.expect("a torso hit lands");
        assert_eq!(
            health_msg,
            NetworkMessage::HealthUpdate {
                player_id: PlayerId::Player2,
                health: *want,
            }
        );
        assert_eq!(report.lethal, *want == 0);

        // the client mirrors the spawn (deduplicated) and the health
        deliver(&mut client, report.bullet_msg);
        deliver(&mut client, report.bullet_msg);
        client.handle_bullet_events();
        assert_eq!(client.bullets.len(), shot + 1);
        deliver(&mut client, health_msg);
        client.handle_health_events();
        assert_eq!(client.round.p2_health, *want);

        // cooldown elapses before the next shot
        host.advance_time(1000);
    }
    assert_eq!(host.round.bullets_left, 0);
    assert_eq!(host.round.bullets_fired_this_round, 3);
    assert_eq!(host.round.bullets_hit_defender, 3);
    // the client saw the same three (deduplicated) shots
    assert_eq!(client.round.bullets_left, 0);
    assert_eq!(client.round.bullets_fired_this_round, 3);

    // --- game over: delay, forced sync, announcement, burst -----------------
    // nothing goes out during the presentation delay
    assert_eq!(host.game_over_tick(1999), vec![]);
    assert_eq!(host.app_state, AppState::Playing);
    // when the delay elapses, the host forces one last full state sync so
    // the final health is on record, then sends the announcement itself
    let announce_burst = host.game_over_tick(1);
    assert_eq!(announce_burst.len(), 3);
    match announce_burst[0] {
        NetworkMessage::GameState { p2, .. } => assert_eq!(p2.health, 0),
        ref other => panic!("expected the forced snapshot, got {:?}", other),
    }
    match announce_burst[1] {
        NetworkMessage::RoundInfoSync { p2_health, .. } => assert_eq!(p2_health, 0),
        ref other => panic!("expected the forced round info, got {:?}", other),
    }
    let first = announce_burst[2];
    assert_eq!(
        first,
        NetworkMessage::GameOver {
            winner: PlayerId::Player1
        }
    );
    assert_eq!(host.app_state, AppState::GameOver);
    // the burst repeats the same message, a bounded number of times
    let mut resends = vec![];
    for _ in 0..60 {
        for m in host.game_over_tick(100) {
            assert_eq!(m, first);
            resends.push(m);
        }
    }
    assert_eq!(resends.len(), 30);
    assert_eq!(host.game_over.total_sends, 31);

    // the client takes the announcement (and its duplicates), waits out its
    // own delay, then shows the result without sending anything
    deliver(&mut client, first);
    deliver(&mut client, first);
    client.handle_game_over_events();
    assert_eq!(client.game_over_tick(2000), vec![]);
    assert_eq!(client.app_state, AppState::GameOver);

    // --- rematch handshake ---------------------------------------------------
    let request = client.rematch_click().expect("the client asks for a rematch");
    assert_eq!(host.rematch_click(), None);
    deliver(&mut host, request);
    let ready = host.handle_rematch_events().expect("the host answers it is ready");
    assert_eq!(ready, NetworkMessage::RematchReady);
    assert!(host.rematch.client_ready && host.rematch.host_ready);
    assert!(host.rematch_restart());
    deliver(&mut client, ready);
    client.handle_rematch_events();
    assert!(client.rematch_restart());
    assert_eq!(host.app_state, AppState::Playing);
    assert_eq!(client.app_state, AppState::Playing);
    assert_eq!(client.round.p2_health, 100);
}

#[test]
fn role_switch_round_trip() {
    let room = 7;
    let mut host = Session::new_host(room);
    let mut client = Session::new_client();
    host.connected = true;
    client.connected = true;
    client.room_found = true;
    client.room_id = room;
    host.start_playing();
    client.start_playing();

    // the host misses three times; the bullets despawn as they leave the field
    for shot in 0..3u64 {
        host.set_aim(Vec2i { x: 500, y: 500 });
        let report = host.try_fire().expect("firing conditions hold");
        assert!(report.health_msg.is_none());
        deliver(&mut client, report.bullet_msg);
        client.handle_bullet_events();
        host.despawn_bullet(shot);
        client.despawn_bullet(shot);
        host.advance_time(1000);
        client.advance_time(1000);
    }
    assert_eq!(host.round.bullets_left, 0);
    assert_eq!(host.bullets.len(), 0);

    // the trigger fires on the host, and only there
    let switch = host
        .host_round_switch_tick()
        .expect("bullets spent and field clear");
    assert_eq!(
        switch,
        NetworkMessage::SwitchRoles {
            new_attacker: PlayerId::Player2
        }
    );
    assert_eq!(host.round_state, RoundState::Switching);
    host.complete_round_switch();
    assert_eq!(host.round.current_attacker, PlayerId::Player2);
    assert!(!host.view_config.is_attacker_view);
    assert_eq!(host.roles.role_of(PlayerId::Player1), PlayerRole::Defender);
    assert_eq!(host.round.bullets_left, 3);

    // the client mirrors the switch: once, even if the message is repeated
    deliver(&mut client, switch);
    deliver(&mut client, switch);
    client.handle_client_sync();
    assert_eq!(client.round.current_attacker, PlayerId::Player2);
    assert!(client.round.is_switching);
    assert!(client.view_config.is_attacker_view);
    client.client_round_switch_tick();
    assert_eq!(client.round_state, RoundState::Switching);
    client.complete_round_switch();
    assert_eq!(client.roles.role_of(PlayerId::Player2), PlayerRole::Attacker);
    assert!(client.view_config.is_attacker_view);
    assert_eq!(client.round_state, RoundState::Attacking);

    // both sides agree on who attacks, and each views its own side
    assert_eq!(host.round.current_attacker, client.round.current_attacker);
    assert_ne!(
        host.view_config.is_attacker_view,
        client.view_config.is_attacker_view
    );
}

#[test]
fn streams_are_role_gated_and_rate_limited() {
    let mut host = Session::new_host(1);
    let mut client = Session::new_client();
    host.connected = true;
    client.connected = true;
    host.start_playing();
    client.start_playing();

    // the attacker's side sends aim, not defender state
    assert!(host.crosshair_stream_tick(50).is_some());
    assert!(host.defender_stream_tick(16, None, None).is_none());
    // the defender's side sends its state, not aim
    assert!(client.defender_stream_tick(16, None, None).is_some());
    assert!(client.crosshair_stream_tick(50).is_none());
    // rate limiting: a shorter tick does not fire
    assert!(host.crosshair_stream_tick(10).is_none());
    assert!(host.crosshair_stream_tick(40).is_some());

    // only the host streams authoritative state
    host.advance_time(500);
    let (gs, ris) = host.host_state_sync_tick(50).expect("snapshot due");
    assert!(client.host_state_sync_tick(50).is_none());
    match gs {
        NetworkMessage::GameState { p1, p2 } => {
            assert_eq!(p1.role, PlayerRole::Attacker);
            assert_eq!(p2.role, PlayerRole::Defender);
            assert_eq!(p1.health, 100);
        }
        other => panic!("expected a snapshot, got {:?}", other),
    }
    match ris {
        NetworkMessage::RoundInfoSync {
            current_attacker,
            bullets_left,
            round_timer_remaining_ms,
            ..
        } => {
            assert_eq!(current_attacker, PlayerId::Player1);
            assert_eq!(bullets_left, 3);
            assert_eq!(round_timer_remaining_ms, 29500);
        }
        other => panic!("expected round info, got {:?}", other),
    }
    // the round info is authoritative in full, the timer included: the
    // client's drifted clock heals on applying it
    deliver(&mut client, ris);
    client.handle_client_sync();
    assert_eq!(client.round.round_timer_ms, 29500);

    // the defender stream moves the remote defender on the attacker's side
    let (state, _input) = client
        .defender_stream_tick(16, Some(Vec2i { x: 1, y: 0 }), None)
        .expect("defender stream due");
    deliver(&mut host, state);
    host.handle_defender_stream();
    // and the aim stream moves the mirrored crosshair on the defender's side
    host.set_aim(Vec2i { x: 30, y: 40 });
    let aim = host.crosshair_stream_tick(50).expect("aim stream due");
    deliver(&mut client, aim);
    client.handle_crosshair_stream();
    assert_eq!(client.cursor, Vec2i { x: 30, y: 240 });
}
