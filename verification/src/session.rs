//! One peer's whole protocol state and its per-tick systems.
//!
//! A `Session` is everything one side of the connection knows: connection
//! lifecycle, the mirrored or authoritative round state, both players'
//! positions, the live bullets, the queue of undispatched messages, and
//! the timers of the periodic sync channels. The functions here are the
//! handler systems of the simulation loop; the loop itself, and all
//! sockets, live outside. Each tick the loop feeds received datagrams in
//! through `receive_datagram`, runs the handlers, and sends out whatever
//! messages they return.

use vstd::prelude::*;
use crate::bullets::Bullet;
use crate::bullets::BulletBoard;
use crate::bullets::BulletIdCounter;
use crate::consts::ATTACKER_START_X;
use crate::consts::ATTACKER_START_Y;
use crate::consts::COORD_LIMIT;
use crate::consts::CROSSHAIR_SYNC_INTERVAL_MS;
use crate::consts::DEFENDER_START_X;
use crate::consts::DEFENDER_START_Y;
use crate::consts::DEFENDER_SYNC_INTERVAL_MS;
use crate::consts::DISCOVERY_INTERVAL_MS;
use crate::consts::MAX_AIM_OFFSET;
use crate::consts::PLAYER_LAYER_Z;
use crate::consts::SHOT_COOLDOWN_MS;
use crate::consts::STATE_SYNC_INTERVAL_MS;
use crate::gameover::GameOverState;
use crate::msg::DodgeAction;
use crate::msg::NetworkMessage;
use crate::msg::Vec3i;
use crate::player::PeerRole;
use crate::player::PlayerId;
use crate::player::RoleAssignment;
use crate::queue::InboundQueue;
use crate::rate::RateTimer;
use crate::round::RoundInfo;
use crate::view::ViewConfig;
use crate::view::view_for_spec;
use crate::view::view_of_role_spec;

verus! {

/// Where the application is in its lifecycle. Only the states that the
/// protocol distinguishes; menu navigation happens outside.
#[derive(Clone, Copy, Debug, PartialEq, Eq, Structural)]
pub enum AppState {
    MainMenu,
    CreatingRoom,
    JoiningRoom,
    InRoom,
    Playing,
    GameOver,
}

/// The round lifecycle: attacking until the switch trigger fires, then
/// switching, then attacking again.
#[derive(Clone, Copy, Debug, PartialEq, Eq, Structural)]
pub enum RoundState {
    Attacking,
    Switching,
}

/// The rematch handshake flags. The restart fires only when both are set.
#[derive(Clone, Copy, Debug, PartialEq, Eq, Structural)]
pub struct RematchState {
    pub host_ready: bool,
    pub client_ready: bool,
}

/// A coordinate within the world bound.
pub open spec fn coord_ok(x: i32) -> bool {
    -COORD_LIMIT <= x <= COORD_LIMIT
}

pub open spec fn pos_ok(p: Vec3i) -> bool {
    coord_ok(p.x) && coord_ok(p.y) && coord_ok(p.z)
}

/// Clamp one coordinate into the world bound.
pub fn clamp_coord(x: i32) -> (r: i32)
    ensures
        coord_ok(r),
        coord_ok(x) ==> r == x,
        r == clamp_coord_spec(x),
{
    if x < -COORD_LIMIT {
        -COORD_LIMIT
    } else if x > COORD_LIMIT {
        COORD_LIMIT
    } else {
        x
    }
}

pub open spec fn clamp_coord_spec(x: i32) -> i32 {
    if x < -COORD_LIMIT {
        (-COORD_LIMIT) as i32
    } else if x > COORD_LIMIT {
        COORD_LIMIT
    } else {
        x
    }
}

pub open spec fn clamp_pos_spec(p: Vec3i) -> Vec3i {
    Vec3i { x: clamp_coord_spec(p.x), y: clamp_coord_spec(p.y), z: clamp_coord_spec(p.z) }
}

fn clamp_pos(p: Vec3i) -> (r: Vec3i)
    ensures
        r == clamp_pos_spec(p),
        pos_ok(r),
{
    Vec3i { x: clamp_coord(p.x), y: clamp_coord(p.y), z: clamp_coord(p.z) }
}

pub open spec fn attacker_start_spec() -> Vec3i {
    Vec3i { x: ATTACKER_START_X, y: ATTACKER_START_Y, z: PLAYER_LAYER_Z }
}

pub open spec fn defender_start_spec() -> Vec3i {
    Vec3i { x: DEFENDER_START_X, y: DEFENDER_START_Y, z: PLAYER_LAYER_Z }
}

pub open spec fn start_pos_of_spec(role: crate::player::PlayerRole) -> Vec3i {
    if role is Attacker {
        attacker_start_spec()
    } else {
        defender_start_spec()
    }
}

/// The fixed spawn position of each role.
pub fn start_pos_of(role: crate::player::PlayerRole) -> (r: Vec3i)
    ensures
        r == (if role is Attacker {
            attacker_start_spec()
        } else {
            defender_start_spec()
        }),
{
    match role {
        crate::player::PlayerRole::Attacker => Vec3i {
            x: ATTACKER_START_X,
            y: ATTACKER_START_Y,
            z: PLAYER_LAYER_Z,
        },
        crate::player::PlayerRole::Defender => Vec3i {
            x: DEFENDER_START_X,
            y: DEFENDER_START_Y,
            z: PLAYER_LAYER_Z,
        },
    }
}

/// One peer's complete protocol state.
pub struct Session {
    /// Host or client; fixed for the connection.
    pub peer: PeerRole,
    pub app_state: AppState,
    pub round_state: RoundState,
    /// Whether the join handshake has completed.
    pub connected: bool,
    /// The room identifier: chosen by the host, learned by the client.
    pub room_id: u32,
    /// Client only: latched on the first discovery response, after which
    /// further responses are ignored.
    pub room_found: bool,
    /// Whether a datagram has been received, so the peer address is known.
    pub peer_known: bool,
    pub round: RoundInfo,
    pub roles: RoleAssignment,
    pub view_config: ViewConfig,
    pub queue: InboundQueue,
    pub bullets: BulletBoard,
    pub bullet_ids: BulletIdCounter,
    pub game_over: GameOverState,
    pub rematch: RematchState,
    pub p1_pos: Vec3i,
    pub p2_pos: Vec3i,
    /// The attacker's aim point: locally steered on the attacking side,
    /// mirrored from `CrosshairPosition` on the defending side.
    pub cursor: crate::msg::Vec2i,
    /// The local player's dodge pose.
    pub local_dodge: DodgeAction,
    /// The remote defender's last reported dodge pose.
    pub remote_dodge: DodgeAction,
    pub shot_cooldown_ms: u32,
    pub state_sync: RateTimer,
    pub defender_sync: RateTimer,
    pub crosshair_sync: RateTimer,
    pub discovery: RateTimer,
}

impl Session {
    pub open spec fn local_id(self) -> PlayerId {
        self.peer.local_player_spec()
    }

    pub open spec fn is_host(self) -> bool {
        self.peer is Host
    }

    /// The session invariant: every component is in its own well-formed
    /// range and the sync timers carry their fixed intervals.
    pub open spec fn wf(self) -> bool {
        &&& self.round.wf()
        &&& self.roles.wf()
        &&& self.bullets.wf()
        &&& self.game_over.wf()
        &&& self.state_sync.wf() && self.state_sync.interval_ms == STATE_SYNC_INTERVAL_MS
        &&& self.defender_sync.wf() && self.defender_sync.interval_ms
            == DEFENDER_SYNC_INTERVAL_MS
        &&& self.crosshair_sync.wf() && self.crosshair_sync.interval_ms
            == CROSSHAIR_SYNC_INTERVAL_MS
        &&& self.discovery.wf() && self.discovery.interval_ms == DISCOVERY_INTERVAL_MS
        &&& pos_ok(self.p1_pos)
        &&& pos_ok(self.p2_pos)
        &&& coord_ok(self.cursor.x) && coord_ok(self.cursor.y)
    }

    /// A host that has just opened a room under `room_id`.
    pub fn new_host(room_id: u32) -> (s: Session)
        ensures
            s.wf(),
            s.peer is Host,
            s.app_state is CreatingRoom,
            s.room_id == room_id,
            !s.connected,
            !s.room_found,
            !s.peer_known,
            s.queue@ == Seq::<NetworkMessage>::empty(),
            s.bullets@ == Seq::<Bullet>::empty(),
            s.bullet_ids.next == 0,
            s.round_state is Attacking,
            s.round == RoundInfo::new_spec(PlayerId::Player1),
            s.roles == RoleAssignment::from_attacker_spec(PlayerId::Player1),
            s.view_config == view_for_spec(PlayerId::Player1, PlayerId::Player1),
            s.p1_pos == attacker_start_spec(),
            s.p2_pos == defender_start_spec(),
            s.game_over == GameOverState::new_spec(),
            !s.rematch.host_ready && !s.rematch.client_ready,
    {
        Session::fresh(PeerRole::Host, AppState::CreatingRoom, room_id)
    }

    /// A client that is about to search for a room.
    pub fn new_client() -> (s: Session)
        ensures
            s.wf(),
            s.peer is Client,
            s.app_state is JoiningRoom,
            !s.connected,
            !s.room_found,
            !s.peer_known,
            s.queue@ == Seq::<NetworkMessage>::empty(),
            s.bullets@ == Seq::<Bullet>::empty(),
            s.bullet_ids.next == 0,
            s.round_state is Attacking,
            s.round == RoundInfo::new_spec(PlayerId::Player1),
            s.roles == RoleAssignment::from_attacker_spec(PlayerId::Player1),
            s.view_config == view_for_spec(PlayerId::Player2, PlayerId::Player1),
            s.p1_pos == attacker_start_spec(),
            s.p2_pos == defender_start_spec(),
            s.game_over == GameOverState::new_spec(),
            !s.rematch.host_ready && !s.rematch.client_ready,
    {
        Session::fresh(PeerRole::Client, AppState::JoiningRoom, 0)
    }

    fn fresh(peer: PeerRole, app_state: AppState, room_id: u32) -> (s: Session)
        ensures
            s.wf(),
            s.peer == peer,
            s.app_state == app_state,
            s.room_id == room_id,
            !s.connected,
            !s.room_found,
            !s.peer_known,
            s.queue@ == Seq::<NetworkMessage>::empty(),
            s.bullets@ == Seq::<Bullet>::empty(),
            s.bullet_ids.next == 0,
            s.round_state is Attacking,
            s.round == RoundInfo::new_spec(PlayerId::Player1),
            s.roles == RoleAssignment::from_attacker_spec(PlayerId::Player1),
            s.view_config == view_for_spec(peer.local_player_spec(), PlayerId::Player1),
            s.p1_pos == attacker_start_spec(),
            s.p2_pos == defender_start_spec(),
            s.game_over == GameOverState::new_spec(),
            !s.rematch.host_ready && !s.rematch.client_ready,
    {
        let local = peer.local_player();
        Session {
            peer,
            app_state,
            round_state: RoundState::Attacking,
            connected: false,
            room_id,
            room_found: false,
            peer_known: false,
            round: RoundInfo::new(PlayerId::Player1),
            roles: RoleAssignment::from_attacker(PlayerId::Player1),
            view_config: crate::view::view_for(local, PlayerId::Player1),
            queue: InboundQueue::new(),
            bullets: BulletBoard::new(),
            bullet_ids: BulletIdCounter::new(),
            game_over: GameOverState::new(),
            rematch: RematchState { host_ready: false, client_ready: false },
            p1_pos: start_pos_of(crate::player::PlayerRole::Attacker),
            p2_pos: start_pos_of(crate::player::PlayerRole::Defender),
            cursor: crate::msg::Vec2i { x: ATTACKER_START_X, y: ATTACKER_START_Y },
            local_dodge: DodgeAction::Neutral,
            remote_dodge: DodgeAction::Neutral,
            shot_cooldown_ms: 0,
            state_sync: RateTimer::new(STATE_SYNC_INTERVAL_MS),
            defender_sync: RateTimer::new(DEFENDER_SYNC_INTERVAL_MS),
            crosshair_sync: RateTimer::new(CROSSHAIR_SYNC_INTERVAL_MS),
            discovery: RateTimer::new(DISCOVERY_INTERVAL_MS),
        }
    }
}

// --- receiving ---------------------------------------------------------------

/// The non-queue effect of one received datagram, before dispatch.
pub open spec fn receive_step(s: Session, m: NetworkMessage) -> Session {
    if s.peer is Host {
        Session { peer_known: true, ..s }
    } else {
        match m {
            NetworkMessage::RoomDiscoveryResponse { room_id, .. } => {
                if !s.room_found {
                    Session { peer_known: true, room_found: true, room_id, ..s }
                } else {
                    Session { peer_known: true, ..s }
                }
            },
            _ => Session { peer_known: true, ..s },
        }
    }
}

/// What one received datagram appends to the inbound queue.
pub open spec fn receive_queued(s: Session, m: NetworkMessage) -> Seq<NetworkMessage> {
    if s.peer is Host {
        match m {
            NetworkMessage::RoomDiscoveryRequest => Seq::empty(),
            NetworkMessage::JoinRequest { room_id } => {
                if room_id == s.room_id {
                    seq![NetworkMessage::JoinAccept { player_id: PlayerId::Player2 }]
                } else {
                    Seq::empty()
                }
            },
            _ => seq![m],
        }
    } else {
        match m {
            NetworkMessage::RoomDiscoveryResponse { .. } => {
                if !s.room_found {
                    seq![m]
                } else {
                    Seq::empty()
                }
            },
            _ => seq![m],
        }
    }
}

/// The immediate reply the receive step sends back to the datagram's
/// sender, outside the queue.
pub open spec fn receive_reply(s: Session, m: NetworkMessage) -> Option<NetworkMessage> {
    if s.peer is Host {
        match m {
            NetworkMessage::RoomDiscoveryRequest => Some(
                NetworkMessage::RoomDiscoveryResponse {
                    room_id: s.room_id,
                    player_name: PeerRole::Host,
                },
            ),
            NetworkMessage::JoinRequest { room_id } => {
                if room_id == s.room_id {
                    Some(NetworkMessage::JoinAccept { player_id: PlayerId::Player2 })
                } else {
                    None
                }
            },
            _ => None,
        }
    } else {
        match m {
            NetworkMessage::RoomDiscoveryResponse { room_id, .. } => {
                if !s.room_found {
                    Some(NetworkMessage::JoinRequest { room_id })
                } else {
                    None
                }
            },
            _ => None,
        }
    }
}

impl Session {
    /// Take in one decoded datagram, as the receive loop does.
    ///
    /// The host answers discovery requests with its room identifier and
    /// validates join requests against it, silently ignoring mismatches.
    /// The client latches the first discovery response as its peer and
    /// immediately asks to join. Everything else goes onto the queue for
    /// the handler systems.
    pub fn receive_datagram(&mut self, m: NetworkMessage) -> (reply: Option<NetworkMessage>)
        requires
            old(self).wf(),
        ensures
            final(self).wf(),
            *final(self) == (Session { queue: final(self).queue, ..receive_step(*old(self), m) }),
            final(self).queue@ == old(self).queue@ + receive_queued(*old(self), m),
            reply == receive_reply(*old(self), m),
    {
        let ghost pre = *self;
        self.peer_known = true;
        let reply = match self.peer {
            PeerRole::Host => match m {
                NetworkMessage::RoomDiscoveryRequest => Some(
                    NetworkMessage::RoomDiscoveryResponse {
                        room_id: self.room_id,
                        player_name: PeerRole::Host,
                    },
                ),
                NetworkMessage::JoinRequest { room_id } => {
                    if room_id == self.room_id {
                        let accept = NetworkMessage::JoinAccept { player_id: PlayerId::Player2 };
                        self.queue.push(accept);
                        Some(accept)
                    } else {
                        None
                    }
                },
                _ => {
                    self.queue.push(m);
                    None
                },
            },
            PeerRole::Client => match m {
                NetworkMessage::RoomDiscoveryResponse { room_id, .. } => {
                    if !self.room_found {
                        self.room_found = true;
                        self.room_id = room_id;
                        self.queue.push(m);
                        Some(NetworkMessage::JoinRequest { room_id })
                    } else {
                        None
                    }
                },
                _ => {
                    self.queue.push(m);
                    None
                },
            },
        };
        proof {
            assert(final(self).queue@ =~= pre.queue@ + receive_queued(pre, m));
        }
        reply
    }

    /// The host starts the game from the room screen: it tells the client
    /// and enters the playing state itself.
    pub fn host_start_game(&mut self) -> (start: NetworkMessage)
        requires
            old(self).wf(),
            old(self).peer is Host,
        ensures
            final(self).wf(),
            *final(self) == (Session { app_state: AppState::Playing, ..*old(self) }),
            start == NetworkMessage::StartGame,
    {
        self.app_state = AppState::Playing;
        NetworkMessage::StartGame
    }

    /// Set up a fresh game on entering the playing state, on either peer:
    /// the host's player attacks first, both players stand on their start
    /// positions at full health, and the view binds to the local role.
    pub fn start_playing(&mut self)
        requires
            old(self).wf(),
        ensures
            final(self).wf(),
            final(self).app_state is Playing,
            final(self).round_state is Attacking,
            final(self).round == RoundInfo::new_spec(PlayerId::Player1),
            final(self).roles == RoleAssignment::from_attacker_spec(PlayerId::Player1),
            final(self).roles.wf(),
            final(self).view_config == view_for_spec(old(self).local_id(), PlayerId::Player1),
            final(self).view_config.is_attacker_view == (final(self).roles.role_of_spec(
                final(self).local_id(),
            ) is Attacker),
            final(self).p1_pos == attacker_start_spec(),
            final(self).p2_pos == defender_start_spec(),
            final(self).bullets@ == Seq::<Bullet>::empty(),
            final(self).bullet_ids.next == 0,
            final(self).game_over == GameOverState::new_spec(),
            !final(self).rematch.host_ready && !final(self).rematch.client_ready,
            final(self).peer == old(self).peer,
            final(self).connected == old(self).connected,
            final(self).room_id == old(self).room_id,
            final(self).queue@ == old(self).queue@,
    {
        let local = self.peer.local_player();
        self.app_state = AppState::Playing;
        self.round_state = RoundState::Attacking;
        self.round = RoundInfo::new(PlayerId::Player1);
        self.roles = RoleAssignment::from_attacker(PlayerId::Player1);
        self.view_config = crate::view::view_for(local, PlayerId::Player1);
        self.p1_pos = start_pos_of(crate::player::PlayerRole::Attacker);
        self.p2_pos = start_pos_of(crate::player::PlayerRole::Defender);
        self.bullets.clear();
        self.bullet_ids = BulletIdCounter::new();
        self.game_over = GameOverState::new();
        self.rematch = RematchState { host_ready: false, client_ready: false };
        self.cursor = crate::msg::Vec2i { x: ATTACKER_START_X, y: ATTACKER_START_Y };
        self.local_dodge = DodgeAction::Neutral;
        self.remote_dodge = DodgeAction::Neutral;
        self.shot_cooldown_ms = 0;
    }

    /// The reconciliation check: re-derive the view from the local
    /// player's current role. Derivation, not toggling, makes this safe
    /// to run every tick and after any duplicated message.
    pub fn reconcile_view(&mut self)
        requires
            old(self).wf(),
        ensures
            final(self).wf(),
            *final(self) == (Session {
                view_config: view_of_role_spec(
                    old(self).roles.role_of_spec(old(self).local_id()),
                ),
                ..*old(self)
            }),
            final(self).view_config.is_attacker_view == (final(self).roles.role_of_spec(
                final(self).local_id(),
            ) is Attacker),
    {
        let local = self.peer.local_player();
        let role = self.roles.role_of(local);
        self.view_config = crate::view::view_of_role(role);
    }

    // --- the round/role state machine -----------------------------------

    /// Whether the host's switch trigger fires this tick.
    pub open spec fn host_switch_gate(self) -> bool {
        &&& self.peer is Host
        &&& self.connected
        &&& self.app_state is Playing
        &&& self.round_state is Attacking
        &&& !self.round.is_switching
        &&& self.round.switch_due_spec(self.bullets@.len())
    }

    /// The host's side of the round transition. When every bullet has
    /// cleared and the round is over, the host — and only the host —
    /// decides the new attacker, tells the client, and enters the
    /// switching state. The switching flag gates re-entry.
    pub fn host_round_switch_tick(&mut self) -> (out: Option<NetworkMessage>)
        requires
            old(self).wf(),
        ensures
            final(self).wf(),
            out is Some <==> old(self).host_switch_gate(),
            !old(self).host_switch_gate() ==> *final(self) == *old(self),
            old(self).host_switch_gate() ==> {
                &&& *final(self) == (Session {
                    round: RoundInfo {
                        current_attacker: old(self).round.current_attacker.other_spec(),
                        is_switching: true,
                        ..old(self).round
                    },
                    round_state: RoundState::Switching,
                    ..*old(self)
                })
                &&& out == Some(
                    NetworkMessage::SwitchRoles {
                        new_attacker: old(self).round.current_attacker.other_spec(),
                    },
                )
            },
    {
        let is_gated = match (self.peer, self.app_state, self.round_state) {
            (PeerRole::Host, AppState::Playing, RoundState::Attacking) => !self.round.is_switching
                && self.connected && self.round.switch_due(self.bullets.len()),
            _ => false,
        };
        if is_gated {
            let new_attacker = self.round.current_attacker.other();
            self.round.current_attacker = new_attacker;
            self.round.is_switching = true;
            self.round_state = RoundState::Switching;
            Some(NetworkMessage::SwitchRoles { new_attacker })
        } else {
            None
        }
    }

    /// Whether the client's deferred switch fires this tick.
    pub open spec fn client_switch_gate(self) -> bool {
        &&& self.peer is Client
        &&& self.round_state is Attacking
        &&& self.round.is_switching
        &&& self.bullets@.len() == 0
    }

    /// The client's side of the round transition. The client never
    /// decides the attacker: it waits until it has both received
    /// `SwitchRoles` (which set the switching flag) and watched its own
    /// last bullet despawn, and only then enters the switching state —
    /// switching with a bullet mid-flight would desync the two views.
    pub fn client_round_switch_tick(&mut self)
        requires
            old(self).wf(),
        ensures
            final(self).wf(),
            old(self).client_switch_gate() ==> *final(self) == (Session {
                round_state: RoundState::Switching,
                ..*old(self)
            }),
            !old(self).client_switch_gate() ==> *final(self) == *old(self),
    {
        let is_gated = match (self.peer, self.round_state) {
            (PeerRole::Client, RoundState::Attacking) => self.round.is_switching
                && self.bullets.len() == 0,
            _ => false,
        };
        if is_gated {
            self.round_state = RoundState::Switching;
        }
    }

    /// Complete the switch, on either peer: purge the bullets, flip both
    /// roles to match the recorded attacker, reset positions, bullets and
    /// timer, rebind the view to the local role, and return to attacking.
    pub fn complete_round_switch(&mut self)
        requires
            old(self).wf(),
        ensures
            final(self).wf(),
            final(self).roles == RoleAssignment::from_attacker_spec(
                old(self).round.current_attacker,
            ),
            final(self).roles.wf(),
            final(self).round == old(self).round.reset_for_new_round_spec(
                old(self).round.current_attacker,
            ),
            final(self).view_config == view_for_spec(
                old(self).local_id(),
                old(self).round.current_attacker,
            ),
            final(self).view_config.is_attacker_view == (final(self).roles.role_of_spec(
                final(self).local_id(),
            ) is Attacker),
            final(self).p1_pos == (if old(self).round.current_attacker is Player1 {
                attacker_start_spec()
            } else {
                defender_start_spec()
            }),
            final(self).p2_pos == (if old(self).round.current_attacker is Player2 {
                attacker_start_spec()
            } else {
                defender_start_spec()
            }),
            final(self).bullets@ == Seq::<Bullet>::empty(),
            final(self).round_state is Attacking,
            final(self).local_dodge is Neutral && final(self).remote_dodge is Neutral,
            final(self).peer == old(self).peer,
            final(self).connected == old(self).connected,
            final(self).app_state == old(self).app_state,
            final(self).queue@ == old(self).queue@,
            final(self).game_over == old(self).game_over,
            final(self).rematch == old(self).rematch,
    {
        let attacker = self.round.current_attacker;
        let local = self.peer.local_player();
        self.bullets.clear();
        self.roles = RoleAssignment::from_attacker(attacker);
        self.p1_pos = start_pos_of(self.roles.role_of(PlayerId::Player1));
        self.p2_pos = start_pos_of(self.roles.role_of(PlayerId::Player2));
        self.round.reset_for_new_round(attacker);
        self.view_config = crate::view::view_for(local, attacker);
        self.round_state = RoundState::Attacking;
        self.local_dodge = DodgeAction::Neutral;
        self.remote_dodge = DodgeAction::Neutral;
    }
}

// --- the connection handler ----------------------------------------------------

/// Effect of one connection-lifecycle message.
pub open spec fn conn_step(s: Session, m: NetworkMessage) -> Session {
    match m {
        NetworkMessage::RoomDiscoveryResponse { room_id, .. } => Session { room_id, ..s },
        NetworkMessage::JoinAccept { .. } => {
            if s.peer is Client {
                Session { connected: true, app_state: AppState::InRoom, ..s }
            } else {
                Session { connected: true, ..s }
            }
        },
        NetworkMessage::StartGame => {
            if s.peer is Client {
                Session { connected: true, app_state: AppState::Playing, ..s }
            } else {
                s
            }
        },
        _ => s,
    }
}

/// The connection-lifecycle messages applied in arrival order.
pub open spec fn conn_fold(s: Session, msgs: Seq<NetworkMessage>) -> Session
    decreases msgs.len(),
{
    if msgs.len() == 0 {
        s
    } else {
        conn_step(conn_fold(s, msgs.drop_last()), msgs.last())
    }
}

// --- the client's authoritative-sync handler -------------------------------------

/// Effect of one authoritative `GameState` snapshot on the client.
///
/// Positions are applied except for the client's own defender entity,
/// which the local movement systems own. Roles are applied only when the
/// snapshot names exactly one attacker; a role change moves the player to
/// its role's start position and, for the local player, rebinds the view
/// (derived from the role, never toggled). Healths are authoritative.
#[verifier::opaque]
pub open spec fn apply_game_state_spec(
    s: Session,
    p1: crate::msg::PlayerSnapshot,
    p2: crate::msg::PlayerSnapshot,
) -> Session {
    let local = s.local_id();
    let p1_pos1 = if local is Player1 && s.roles.p1 is Defender {
        s.p1_pos
    } else {
        clamp_pos_spec(p1.pos)
    };
    let p2_pos1 = if local is Player2 && s.roles.p2 is Defender {
        s.p2_pos
    } else {
        clamp_pos_spec(p2.pos)
    };
    let msg_roles = RoleAssignment { p1: p1.role, p2: p2.role };
    let roles_ok = msg_roles.wf();
    let p1_changed = roles_ok && p1.role != s.roles.p1;
    let p2_changed = roles_ok && p2.role != s.roles.p2;
    let p1_pos2 = if p1_changed {
        start_pos_of_spec(p1.role)
    } else {
        p1_pos1
    };
    let p2_pos2 = if p2_changed {
        start_pos_of_spec(p2.role)
    } else {
        p2_pos1
    };
    let roles2 = if roles_ok {
        msg_roles
    } else {
        s.roles
    };
    let local_changed = if local is Player1 {
        p1_changed
    } else {
        p2_changed
    };
    let view2 = if local_changed {
        view_of_role_spec(roles2.role_of_spec(local))
    } else {
        s.view_config
    };
    let round2 = s.round.apply_health_update_spec(PlayerId::Player1, p1.health)
        .apply_health_update_spec(PlayerId::Player2, p2.health);
    Session {
        p1_pos: p1_pos2,
        p2_pos: p2_pos2,
        roles: roles2,
        view_config: view2,
        round: round2,
        ..s
    }
}

/// Effect of one authoritative message on the client's mirror.
pub open spec fn client_sync_step(s: Session, m: NetworkMessage) -> Session {
    match m {
        NetworkMessage::GameState { p1, p2 } => apply_game_state_spec(s, p1, p2),
        NetworkMessage::RoundInfoSync {
            current_attacker,
            bullets_left,
            round_timer_remaining_ms,
            p1_health,
            p2_health,
            bullets_fired,
            bullets_hit,
        } => Session {
            round: s.round.apply_round_sync_spec(
                current_attacker,
                bullets_left,
                round_timer_remaining_ms,
                p1_health,
                p2_health,
                bullets_fired,
                bullets_hit,
            ),
            ..s
        },
        NetworkMessage::SwitchRoles { new_attacker } => {
            if s.round.current_attacker != new_attacker {
                Session {
                    round: s.round.apply_switch_roles_spec(new_attacker),
                    view_config: view_for_spec(s.local_id(), new_attacker),
                    ..s
                }
            } else {
                s
            }
        },
        _ => s,
    }
}

/// The client's authoritative messages applied in arrival order.
pub open spec fn client_sync_fold(s: Session, msgs: Seq<NetworkMessage>) -> Session
    decreases msgs.len(),
{
    if msgs.len() == 0 {
        s
    } else {
        client_sync_step(client_sync_fold(s, msgs.drop_last()), msgs.last())
    }
}

/// Idempotence of `SwitchRoles`: applying the same role-switch command
/// twice in a row leaves the recorded attacker at the commanded player
/// and does not flip the view a second time — the duplicate changes
/// nothing at all.
pub proof fn lemma_switch_roles_message_idempotent(s: Session, x: PlayerId)
    ensures
        client_sync_step(
            client_sync_step(s, NetworkMessage::SwitchRoles { new_attacker: x }),
            NetworkMessage::SwitchRoles { new_attacker: x },
        ) == client_sync_step(s, NetworkMessage::SwitchRoles { new_attacker: x }),
        client_sync_step(s, NetworkMessage::SwitchRoles { new_attacker: x }).round.current_attacker
            == x,
        s.round.current_attacker != x ==> client_sync_step(
            s,
            NetworkMessage::SwitchRoles { new_attacker: x },
        ).view_config.is_attacker_view == (s.local_id() == x),
{
}

/// Deduplication of `BulletSpawn`: applying the same spawn event twice is
/// the same as applying it once — the duplicate neither spawns a second
/// bullet nor spends a second round bullet.
pub proof fn lemma_bullet_spawn_idempotent(
    bs: Seq<Bullet>,
    r: RoundInfo,
    m: NetworkMessage,
)
    requires
        m is BulletSpawn,
    ensures
        bullet_step(bullet_step(bs, r, m).0, bullet_step(bs, r, m).1, m) == bullet_step(bs, r, m),
{
    match m {
        NetworkMessage::BulletSpawn { bullet_id, .. } => {
            if !seq_has_id(bs, bullet_id) {
                let grown = bullet_step(bs, r, m).0;
                assert(grown[grown.len() - 1].id == bullet_id);
            }
        },
        _ => {},
    }
}

/// A sync step never reads or writes the queue: replacing the queue
/// commutes with the step.
#[verifier::rlimit(100)]
proof fn lemma_sync_step_queue_swap(s: Session, q: InboundQueue, m: NetworkMessage)
    ensures
        client_sync_step(Session { queue: q, ..s }, m) == (Session {
            queue: q,
            ..client_sync_step(s, m)
        }),
{
    match m {
        NetworkMessage::GameState { p1, p2 } => {
            reveal(apply_game_state_spec);
            assert(apply_game_state_spec(Session { queue: q, ..s }, p1, p2) == (Session {
                queue: q,
                ..apply_game_state_spec(s, p1, p2)
            }));
        },
        _ => {},
    }
}

impl Session {
    /// The connection-lifecycle handler: one drain of the queue for room
    /// discovery responses, the join acknowledgement and the game start.
    /// It also retires the message kinds no later handler reads. Every
    /// other message goes back for the handlers after it.
    #[verifier::rlimit(100)]
    pub fn handle_connection(&mut self)
        requires
            old(self).wf(),
        ensures
            final(self).wf(),
            final(self).queue@ == old(self).queue@.filter(
                crate::queue::kept_from(crate::queue::Handler::Connection),
            ),
            *final(self) == (Session {
                queue: final(self).queue,
                ..conn_fold(
                    *old(self),
                    old(self).queue@.filter(crate::queue::owned_by(crate::queue::Handler::Connection)),
                )
            }),
    {
        let ghost s0 = *old(self);
        let owned = self.queue.take_owned(crate::queue::Handler::Connection);
        let ghost owned_seq = owned@;
        let n = owned.len();
        let mut i: usize = 0;
        proof {
            assert(owned_seq.subrange(0, 0) =~= Seq::<NetworkMessage>::empty());
        }
        while i < n
            invariant
                self.wf(),
                i <= n,
                n == owned_seq.len(),
                owned@ == owned_seq,
                *self == (Session {
                    queue: self.queue,
                    ..conn_fold(s0, owned_seq.subrange(0, i as int))
                }),
                self.queue@ == s0.queue@.filter(
                    crate::queue::kept_from(crate::queue::Handler::Connection),
                ),
            decreases n - i,
        {
            let m = owned[i];
            proof {
                assert(owned_seq.subrange(0, i + 1).drop_last() =~= owned_seq.subrange(
                    0,
                    i as int,
                ));
                assert(owned_seq.subrange(0, i + 1).last() == m);
            }
            match m {
                NetworkMessage::RoomDiscoveryResponse { room_id, .. } => {
                    self.room_id = room_id;
                },
                NetworkMessage::JoinAccept { .. } => {
                    self.connected = true;
                    if let PeerRole::Client = self.peer {
                        self.app_state = AppState::InRoom;
                    }
                },
                NetworkMessage::StartGame => {
                    if let PeerRole::Client = self.peer {
                        self.connected = true;
                        self.app_state = AppState::Playing;
                    }
                },
                _ => {},
            }
            i = i + 1;
        }
        proof {
            assert(owned_seq.subrange(0, n as int) =~= owned_seq);
        }
    }

    fn apply_game_state(&mut self, p1: crate::msg::PlayerSnapshot, p2: crate::msg::PlayerSnapshot)
        requires
            old(self).wf(),
        ensures
            final(self).wf(),
            *final(self) == apply_game_state_spec(*old(self), p1, p2),
    {
        proof {
            reveal(apply_game_state_spec);
        }
        let local = self.peer.local_player();
        // positions: the local defender's own entity is driven locally
        let skip_p1 = local == PlayerId::Player1 && matches!(
            self.roles.p1,
            crate::player::PlayerRole::Defender,
        );
        let skip_p2 = local == PlayerId::Player2 && matches!(
            self.roles.p2,
            crate::player::PlayerRole::Defender,
        );
        if !skip_p1 {
            self.p1_pos = clamp_pos(p1.pos);
        }
        if !skip_p2 {
            self.p2_pos = clamp_pos(p2.pos);
        }
        // roles: only a snapshot naming exactly one attacker is applied
        let msg_roles = RoleAssignment { p1: p1.role, p2: p2.role };
        let roles_ok = match (p1.role, p2.role) {
            (crate::player::PlayerRole::Attacker, crate::player::PlayerRole::Defender) => true,
            (crate::player::PlayerRole::Defender, crate::player::PlayerRole::Attacker) => true,
            _ => false,
        };
        if roles_ok {
            let p1_changed = p1.role != self.roles.p1;
            let p2_changed = p2.role != self.roles.p2;
            if p1_changed {
                self.p1_pos = start_pos_of(p1.role);
            }
            if p2_changed {
                self.p2_pos = start_pos_of(p2.role);
            }
            self.roles = msg_roles;
            let local_changed = if local == PlayerId::Player1 {
                p1_changed
            } else {
                p2_changed
            };
            if local_changed {
                let role = self.roles.role_of(local);
                self.view_config = crate::view::view_of_role(role);
            }
        }
        // healths are authoritative
        self.round.apply_health_update(PlayerId::Player1, p1.health);
        self.round.apply_health_update(PlayerId::Player2, p2.health);
    }

    /// The client's mirror of the host's authority: one drain of the
    /// queue for `GameState`, `RoundInfoSync` and `SwitchRoles`. The host
    /// never mirrors: on the host the drain changes nothing and leaves
    /// the queue alone.
    #[verifier::rlimit(60)]
    pub fn handle_client_sync(&mut self)
        requires
            old(self).wf(),
        ensures
            final(self).wf(),
            old(self).peer is Host ==> *final(self) == *old(self),
            old(self).peer is Client ==> {
                &&& final(self).queue@ == old(self).queue@.filter(
                    crate::queue::kept_from(crate::queue::Handler::ClientSync),
                )
                &&& *final(self) == (Session {
                    queue: final(self).queue,
                    ..client_sync_fold(
                        *old(self),
                        old(self).queue@.filter(
                            crate::queue::owned_by(crate::queue::Handler::ClientSync),
                        ),
                    )
                })
            },
    {
        if let PeerRole::Host = self.peer {
            return ;
        }
        let ghost s0 = *old(self);
        let owned = self.queue.take_owned(crate::queue::Handler::ClientSync);
        let ghost q1 = self.queue;
        let ghost owned_seq = owned@;
        let n = owned.len();
        let mut i: usize = 0;
        proof {
            assert(owned_seq.subrange(0, 0) =~= Seq::<NetworkMessage>::empty());
        }
        while i < n
            invariant
                self.wf(),
                i <= n,
                n == owned_seq.len(),
                owned@ == owned_seq,
                self.queue == q1,
                q1@ == s0.queue@.filter(crate::queue::kept_from(crate::queue::Handler::ClientSync)),
                *self == (Session {
                    queue: q1,
                    ..client_sync_fold(s0, owned_seq.subrange(0, i as int))
                }),
            decreases n - i,
        {
            let m = owned[i];
            let ghost fold_i = client_sync_fold(s0, owned_seq.subrange(0, i as int));
            proof {
                assert(owned_seq.subrange(0, i + 1).drop_last() =~= owned_seq.subrange(
                    0,
                    i as int,
                ));
                assert(owned_seq.subrange(0, i + 1).last() == m);
                lemma_sync_step_queue_swap(fold_i, q1, m);
            }
            match m {
                NetworkMessage::GameState { p1, p2 } => {
                    self.apply_game_state(p1, p2);
                },
                NetworkMessage::RoundInfoSync {
                    current_attacker,
                    bullets_left,
                    round_timer_remaining_ms,
                    p1_health,
                    p2_health,
                    bullets_fired,
                    bullets_hit,
                } => {
                    self.round.apply_round_sync(
                        current_attacker,
                        bullets_left,
                        round_timer_remaining_ms,
                        p1_health,
                        p2_health,
                        bullets_fired,
                        bullets_hit,
                    );
                },
                NetworkMessage::SwitchRoles { new_attacker } => {
                    let changed = self.round.apply_switch_roles(new_attacker);
                    if changed {
                        let local = self.peer.local_player();
                        self.view_config = crate::view::view_for(local, new_attacker);
                    }
                },
                _ => {},
            }
            i = i + 1;
        }
        proof {
            assert(owned_seq.subrange(0, n as int) =~= owned_seq);
        }
    }
}

// --- the event-message handlers ---------------------------------------------

/// Whether a bullet with this id is in the sequence.
pub open spec fn seq_has_id(bs: Seq<Bullet>, id: u64) -> bool {
    exists|i: int| 0 <= i < bs.len() && bs[i].id == id
}

/// Effect of one `BulletSpawn` on the live bullets and the round: a new id
/// spawns a bullet and, when it is the recorded attacker's shot, mirrors
/// the spent bullet; a known id is a duplicate datagram and does nothing.
pub open spec fn bullet_step(bs: Seq<Bullet>, r: RoundInfo, m: NetworkMessage) -> (
    Seq<Bullet>,
    RoundInfo,
) {
    match m {
        NetworkMessage::BulletSpawn { bullet_id, owner, start_pos, target_pos, velocity } => {
            if seq_has_id(bs, bullet_id) {
                (bs, r)
            } else {
                let b = Bullet { id: bullet_id, owner, start_pos, target_pos, velocity };
                let r2 = if r.current_attacker == owner {
                    r.apply_remote_shot_spec()
                } else {
                    r
                };
                (bs.push(b), r2)
            }
        },
        _ => (bs, r),
    }
}

pub open spec fn bullet_fold(bs: Seq<Bullet>, r: RoundInfo, msgs: Seq<NetworkMessage>) -> (
    Seq<Bullet>,
    RoundInfo,
)
    decreases msgs.len(),
{
    if msgs.len() == 0 {
        (bs, r)
    } else {
        let prev = bullet_fold(bs, r, msgs.drop_last());
        bullet_step(prev.0, prev.1, msgs.last())
    }
}

/// Effect of one `HealthUpdate`: last write wins.
pub open spec fn health_step(r: RoundInfo, m: NetworkMessage) -> RoundInfo {
    match m {
        NetworkMessage::HealthUpdate { player_id, health } => r.apply_health_update_spec(
            player_id,
            health,
        ),
        _ => r,
    }
}

pub open spec fn health_fold(r: RoundInfo, msgs: Seq<NetworkMessage>) -> RoundInfo
    decreases msgs.len(),
{
    if msgs.len() == 0 {
        r
    } else {
        health_step(health_fold(r, msgs.drop_last()), msgs.last())
    }
}

/// Effect of one received `GameOver`: start (or restart) the presentation
/// delay with the named winner.
pub open spec fn game_over_step(g: GameOverState, m: NetworkMessage) -> GameOverState {
    match m {
        NetworkMessage::GameOver { winner } => g.trigger_spec(winner, winner.other_spec()),
        _ => g,
    }
}

pub open spec fn game_over_fold(g: GameOverState, msgs: Seq<NetworkMessage>) -> GameOverState
    decreases msgs.len(),
{
    if msgs.len() == 0 {
        g
    } else {
        game_over_step(game_over_fold(g, msgs.drop_last()), msgs.last())
    }
}

pub open spec fn has_kind(msgs: Seq<NetworkMessage>, k: crate::msg::MsgKind) -> bool {
    exists|i: int| 0 <= i < msgs.len() && msgs[i].kind_spec() == k
}

impl Session {
    /// The defender-position stream, read on the side that currently
    /// attacks: each `DefenderState` moves the remote defender's entity
    /// and updates its dodge pose. Gated on the attacker view; on the
    /// defending side the messages stay queued (and are replaced by newer
    /// ones in place, since the handler owns the kind exclusively).
    pub open spec fn defender_stream_gate(self) -> bool {
        self.connected && !(self.app_state is GameOver) && self.view_config.is_attacker_view
    }

    #[verifier::rlimit(60)]
    pub fn handle_defender_stream(&mut self)
        requires
            old(self).wf(),
        ensures
            final(self).wf(),
            !old(self).defender_stream_gate() ==> *final(self) == *old(self),
            old(self).defender_stream_gate() ==> {
                &&& final(self).queue@ == old(self).queue@.filter(
                    crate::queue::kept_from(crate::queue::Handler::DefenderStream),
                )
                &&& *final(self) == (Session {
                    queue: final(self).queue,
                    p1_pos: final(self).p1_pos,
                    p2_pos: final(self).p2_pos,
                    remote_dodge: final(self).remote_dodge,
                    ..*old(self)
                })
                &&& (final(self).p1_pos, final(self).p2_pos, final(self).remote_dodge)
                    == defender_fold(
                    old(self).p1_pos,
                    old(self).p2_pos,
                    old(self).remote_dodge,
                    old(self).local_id().other_spec(),
                    old(self).roles.role_of_spec(old(self).local_id().other_spec()) is Defender,
                    old(self).queue@.filter(
                        crate::queue::owned_by(crate::queue::Handler::DefenderStream),
                    ),
                )
            },
    {
        let gate = self.connected && !matches!(self.app_state, AppState::GameOver)
            && self.view_config.is_attacker_view;
        if !gate {
            return ;
        }
        let ghost s0 = *old(self);
        let owned = self.queue.take_owned(crate::queue::Handler::DefenderStream);
        let ghost owned_seq = owned@;
        let other = self.peer.local_player().other();
        let other_is_def = matches!(self.roles.role_of(other), crate::player::PlayerRole::Defender);
        let n = owned.len();
        let mut i: usize = 0;
        proof {
            assert(owned_seq.subrange(0, 0) =~= Seq::<NetworkMessage>::empty());
        }
        while i < n
            invariant
                self.wf(),
                i <= n,
                n == owned_seq.len(),
                owned@ == owned_seq,
                other == s0.local_id().other_spec(),
                other_is_def == (s0.roles.role_of_spec(other) is Defender),
                *self == (Session {
                    queue: self.queue,
                    p1_pos: self.p1_pos,
                    p2_pos: self.p2_pos,
                    remote_dodge: self.remote_dodge,
                    ..s0
                }),
                self.queue@ == s0.queue@.filter(
                    crate::queue::kept_from(crate::queue::Handler::DefenderStream),
                ),
                (self.p1_pos, self.p2_pos, self.remote_dodge) == defender_fold(
                    s0.p1_pos,
                    s0.p2_pos,
                    s0.remote_dodge,
                    other,
                    other_is_def,
                    owned_seq.subrange(0, i as int),
                ),
            decreases n - i,
        {
            let m = owned[i];
            proof {
                assert(owned_seq.subrange(0, i + 1).drop_last() =~= owned_seq.subrange(
                    0,
                    i as int,
                ));
                assert(owned_seq.subrange(0, i + 1).last() == m);
            }
            if let NetworkMessage::DefenderState { position, dodge_action } = m {
                if other_is_def {
                    let p = clamp_pos(position);
                    match other {
                        PlayerId::Player1 => self.p1_pos = p,
                        PlayerId::Player2 => self.p2_pos = p,
                    }
                    self.remote_dodge = dodge_action;
                }
            }
            i = i + 1;
        }
        proof {
            assert(owned_seq.subrange(0, n as int) =~= owned_seq);
        }
    }

    /// The aim stream, read on the side that currently defends: each
    /// `CrosshairPosition` moves the mirrored crosshair.
    pub open spec fn crosshair_stream_gate(self) -> bool {
        self.connected && !self.view_config.is_attacker_view
    }

    #[verifier::rlimit(60)]
    pub fn handle_crosshair_stream(&mut self)
        requires
            old(self).wf(),
        ensures
            final(self).wf(),
            !old(self).crosshair_stream_gate() ==> *final(self) == *old(self),
            old(self).crosshair_stream_gate() ==> {
                &&& final(self).queue@ == old(self).queue@.filter(
                    crate::queue::kept_from(crate::queue::Handler::CrosshairStream),
                )
                &&& *final(self) == (Session {
                    queue: final(self).queue,
                    cursor: final(self).cursor,
                    ..*old(self)
                })
                &&& final(self).cursor == cursor_fold(
                    old(self).cursor,
                    old(self).queue@.filter(
                        crate::queue::owned_by(crate::queue::Handler::CrosshairStream),
                    ),
                )
            },
    {
        let gate = self.connected && !self.view_config.is_attacker_view;
        if !gate {
            return ;
        }
        let ghost s0 = *old(self);
        let owned = self.queue.take_owned(crate::queue::Handler::CrosshairStream);
        let ghost owned_seq = owned@;
        let n = owned.len();
        let mut i: usize = 0;
        proof {
            assert(owned_seq.subrange(0, 0) =~= Seq::<NetworkMessage>::empty());
        }
        while i < n
            invariant
                self.wf(),
                i <= n,
                n == owned_seq.len(),
                owned@ == owned_seq,
                *self == (Session { queue: self.queue, cursor: self.cursor, ..s0 }),
                self.queue@ == s0.queue@.filter(
                    crate::queue::kept_from(crate::queue::Handler::CrosshairStream),
                ),
                self.cursor == cursor_fold(s0.cursor, owned_seq.subrange(0, i as int)),
            decreases n - i,
        {
            let m = owned[i];
            proof {
                assert(owned_seq.subrange(0, i + 1).drop_last() =~= owned_seq.subrange(
                    0,
                    i as int,
                ));
                assert(owned_seq.subrange(0, i + 1).last() == m);
            }
            if let NetworkMessage::CrosshairPosition { position } = m {
                self.cursor = crate::msg::Vec2i {
                    x: clamp_coord(position.x),
                    y: clamp_coord(position.y),
                };
            }
            i = i + 1;
        }
        proof {
            assert(owned_seq.subrange(0, n as int) =~= owned_seq);
        }
    }

    /// Bullet spawn events: deduplicate by sync id, create the bullet on
    /// first sight, and mirror the attacker's spent bullet.
    pub open spec fn bullet_events_gate(self) -> bool {
        self.connected
    }

    #[verifier::rlimit(60)]
    pub fn handle_bullet_events(&mut self)
        requires
            old(self).wf(),
        ensures
            final(self).wf(),
            !old(self).bullet_events_gate() ==> *final(self) == *old(self),
            old(self).bullet_events_gate() ==> {
                &&& final(self).queue@ == old(self).queue@.filter(
                    crate::queue::kept_from(crate::queue::Handler::BulletEvents),
                )
                &&& *final(self) == (Session {
                    queue: final(self).queue,
                    bullets: final(self).bullets,
                    round: final(self).round,
                    ..*old(self)
                })
                &&& (final(self).bullets@, final(self).round) == bullet_fold(
                    old(self).bullets@,
                    old(self).round,
                    old(self).queue@.filter(
                        crate::queue::owned_by(crate::queue::Handler::BulletEvents),
                    ),
                )
            },
    {
        if !self.connected {
            return ;
        }
        let ghost s0 = *old(self);
        let owned = self.queue.take_owned(crate::queue::Handler::BulletEvents);
        let ghost owned_seq = owned@;
        let n = owned.len();
        let mut i: usize = 0;
        proof {
            assert(owned_seq.subrange(0, 0) =~= Seq::<NetworkMessage>::empty());
        }
        while i < n
            invariant
                self.wf(),
                i <= n,
                n == owned_seq.len(),
                owned@ == owned_seq,
                *self == (Session {
                    queue: self.queue,
                    bullets: self.bullets,
                    round: self.round,
                    ..s0
                }),
                self.queue@ == s0.queue@.filter(
                    crate::queue::kept_from(crate::queue::Handler::BulletEvents),
                ),
                (self.bullets@, self.round) == bullet_fold(
                    s0.bullets@,
                    s0.round,
                    owned_seq.subrange(0, i as int),
                ),
            decreases n - i,
        {
            let m = owned[i];
            proof {
                assert(owned_seq.subrange(0, i + 1).drop_last() =~= owned_seq.subrange(
                    0,
                    i as int,
                ));
                assert(owned_seq.subrange(0, i + 1).last() == m);
            }
            if let NetworkMessage::BulletSpawn {
                bullet_id,
                owner,
                start_pos,
                target_pos,
                velocity,
            } = m {
                let b = Bullet { id: bullet_id, owner, start_pos, target_pos, velocity };
                let spawned = self.bullets.spawn(b);
                if spawned && owner == self.round.current_attacker {
                    self.round.apply_remote_shot();
                }
            }
            i = i + 1;
        }
        proof {
            assert(owned_seq.subrange(0, n as int) =~= owned_seq);
        }
    }

    /// Health update events: the reported health is authoritative for the
    /// named player; last write wins.
    #[verifier::rlimit(60)]
    pub fn handle_health_events(&mut self)
        requires
            old(self).wf(),
        ensures
            final(self).wf(),
            !old(self).connected ==> *final(self) == *old(self),
            old(self).connected ==> {
                &&& final(self).queue@ == old(self).queue@.filter(
                    crate::queue::kept_from(crate::queue::Handler::HealthEvents),
                )
                &&& *final(self) == (Session {
                    queue: final(self).queue,
                    round: final(self).round,
                    ..*old(self)
                })
                &&& final(self).round == health_fold(
                    old(self).round,
                    old(self).queue@.filter(
                        crate::queue::owned_by(crate::queue::Handler::HealthEvents),
                    ),
                )
            },
    {
        if !self.connected {
            return ;
        }
        let ghost s0 = *old(self);
        let owned = self.queue.take_owned(crate::queue::Handler::HealthEvents);
        let ghost owned_seq = owned@;
        let n = owned.len();
        let mut i: usize = 0;
        proof {
            assert(owned_seq.subrange(0, 0) =~= Seq::<NetworkMessage>::empty());
        }
        while i < n
            invariant
                self.wf(),
                i <= n,
                n == owned_seq.len(),
                owned@ == owned_seq,
                *self == (Session { queue: self.queue, round: self.round, ..s0 }),
                self.queue@ == s0.queue@.filter(
                    crate::queue::kept_from(crate::queue::Handler::HealthEvents),
                ),
                self.round == health_fold(s0.round, owned_seq.subrange(0, i as int)),
            decreases n - i,
        {
            let m = owned[i];
            proof {
                assert(owned_seq.subrange(0, i + 1).drop_last() =~= owned_seq.subrange(
                    0,
                    i as int,
                ));
                assert(owned_seq.subrange(0, i + 1).last() == m);
            }
            if let NetworkMessage::HealthUpdate { player_id, health } = m {
                self.round.apply_health_update(player_id, health);
            }
            i = i + 1;
        }
        proof {
            assert(owned_seq.subrange(0, n as int) =~= owned_seq);
        }
    }

    /// The game-over announcement, on the client: each received `GameOver`
    /// starts (or restarts) the local presentation delay. The host decided
    /// the result itself and ignores these.
    pub open spec fn game_over_events_gate(self) -> bool {
        self.connected && self.peer is Client
    }

    #[verifier::rlimit(60)]
    pub fn handle_game_over_events(&mut self)
        requires
            old(self).wf(),
        ensures
            final(self).wf(),
            !old(self).game_over_events_gate() ==> *final(self) == *old(self),
            old(self).game_over_events_gate() ==> {
                &&& final(self).queue@ == old(self).queue@.filter(
                    crate::queue::kept_from(crate::queue::Handler::GameOverEvents),
                )
                &&& *final(self) == (Session {
                    queue: final(self).queue,
                    game_over: final(self).game_over,
                    ..*old(self)
                })
                &&& final(self).game_over == game_over_fold(
                    old(self).game_over,
                    old(self).queue@.filter(
                        crate::queue::owned_by(crate::queue::Handler::GameOverEvents),
                    ),
                )
            },
    {
        let gate = self.connected && matches!(self.peer, PeerRole::Client);
        if !gate {
            return ;
        }
        let ghost s0 = *old(self);
        let owned = self.queue.take_owned(crate::queue::Handler::GameOverEvents);
        let ghost owned_seq = owned@;
        let n = owned.len();
        let mut i: usize = 0;
        proof {
            assert(owned_seq.subrange(0, 0) =~= Seq::<NetworkMessage>::empty());
        }
        while i < n
            invariant
                self.wf(),
                i <= n,
                n == owned_seq.len(),
                owned@ == owned_seq,
                *self == (Session { queue: self.queue, game_over: self.game_over, ..s0 }),
                self.queue@ == s0.queue@.filter(
                    crate::queue::kept_from(crate::queue::Handler::GameOverEvents),
                ),
                self.game_over == game_over_fold(s0.game_over, owned_seq.subrange(0, i as int)),
            decreases n - i,
        {
            let m = owned[i];
            proof {
                assert(owned_seq.subrange(0, i + 1).drop_last() =~= owned_seq.subrange(
                    0,
                    i as int,
                ));
                assert(owned_seq.subrange(0, i + 1).last() == m);
            }
            if let NetworkMessage::GameOver { winner } = m {
                let loser = winner.other();
                self.game_over.trigger(winner, loser);
            }
            i = i + 1;
        }
        proof {
            assert(owned_seq.subrange(0, n as int) =~= owned_seq);
        }
    }

    /// The rematch handshake: the host notes the client's request and
    /// answers that it is ready; the client notes the host's readiness.
    /// The actual restart fires separately, once both flags are set.
    #[verifier::rlimit(60)]
    pub fn handle_rematch_events(&mut self) -> (reply: Option<NetworkMessage>)
        requires
            old(self).wf(),
        ensures
            final(self).wf(),
            !old(self).connected ==> *final(self) == *old(self) && reply is None,
            old(self).connected ==> {
                &&& final(self).queue@ == old(self).queue@.filter(
                    crate::queue::kept_from(crate::queue::Handler::RematchEvents),
                )
                &&& *final(self) == (Session {
                    queue: final(self).queue,
                    rematch: final(self).rematch,
                    ..*old(self)
                })
                &&& final(self).rematch.client_ready == (old(self).rematch.client_ready || (old(
                    self,
                ).peer is Host && has_kind(
                    old(self).queue@,
                    crate::msg::MsgKind::RematchRequest,
                )))
                &&& final(self).rematch.host_ready == (old(self).rematch.host_ready || (old(
                    self,
                ).peer is Client && has_kind(old(self).queue@, crate::msg::MsgKind::RematchReady)))
                &&& reply == (if old(self).peer is Host && has_kind(
                    old(self).queue@,
                    crate::msg::MsgKind::RematchRequest,
                ) {
                    Some(NetworkMessage::RematchReady)
                } else {
                    None::<NetworkMessage>
                })
            },
    {
        if !self.connected {
            return None;
        }
        let ghost s0 = *old(self);
        let owned = self.queue.take_owned(crate::queue::Handler::RematchEvents);
        let ghost owned_seq = owned@;
        proof {
            lemma_has_kind_filter(s0.queue@, crate::msg::MsgKind::RematchRequest);
            lemma_has_kind_filter(s0.queue@, crate::msg::MsgKind::RematchReady);
        }
        let n = owned.len();
        let mut i: usize = 0;
        let mut saw_request = false;
        let mut saw_ready = false;
        proof {
            assert(owned_seq.subrange(0, 0) =~= Seq::<NetworkMessage>::empty());
        }
        while i < n
            invariant
                self.wf(),
                i <= n,
                n == owned_seq.len(),
                owned@ == owned_seq,
                *self == (Session { queue: self.queue, rematch: self.rematch, ..s0 }),
                self.queue@ == s0.queue@.filter(
                    crate::queue::kept_from(crate::queue::Handler::RematchEvents),
                ),
                saw_request == has_kind(
                    owned_seq.subrange(0, i as int),
                    crate::msg::MsgKind::RematchRequest,
                ),
                saw_ready == has_kind(
                    owned_seq.subrange(0, i as int),
                    crate::msg::MsgKind::RematchReady,
                ),
                self.rematch.client_ready == (s0.rematch.client_ready || (s0.peer is Host
                    && saw_request)),
                self.rematch.host_ready == (s0.rematch.host_ready || (s0.peer is Client
                    && saw_ready)),
            decreases n - i,
        {
            let m = owned[i];
            proof {
                assert(owned_seq.subrange(0, i + 1).drop_last() =~= owned_seq.subrange(
                    0,
                    i as int,
                ));
                assert(owned_seq.subrange(0, i + 1).last() == m);
                lemma_has_kind_push(
                    owned_seq.subrange(0, i as int),
                    m,
                    crate::msg::MsgKind::RematchRequest,
                );
                lemma_has_kind_push(
                    owned_seq.subrange(0, i as int),
                    m,
                    crate::msg::MsgKind::RematchReady,
                );
                assert(owned_seq.subrange(0, i as int).push(m) =~= owned_seq.subrange(0, i + 1));
            }
            match m {
                NetworkMessage::RematchRequest => {
                    saw_request = true;
                    if let PeerRole::Host = self.peer {
                        self.rematch.client_ready = true;
                    }
                },
                NetworkMessage::RematchReady => {
                    saw_ready = true;
                    if let PeerRole::Client = self.peer {
                        self.rematch.host_ready = true;
                    }
                },
                _ => {},
            }
            i = i + 1;
        }
        proof {
            assert(owned_seq.subrange(0, n as int) =~= owned_seq);
        }
        let is_host = matches!(self.peer, PeerRole::Host);
        if is_host && saw_request {
            Some(NetworkMessage::RematchReady)
        } else {
            None
        }
    }

    /// The local player asks for a rematch on the game-over screen. The
    /// host only marks itself ready; the client additionally sends the
    /// request. There is no automatic retry: a lost request means the
    /// player clicks again.
    pub fn rematch_click(&mut self) -> (out: Option<NetworkMessage>)
        requires
            old(self).wf(),
        ensures
            final(self).wf(),
            *final(self) == (Session { rematch: final(self).rematch, ..*old(self) }),
            old(self).peer is Host ==> final(self).rematch == (RematchState {
                host_ready: true,
                ..old(self).rematch
            }) && out is None,
            old(self).peer is Client ==> final(self).rematch == (RematchState {
                client_ready: true,
                ..old(self).rematch
            }) && out == Some(NetworkMessage::RematchRequest),
    {
        match self.peer {
            PeerRole::Host => {
                self.rematch.host_ready = true;
                None
            },
            PeerRole::Client => {
                self.rematch.client_ready = true;
                Some(NetworkMessage::RematchRequest)
            },
        }
    }

    /// Restart once both sides have asked for a rematch: a fresh game in
    /// the same session.
    pub fn rematch_restart(&mut self) -> (restarted: bool)
        requires
            old(self).wf(),
        ensures
            final(self).wf(),
            restarted == (old(self).rematch.host_ready && old(self).rematch.client_ready),
            !restarted ==> *final(self) == *old(self),
            restarted ==> {
                &&& final(self).app_state is Playing
                &&& final(self).round_state is Attacking
                &&& final(self).round == RoundInfo::new_spec(PlayerId::Player1)
                &&& final(self).roles == RoleAssignment::from_attacker_spec(PlayerId::Player1)
                &&& final(self).game_over == GameOverState::new_spec()
                &&& !final(self).rematch.host_ready && !final(self).rematch.client_ready
                &&& final(self).bullets@ == Seq::<Bullet>::empty()
            },
    {
        if self.rematch.host_ready && self.rematch.client_ready {
            self.start_playing();
            true
        } else {
            false
        }
    }
}

/// Where the mirrored crosshair ends after a run of aim messages: at the
/// last reported position, clamped into the world.
pub open spec fn cursor_fold(c: crate::msg::Vec2i, msgs: Seq<NetworkMessage>) -> crate::msg::Vec2i
    decreases msgs.len(),
{
    if msgs.len() == 0 {
        c
    } else {
        match msgs.last() {
            NetworkMessage::CrosshairPosition { position } => crate::msg::Vec2i {
                x: clamp_coord_spec(position.x),
                y: clamp_coord_spec(position.y),
            },
            _ => cursor_fold(c, msgs.drop_last()),
        }
    }
}

/// Where the remote defender ends after a run of `DefenderState` messages:
/// the last reported position and pose win, applied only while the remote
/// player (`other`) holds the defender role.
pub open spec fn defender_fold(
    p1: Vec3i,
    p2: Vec3i,
    d: DodgeAction,
    other: PlayerId,
    other_is_def: bool,
    msgs: Seq<NetworkMessage>,
) -> (Vec3i, Vec3i, DodgeAction)
    decreases msgs.len(),
{
    if msgs.len() == 0 {
        (p1, p2, d)
    } else {
        let prev = defender_fold(p1, p2, d, other, other_is_def, msgs.drop_last());
        match msgs.last() {
            NetworkMessage::DefenderState { position, dodge_action } => {
                if other_is_def {
                    if other is Player1 {
                        (clamp_pos_spec(position), prev.1, dodge_action)
                    } else {
                        (prev.0, clamp_pos_spec(position), dodge_action)
                    }
                } else {
                    prev
                }
            },
            _ => prev,
        }
    }
}

// --- firing ---------------------------------------------------------------------

/// What one shot reports back to the caller: the spawn announcement to
/// broadcast, the struck body part if any, the health update to send on a
/// hit, and whether the hit ended the game.
pub struct FireReport {
    pub bullet_msg: NetworkMessage,
    pub hit: Option<crate::shot::HitboxType>,
    pub health_msg: Option<NetworkMessage>,
    pub lethal: bool,
}

impl Session {
    /// All conditions under which the local player may fire: it holds the
    /// attacker view and the attacker role on record, the round is live
    /// with bullets and time remaining, the previous shot's cooldown has
    /// elapsed, and a sync id is available.
    pub open spec fn fire_gate(self) -> bool {
        &&& self.connected
        &&& self.app_state is Playing
        &&& self.view_config.is_attacker_view
        &&& !self.round.is_switching
        &&& self.local_id() == self.round.current_attacker
        &&& self.round.bullets_left > 0
        &&& self.round.round_timer_ms > 0
        &&& self.shot_cooldown_ms == 0
        &&& self.bullet_ids.next < u64::MAX
    }

    /// Where this session's shot would land, against the remote defender's
    /// last-known position and pose. No defender on the other side — a
    /// transient role desync — means no hit computation at all.
    pub open spec fn fire_hit_spec(self) -> Option<crate::shot::HitboxType> {
        let other = self.local_id().other_spec();
        if self.roles.role_of_spec(other) is Defender {
            crate::shot::classify_hit_spec(
                self.cursor,
                xy_of(self.pos_of_spec(other)),
                self.remote_dodge is Crouch,
            )
        } else {
            Option::None
        }
    }

    pub open spec fn pos_of_spec(self, id: PlayerId) -> Vec3i {
        if id is Player1 {
            self.p1_pos
        } else {
            self.p2_pos
        }
    }

    /// The spawn announcement this session's next shot broadcasts.
    pub open spec fn fire_bullet_msg_spec(self) -> NetworkMessage {
        let start = xy_of(self.pos_of_spec(self.local_id()));
        NetworkMessage::BulletSpawn {
            bullet_id: self.bullet_ids.next,
            owner: self.local_id(),
            start_pos: start,
            target_pos: self.cursor,
            velocity: crate::msg::Vec2i {
                x: (self.cursor.x - start.x) as i32,
                y: (self.cursor.y - start.y) as i32,
            },
        }
    }

    /// Fire one shot, after validating every firing condition. On a hit
    /// the defender's health drops and a `HealthUpdate` goes out; a hit
    /// that empties it starts the game-over sequence with the local
    /// player as winner. Returns `None`, changing nothing, exactly when
    /// some firing condition fails.
    #[verifier::rlimit(60)]
    pub fn try_fire(&mut self) -> (r: Option<FireReport>)
        requires
            old(self).wf(),
        ensures
            final(self).wf(),
            r is Some <==> old(self).fire_gate(),
            !old(self).fire_gate() ==> *final(self) == *old(self),
            old(self).fire_gate() ==> {
                let hit = old(self).fire_hit_spec();
                let other = old(self).local_id().other_spec();
                let shot_round = old(self).round.record_shot_spec();
                &&& *final(self) == (Session {
                    round: final(self).round,
                    bullets: final(self).bullets,
                    bullet_ids: final(self).bullet_ids,
                    shot_cooldown_ms: SHOT_COOLDOWN_MS,
                    game_over: final(self).game_over,
                    ..*old(self)
                })
                &&& final(self).bullet_ids.next == old(self).bullet_ids.next + 1
                &&& final(self).round == (match hit {
                    Option::Some(h) => shot_round.record_hit_spec(
                        other,
                        crate::shot::damage_of_spec(h),
                    ),
                    Option::None => shot_round,
                })
                &&& r matches Some(rep) && {
                    &&& rep.bullet_msg == old(self).fire_bullet_msg_spec()
                    &&& rep.hit == hit
                    &&& rep.health_msg == (match hit {
                        Option::Some(h) => Some(
                            NetworkMessage::HealthUpdate {
                                player_id: other,
                                health: final(self).round.health_of_spec(other),
                            },
                        ),
                        Option::None => None::<NetworkMessage>,
                    })
                    &&& rep.lethal == (hit is Some && final(self).round.health_of_spec(other)
                        == 0)
                    &&& final(self).game_over == (if rep.lethal {
                        old(self).game_over.trigger_spec(old(self).local_id(), other)
                    } else {
                        old(self).game_over
                    })
                }
            },
    {
        let gated = self.connected && matches!(self.app_state, AppState::Playing)
            && self.view_config.is_attacker_view && !self.round.is_switching
            && self.round.bullets_left > 0 && self.round.round_timer_ms > 0
            && self.shot_cooldown_ms == 0 && self.bullet_ids.next < u64::MAX;
        let local = self.peer.local_player();
        if !(gated && local == self.round.current_attacker) {
            return None;
        }
        self.shot_cooldown_ms = SHOT_COOLDOWN_MS;
        self.round.record_shot();
        let id = self.bullet_ids.fresh_id();
        let other = local.other();
        let start_pos3 = match local {
            PlayerId::Player1 => self.p1_pos,
            PlayerId::Player2 => self.p2_pos,
        };
        let start = crate::msg::Vec2i { x: start_pos3.x, y: start_pos3.y };
        let target = self.cursor;
        let velocity = crate::msg::Vec2i { x: target.x - start.x, y: target.y - start.y };
        let bullet_msg = NetworkMessage::BulletSpawn {
            bullet_id: id,
            owner: local,
            start_pos: start,
            target_pos: target,
            velocity,
        };
        self.bullets.spawn(
            Bullet { id, owner: local, start_pos: start, target_pos: target, velocity },
        );
        let defender_pos3 = match other {
            PlayerId::Player1 => self.p1_pos,
            PlayerId::Player2 => self.p2_pos,
        };
        let hit = match self.roles.role_of(other) {
            crate::player::PlayerRole::Defender => crate::shot::resolve_shot(
                target,
                crate::msg::Vec2i { x: defender_pos3.x, y: defender_pos3.y },
                matches!(self.remote_dodge, DodgeAction::Crouch),
            ),
            crate::player::PlayerRole::Attacker => None,
        };
        let mut health_msg: Option<NetworkMessage> = None;
        let mut lethal = false;
        if let Option::Some(h) = hit {
            let damage = crate::shot::damage_of(h);
            let new_health = self.round.record_hit(other, damage);
            health_msg = Some(NetworkMessage::HealthUpdate { player_id: other, health: new_health });
            if new_health == 0 {
                lethal = true;
                self.game_over.trigger(local, other);
            }
        }
        Some(FireReport { bullet_msg, hit, health_msg, lethal })
    }

    /// Steer the attacker's aim by an offset from the attacker's fixed
    /// position, clamped to the aiming range on each axis.
    pub fn set_aim(&mut self, offset: crate::msg::Vec2i)
        requires
            old(self).wf(),
        ensures
            final(self).wf(),
            *final(self) == (Session { cursor: final(self).cursor, ..*old(self) }),
            final(self).cursor.x == ATTACKER_START_X + clamp_aim_spec(offset.x),
            final(self).cursor.y == ATTACKER_START_Y + clamp_aim_spec(offset.y),
    {
        let dx = clamp_aim(offset.x);
        let dy = clamp_aim(offset.y);
        self.cursor = crate::msg::Vec2i { x: ATTACKER_START_X + dx, y: ATTACKER_START_Y + dy };
    }

    /// Move the locally controlled player, as the movement system does.
    pub fn set_local_pos(&mut self, pos: Vec3i)
        requires
            old(self).wf(),
        ensures
            final(self).wf(),
            *final(self) == (Session {
                p1_pos: final(self).p1_pos,
                p2_pos: final(self).p2_pos,
                ..*old(self)
            }),
            final(self).pos_of_spec(old(self).local_id()) == clamp_pos_spec(pos),
            final(self).pos_of_spec(old(self).local_id().other_spec()) == old(self).pos_of_spec(
                old(self).local_id().other_spec(),
            ),
    {
        let p = clamp_pos(pos);
        match self.peer.local_player() {
            PlayerId::Player1 => self.p1_pos = p,
            PlayerId::Player2 => self.p2_pos = p,
        }
    }

    /// Record the local player's dodge pose.
    pub fn set_local_dodge(&mut self, d: DodgeAction)
        requires
            old(self).wf(),
        ensures
            final(self).wf(),
            *final(self) == (Session { local_dodge: d, ..*old(self) }),
    {
        self.local_dodge = d;
    }

    /// A bullet left the field or struck something: remove it.
    pub fn despawn_bullet(&mut self, id: u64)
        requires
            old(self).wf(),
        ensures
            final(self).wf(),
            *final(self) == (Session { bullets: final(self).bullets, ..*old(self) }),
            final(self).bullets@ == old(self).bullets@.filter(|b: Bullet| b.id != id),
    {
        self.bullets.despawn(id);
    }

    // --- periodic senders and timers --------------------------------------

    /// Advance the round timer and the shot cooldown by one frame. The
    /// round clock runs only while actually attacking.
    pub fn advance_time(&mut self, dt_ms: u32)
        requires
            old(self).wf(),
        ensures
            final(self).wf(),
            *final(self) == (Session {
                round: final(self).round,
                shot_cooldown_ms: final(self).shot_cooldown_ms,
                ..*old(self)
            }),
            final(self).round == (if old(self).app_state is Playing && old(
                self,
            ).round_state is Attacking {
                old(self).round.tick_spec(dt_ms)
            } else {
                old(self).round
            }),
            final(self).shot_cooldown_ms == (if old(self).shot_cooldown_ms >= dt_ms {
                (old(self).shot_cooldown_ms - dt_ms) as u32
            } else {
                0u32
            }),
    {
        if matches!(self.app_state, AppState::Playing) && matches!(
            self.round_state,
            RoundState::Attacking,
        ) {
            self.round.tick(dt_ms);
        }
        if self.shot_cooldown_ms >= dt_ms {
            self.shot_cooldown_ms = self.shot_cooldown_ms - dt_ms;
        } else {
            self.shot_cooldown_ms = 0;
        }
    }

    /// The host's authoritative snapshot of one player.
    pub open spec fn snapshot_spec(self, id: PlayerId) -> crate::msg::PlayerSnapshot {
        crate::msg::PlayerSnapshot {
            pos: self.pos_of_spec(id),
            role: self.roles.role_of_spec(id),
            health: self.round.health_of_spec(id),
        }
    }

    /// The authoritative snapshot datagram the host broadcasts.
    pub open spec fn state_msg_spec(self) -> NetworkMessage {
        NetworkMessage::GameState {
            p1: self.snapshot_spec(PlayerId::Player1),
            p2: self.snapshot_spec(PlayerId::Player2),
        }
    }

    /// The authoritative round-info datagram the host broadcasts.
    pub open spec fn round_sync_msg_spec(self) -> NetworkMessage {
        NetworkMessage::RoundInfoSync {
            current_attacker: self.round.current_attacker,
            bullets_left: self.round.bullets_left,
            round_timer_remaining_ms: self.round.round_timer_ms,
            p1_health: self.round.p1_health,
            p2_health: self.round.p2_health,
            bullets_fired: self.round.bullets_fired_this_round,
            bullets_hit: self.round.bullets_hit_defender,
        }
    }

    fn build_state_sync(&self) -> (out: (NetworkMessage, NetworkMessage))
        ensures
            out.0 == self.state_msg_spec(),
            out.1 == self.round_sync_msg_spec(),
    {
        let p1 = crate::msg::PlayerSnapshot {
            pos: self.p1_pos,
            role: self.roles.role_of(PlayerId::Player1),
            health: self.round.p1_health,
        };
        let p2 = crate::msg::PlayerSnapshot {
            pos: self.p2_pos,
            role: self.roles.role_of(PlayerId::Player2),
            health: self.round.p2_health,
        };
        let round_sync = NetworkMessage::RoundInfoSync {
            current_attacker: self.round.current_attacker,
            bullets_left: self.round.bullets_left,
            round_timer_remaining_ms: self.round.round_timer_ms,
            p1_health: self.round.p1_health,
            p2_health: self.round.p2_health,
            bullets_fired: self.round.bullets_fired_this_round,
            bullets_hit: self.round.bullets_hit_defender,
        };
        (NetworkMessage::GameState { p1, p2 }, round_sync)
    }

    pub open spec fn state_sync_gate(self) -> bool {
        self.peer is Host && self.app_state is Playing
    }

    /// The authoritative state stream: on the host, at its fixed rate, one
    /// `GameState` snapshot and one `RoundInfoSync` per period.
    pub fn host_state_sync_tick(&mut self, dt_ms: u32) -> (out: Option<
        (NetworkMessage, NetworkMessage),
    >)
        requires
            old(self).wf(),
        ensures
            final(self).wf(),
            *final(self) == (Session { state_sync: final(self).state_sync, ..*old(self) }),
            !old(self).state_sync_gate() ==> *final(self) == *old(self) && out is None,
            old(self).state_sync_gate() ==> {
                &&& out is Some <==> old(self).state_sync.fires_spec(dt_ms)
                &&& out matches Some(pair) ==> pair.0 == old(self).state_msg_spec() && pair.1
                    == old(self).round_sync_msg_spec()
            },
    {
        let gate = matches!(self.peer, PeerRole::Host) && matches!(
            self.app_state,
            AppState::Playing,
        );
        if !gate {
            return None;
        }
        if !self.state_sync.tick(dt_ms) {
            return None;
        }
        Some(self.build_state_sync())
    }

    pub open spec fn defender_send_gate(self) -> bool {
        self.connected && !(self.app_state is GameOver) && !self.view_config.is_attacker_view
    }

    /// The defender stream, sent by whichever side currently defends: its
    /// own position and pose, plus the raw input, at the frame rate.
    pub fn defender_stream_tick(
        &mut self,
        dt_ms: u32,
        movement: Option<crate::msg::Vec2i>,
        action: Option<crate::msg::InputAction>,
    ) -> (out: Option<(NetworkMessage, NetworkMessage)>)
        requires
            old(self).wf(),
        ensures
            final(self).wf(),
            *final(self) == (Session { defender_sync: final(self).defender_sync, ..*old(self) }),
            !old(self).defender_send_gate() ==> *final(self) == *old(self) && out is None,
            old(self).defender_send_gate() ==> {
                &&& out is Some <==> old(self).defender_sync.fires_spec(dt_ms)
                &&& out matches Some(pair) ==> {
                    &&& pair.0 == (NetworkMessage::DefenderState {
                        position: old(self).pos_of_spec(old(self).local_id()),
                        dodge_action: old(self).local_dodge,
                    })
                    &&& pair.1 == (NetworkMessage::PlayerInput {
                        player_id: old(self).local_id(),
                        movement,
                        action,
                        crosshair_pos: None,
                    })
                }
            },
    {
        let gate = self.connected && !matches!(self.app_state, AppState::GameOver)
            && !self.view_config.is_attacker_view;
        if !gate {
            return None;
        }
        if !self.defender_sync.tick(dt_ms) {
            return None;
        }
        let local = self.peer.local_player();
        let pos = match local {
            PlayerId::Player1 => self.p1_pos,
            PlayerId::Player2 => self.p2_pos,
        };
        let state = NetworkMessage::DefenderState { position: pos, dodge_action: self.local_dodge };
        let input = NetworkMessage::PlayerInput {
            player_id: local,
            movement,
            action,
            crosshair_pos: None,
        };
        Some((state, input))
    }

    pub open spec fn crosshair_send_gate(self) -> bool {
        self.connected && self.view_config.is_attacker_view
    }

    /// The aim stream, sent by whichever side currently attacks: the
    /// crosshair position at its fixed rate.
    pub fn crosshair_stream_tick(&mut self, dt_ms: u32) -> (out: Option<NetworkMessage>)
        requires
            old(self).wf(),
        ensures
            final(self).wf(),
            *final(self) == (Session { crosshair_sync: final(self).crosshair_sync, ..*old(self) }),
            !old(self).crosshair_send_gate() ==> *final(self) == *old(self) && out is None,
            old(self).crosshair_send_gate() ==> {
                &&& out is Some <==> old(self).crosshair_sync.fires_spec(dt_ms)
                &&& out matches Some(m) ==> m == (NetworkMessage::CrosshairPosition {
                    position: old(self).cursor,
                })
            },
    {
        let gate = self.connected && self.view_config.is_attacker_view;
        if !gate {
            return None;
        }
        if !self.crosshair_sync.tick(dt_ms) {
            return None;
        }
        Some(NetworkMessage::CrosshairPosition { position: self.cursor })
    }

    pub open spec fn discovery_gate(self) -> bool {
        self.peer is Client && !self.room_found
    }

    /// Discovery: while no room has answered, the client broadcasts a
    /// request at the discovery interval, indefinitely.
    pub fn discovery_tick(&mut self, dt_ms: u32) -> (out: Option<NetworkMessage>)
        requires
            old(self).wf(),
        ensures
            final(self).wf(),
            *final(self) == (Session { discovery: final(self).discovery, ..*old(self) }),
            !old(self).discovery_gate() ==> *final(self) == *old(self) && out is None,
            old(self).discovery_gate() ==> {
                &&& out is Some <==> old(self).discovery.fires_spec(dt_ms)
                &&& out matches Some(m) ==> m == NetworkMessage::RoomDiscoveryRequest
            },
    {
        let gate = matches!(self.peer, PeerRole::Client) && !self.room_found;
        if !gate {
            return None;
        }
        if !self.discovery.tick(dt_ms) {
            return None;
        }
        Some(NetworkMessage::RoomDiscoveryRequest)
    }

    /// Drive the game-over delay and burst. When the presentation delay
    /// elapses the session enters the game-over state; the host then
    /// forces one last full state sync (so the loser's final health is on
    /// record even if every earlier update was lost) followed by the
    /// immediate `GameOver`, and each later burst repeat comes back as
    /// one more datagram to send, in order.
    pub fn game_over_tick(&mut self, dt_ms: u32) -> (out: Vec<NetworkMessage>)
        requires
            old(self).wf(),
        ensures
            final(self).wf(),
            final(self).game_over == old(self).game_over.tick_next_spec(
                dt_ms,
                old(self).is_host(),
            ),
            *final(self) == (Session {
                game_over: final(self).game_over,
                app_state: final(self).app_state,
                ..*old(self)
            }),
            final(self).app_state == (if old(self).game_over.tick_action_spec(
                dt_ms,
                old(self).is_host(),
            ) is Announce {
                AppState::GameOver
            } else {
                old(self).app_state
            }),
            out@ == (match old(self).game_over.tick_action_spec(dt_ms, old(self).is_host()) {
                crate::gameover::GameOverAction::Quiet => Seq::<NetworkMessage>::empty(),
                crate::gameover::GameOverAction::Announce { winner, send, .. } => if send {
                    seq![
                        old(self).state_msg_spec(),
                        old(self).round_sync_msg_spec(),
                        NetworkMessage::GameOver { winner },
                    ]
                } else {
                    Seq::<NetworkMessage>::empty()
                },
                crate::gameover::GameOverAction::Resend { winner } => seq![
                    NetworkMessage::GameOver { winner },
                ],
            }),
    {
        let is_host = matches!(self.peer, PeerRole::Host);
        let sync_pair = self.build_state_sync();
        let action = self.game_over.tick(dt_ms, is_host);
        let mut out: Vec<NetworkMessage> = Vec::new();
        match action {
            crate::gameover::GameOverAction::Quiet => {},
            crate::gameover::GameOverAction::Announce { winner, loser: _, send } => {
                self.app_state = AppState::GameOver;
                if send {
                    out.push(sync_pair.0);
                    out.push(sync_pair.1);
                    out.push(NetworkMessage::GameOver { winner });
                    proof {
                        assert(out@ =~= seq![
                            old(self).state_msg_spec(),
                            old(self).round_sync_msg_spec(),
                            NetworkMessage::GameOver { winner },
                        ]);
                    }
                }
            },
            crate::gameover::GameOverAction::Resend { winner } => {
                out.push(NetworkMessage::GameOver { winner });
                proof {
                    assert(out@ =~= seq![NetworkMessage::GameOver { winner }]);
                }
            },
        }
        out
    }
}

/// The aim offset clamped to the aiming range.
pub open spec fn clamp_aim_spec(x: i32) -> i32 {
    if x < -MAX_AIM_OFFSET {
        (-MAX_AIM_OFFSET) as i32
    } else if x > MAX_AIM_OFFSET {
        MAX_AIM_OFFSET
    } else {
        x
    }
}

fn clamp_aim(x: i32) -> (r: i32)
    ensures
        r == clamp_aim_spec(x),
        -MAX_AIM_OFFSET <= r <= MAX_AIM_OFFSET,
{
    if x < -MAX_AIM_OFFSET {
        -MAX_AIM_OFFSET
    } else if x > MAX_AIM_OFFSET {
        MAX_AIM_OFFSET
    } else {
        x
    }
}

pub open spec fn xy_of(p: Vec3i) -> crate::msg::Vec2i {
    crate::msg::Vec2i { x: p.x, y: p.y }
}

proof fn lemma_has_kind_push(msgs: Seq<NetworkMessage>, m: NetworkMessage, k: crate::msg::MsgKind)
    ensures
        has_kind(msgs.push(m), k) == (has_kind(msgs, k) || m.kind_spec() == k),
{
    if has_kind(msgs, k) {
        let w = choose|i: int| 0 <= i < msgs.len() && msgs[i].kind_spec() == k;
        assert(msgs.push(m)[w].kind_spec() == k);
    }
    if m.kind_spec() == k {
        assert(msgs.push(m)[msgs.len() as int].kind_spec() == k);
    }
    if has_kind(msgs.push(m), k) && !(m.kind_spec() == k) {
        let w = choose|i: int| 0 <= i < msgs.push(m).len() && msgs.push(m)[i].kind_spec() == k;
        if w < msgs.len() {
            assert(msgs[w].kind_spec() == k);
        }
    }
}

/// A handler's drain sees a kind it owns exactly when the whole queue
/// holds one.
proof fn lemma_has_kind_filter(msgs: Seq<NetworkMessage>, k: crate::msg::MsgKind)
    requires
        k == crate::msg::MsgKind::RematchRequest || k == crate::msg::MsgKind::RematchReady,
    ensures
        has_kind(
            msgs.filter(crate::queue::owned_by(crate::queue::Handler::RematchEvents)),
            k,
        ) == has_kind(msgs, k),
    decreases msgs.len(),
{
    reveal(Seq::filter);
    let f = crate::queue::owned_by(crate::queue::Handler::RematchEvents);
    if msgs.len() == 0 {
    } else {
        let t = msgs.drop_last();
        lemma_has_kind_filter(t, k);
        lemma_has_kind_push(t, msgs.last(), k);
        assert(t.push(msgs.last()) =~= msgs);
        if f(msgs.last()) {
            lemma_has_kind_push(t.filter(f), msgs.last(), k);
            assert(msgs.filter(f) == t.filter(f).push(msgs.last()));
        } else {
            assert(msgs.filter(f) == t.filter(f));
            assert(msgs.last().kind_spec() != k);
        }
    }
}

} // verus!
