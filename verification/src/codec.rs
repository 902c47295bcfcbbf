//! Binary wire codec for `NetworkMessage`.
//!
//! Each message is one datagram: a tag byte followed by fixed-size fields,
//! scalars little-endian. `encode` and `decode` are exact inverses: `decode`
//! returns `Some(m)` exactly on the buffers that `encode` produces for `m`.

use vstd::prelude::*;
use crate::msg::DodgeAction;
use crate::msg::InputAction;
use crate::msg::NetworkMessage;
use crate::msg::PlayerSnapshot;
use crate::msg::Vec2i;
use crate::msg::Vec3i;
use crate::player::PeerRole;
use crate::player::PlayerId;
use crate::player::PlayerRole;

verus! {

// --- little-endian scalars -------------------------------------------------

pub open spec fn u32_le(x: u32) -> Seq<u8> {
    seq![
        (x & 0xff) as u8,
        ((x >> 8) & 0xff) as u8,
        ((x >> 16) & 0xff) as u8,
        ((x >> 24) & 0xff) as u8,
    ]
}

pub open spec fn u32_of_le(b0: u8, b1: u8, b2: u8, b3: u8) -> u32 {
    (b0 as u32) | ((b1 as u32) << 8) | ((b2 as u32) << 16) | ((b3 as u32) << 24)
}

/// Reassembling the four little-endian bytes of `x` gives `x` back.
proof fn lemma_u32_le_inverse(x: u32)
    ensures
        u32_of_le(
            (x & 0xff) as u8,
            ((x >> 8) & 0xff) as u8,
            ((x >> 16) & 0xff) as u8,
            ((x >> 24) & 0xff) as u8,
        ) == x,
{
    assert(((x & 0xff) as u8 as u32) | ((((x >> 8) & 0xff) as u8 as u32) << 8)
        | ((((x >> 16) & 0xff) as u8 as u32) << 16) | ((((x >> 24) & 0xff) as u8 as u32) << 24)
        == x) by (bit_vector);
}

/// Splitting a reassembled word gives the original four bytes back.
proof fn lemma_u32_le_bytes(b0: u8, b1: u8, b2: u8, b3: u8)
    ensures
        u32_le(u32_of_le(b0, b1, b2, b3)) == seq![b0, b1, b2, b3],
{
    let x = u32_of_le(b0, b1, b2, b3);
    assert((x & 0xff) as u8 == b0 && ((x >> 8) & 0xff) as u8 == b1 && ((x >> 16) & 0xff) as u8
        == b2 && ((x >> 24) & 0xff) as u8 == b3) by (bit_vector)
        requires
            x == (b0 as u32) | ((b1 as u32) << 8) | ((b2 as u32) << 16) | ((b3 as u32) << 24),
    ;
    assert(u32_le(x) =~= seq![b0, b1, b2, b3]);
}

/// A signed coordinate travels as an unsigned word, shifted up by 2^31.
pub open spec fn i32_word(x: i32) -> u32 {
    (x + 0x8000_0000) as u32
}

pub open spec fn u64_lo(x: u64) -> u32 {
    (x & 0xffff_ffff) as u32
}

pub open spec fn u64_hi(x: u64) -> u32 {
    (x >> 32) as u32
}

pub open spec fn u64_of_words(hi: u32, lo: u32) -> u64 {
    ((hi as u64) << 32) | (lo as u64)
}

proof fn lemma_u64_words_inverse(x: u64)
    ensures
        u64_of_words(u64_hi(x), u64_lo(x)) == x,
{
    assert(((((x >> 32) as u32) as u64) << 32) | (((x & 0xffff_ffff) as u32) as u64) == x)
        by (bit_vector);
}

proof fn lemma_u64_words_split(hi: u32, lo: u32)
    ensures
        u64_hi(u64_of_words(hi, lo)) == hi,
        u64_lo(u64_of_words(hi, lo)) == lo,
{
    let x = u64_of_words(hi, lo);
    assert((x >> 32) as u32 == hi && (x & 0xffff_ffff) as u32 == lo) by (bit_vector)
        requires
            x == ((hi as u64) << 32) | (lo as u64),
    ;
}

fn push_u32(out: &mut Vec<u8>, x: u32)
    ensures
        final(out)@ == old(out)@ + u32_le(x),
{
    out.push((x & 0xff) as u8);
    out.push(((x >> 8) & 0xff) as u8);
    out.push(((x >> 16) & 0xff) as u8);
    out.push(((x >> 24) & 0xff) as u8);
    assert(out@ =~= old(out)@ + u32_le(x));
}

fn read_u32(buf: &Vec<u8>, i: usize) -> (x: u32)
    requires
        i + 4 <= buf@.len(),
    ensures
        x == u32_of_le(buf@[i as int], buf@[i + 1], buf@[i + 2], buf@[i + 3]),
        buf@.subrange(i as int, i + 4) == u32_le(x),
        forall|y: u32| buf@.subrange(i as int, i + 4) == u32_le(y) ==> y == x,
{
    let n: usize = buf.len();
    assert(i + 4 <= n);
    let b0 = buf[i];
    let b1 = buf[i + 1];
    let b2 = buf[i + 2];
    let b3 = buf[i + 3];
    let x = (b0 as u32) | ((b1 as u32) << 8) | ((b2 as u32) << 16) | ((b3 as u32) << 24);
    proof {
        lemma_u32_le_bytes(b0, b1, b2, b3);
        assert(buf@.subrange(i as int, i + 4) =~= seq![b0, b1, b2, b3]);
        assert forall|y: u32| buf@.subrange(i as int, i + 4) == u32_le(y) implies y == x by {
            lemma_u32_le_inverse(y);
        }
    }
    x
}

fn push_i32(out: &mut Vec<u8>, x: i32)
    ensures
        final(out)@ == old(out)@ + u32_le(i32_word(x)),
{
    let w = ((x as i64) + 0x8000_0000i64) as u32;
    push_u32(out, w);
}

fn read_i32(buf: &Vec<u8>, i: usize) -> (x: i32)
    requires
        i + 4 <= buf@.len(),
    ensures
        buf@.subrange(i as int, i + 4) == u32_le(i32_word(x)),
        forall|y: i32| buf@.subrange(i as int, i + 4) == u32_le(i32_word(y)) ==> y == x,
{
    let w = read_u32(buf, i);
    let x = ((w as i64) - 0x8000_0000i64) as i32;
    proof {
        assert(i32_word(x) == w);
        assert forall|y: i32| buf@.subrange(i as int, i + 4) == u32_le(i32_word(y)) implies y
            == x by {
            lemma_u32_le_inverse(i32_word(y));
            assert(u32_of_le(
                u32_le(i32_word(y))[0],
                u32_le(i32_word(y))[1],
                u32_le(i32_word(y))[2],
                u32_le(i32_word(y))[3],
            ) == i32_word(y));
        }
    }
    x
}

fn push_u64(out: &mut Vec<u8>, x: u64)
    ensures
        final(out)@ == old(out)@ + u32_le(u64_lo(x)) + u32_le(u64_hi(x)),
{
    push_u32(out, (x & 0xffff_ffff) as u32);
    push_u32(out, (x >> 32) as u32);
}

fn read_u64(buf: &Vec<u8>, i: usize) -> (x: u64)
    requires
        i + 8 <= buf@.len(),
    ensures
        buf@.subrange(i as int, i + 8) == u32_le(u64_lo(x)) + u32_le(u64_hi(x)),
        forall|y: u64|
            buf@.subrange(i as int, i + 8) == u32_le(u64_lo(y)) + u32_le(u64_hi(y)) ==> y == x,
{
    let n: usize = buf.len();
    assert(i + 8 <= n);
    let lo = read_u32(buf, i);
    let hi = read_u32(buf, i + 4);
    let x = ((hi as u64) << 32) | (lo as u64);
    proof {
        lemma_u64_words_split(hi, lo);
        assert(buf@.subrange(i as int, i + 8) =~= u32_le(u64_lo(x)) + u32_le(u64_hi(x)));
        assert forall|y: u64|
            buf@.subrange(i as int, i + 8) == u32_le(u64_lo(y)) + u32_le(u64_hi(y)) implies y
            == x by {
            let whole = u32_le(u64_lo(y)) + u32_le(u64_hi(y));
            assert(forall|k: int| 0 <= k < 8 ==> buf@[i + k] == #[trigger] whole[k]) by {
                assert(forall|k: int|
                    0 <= k < 8 ==> #[trigger] buf@.subrange(i as int, i + 8)[k] == buf@[i + k]);
            }
            assert(u32_le(u64_lo(y)) =~= buf@.subrange(i as int, i + 4));
            assert forall|k: int| 0 <= k < 4 implies u32_le(u64_hi(y))[k] == buf@.subrange(
                i + 4,
                i + 8,
            )[k] by {
                assert(whole[4 + k] == u32_le(u64_hi(y))[k]);
                assert(buf@[i + (4 + k)] == whole[4 + k]);
                assert(buf@.subrange(i + 4, i + 8)[k] == buf@[i + 4 + k]);
            }
            assert(u32_le(u64_hi(y)) =~= buf@.subrange(i + 4, i + 8));
            lemma_u32_le_inverse(u64_lo(y));
            lemma_u32_le_inverse(u64_hi(y));
            lemma_u64_words_inverse(y);
        }
    }
    x
}

/// If a slice of `buf` is a concatenation, each half is the matching
/// smaller slice.
proof fn lemma_split_subrange(buf: Seq<u8>, i: int, a: Seq<u8>, b: Seq<u8>)
    requires
        0 <= i,
        i + a.len() + b.len() <= buf.len(),
        buf.subrange(i, i + a.len() + b.len()) == a + b,
    ensures
        buf.subrange(i, i + a.len()) == a,
        buf.subrange(i + a.len(), i + a.len() + b.len()) == b,
{
    let alen = a.len() as int;
    let blen = b.len() as int;
    assert forall|k: int| 0 <= k < alen implies buf.subrange(i, i + alen)[k] == a[k] by {
        assert(buf.subrange(i, i + alen + blen)[k] == (a + b)[k]);
    }
    assert(buf.subrange(i, i + alen) =~= a);
    assert forall|k: int| 0 <= k < blen implies buf.subrange(i + alen, i + alen + blen)[k]
        == b[k] by {
        assert(buf.subrange(i, i + alen + blen)[alen + k] == (a + b)[alen + k]);
        assert((a + b)[alen + k] == b[k]);
    }
    assert(buf.subrange(i + alen, i + alen + blen) =~= b);
}

// --- field encodings ---------------------------------------------------------

pub open spec fn pid_byte(p: PlayerId) -> u8 {
    match p {
        PlayerId::Player1 => 1,
        PlayerId::Player2 => 2,
    }
}

pub open spec fn peer_byte(p: PeerRole) -> u8 {
    match p {
        PeerRole::Host => 1,
        PeerRole::Client => 2,
    }
}

pub open spec fn role_byte(r: PlayerRole) -> u8 {
    match r {
        PlayerRole::Attacker => 1,
        PlayerRole::Defender => 2,
    }
}

pub open spec fn dodge_byte(d: DodgeAction) -> u8 {
    match d {
        DodgeAction::Neutral => 0,
        DodgeAction::Crouch => 1,
        DodgeAction::SideLeft => 2,
        DodgeAction::SideRight => 3,
    }
}

pub open spec fn action_byte(a: InputAction) -> u8 {
    match a {
        InputAction::Crouch => 1,
        InputAction::Dodge => 2,
    }
}

pub open spec fn vec2_bytes(v: Vec2i) -> Seq<u8> {
    u32_le(i32_word(v.x)) + u32_le(i32_word(v.y))
}

pub open spec fn vec3_bytes(v: Vec3i) -> Seq<u8> {
    u32_le(i32_word(v.x)) + u32_le(i32_word(v.y)) + u32_le(i32_word(v.z))
}

pub open spec fn snapshot_bytes(s: PlayerSnapshot) -> Seq<u8> {
    vec3_bytes(s.pos) + seq![role_byte(s.role)] + u32_le(s.health)
}

/// An absent optional vector is written as flag 0 followed by a zero vector,
/// so that every variant keeps a fixed length on the wire.
pub open spec fn opt_vec2_bytes(o: Option<Vec2i>) -> Seq<u8> {
    match o {
        Option::None => seq![0u8] + vec2_bytes(Vec2i { x: 0, y: 0 }),
        Option::Some(v) => seq![1u8] + vec2_bytes(v),
    }
}

pub open spec fn opt_action_bytes(o: Option<InputAction>) -> Seq<u8> {
    match o {
        Option::None => seq![0u8, 0u8],
        Option::Some(a) => seq![1u8, action_byte(a)],
    }
}

// --- the message encoding ----------------------------------------------------

pub open spec fn tag_of(m: NetworkMessage) -> u8 {
    match m {
        NetworkMessage::RoomDiscoveryRequest => 0,
        NetworkMessage::RoomDiscoveryResponse { .. } => 1,
        NetworkMessage::JoinRequest { .. } => 2,
        NetworkMessage::JoinAccept { .. } => 3,
        NetworkMessage::JoinReject => 4,
        NetworkMessage::GameState { .. } => 5,
        NetworkMessage::PlayerInput { .. } => 6,
        NetworkMessage::PlayerHit { .. } => 7,
        NetworkMessage::GameOver { .. } => 8,
        NetworkMessage::StartGame => 9,
        NetworkMessage::RoundInfoSync { .. } => 10,
        NetworkMessage::SwitchRoles { .. } => 11,
        NetworkMessage::CrosshairPosition { .. } => 12,
        NetworkMessage::DefenderState { .. } => 13,
        NetworkMessage::BulletSpawn { .. } => 14,
        NetworkMessage::HealthUpdate { .. } => 15,
        NetworkMessage::RematchRequest => 16,
        NetworkMessage::RematchReady => 17,
    }
}

/// The total datagram length of every message with the given tag byte.
pub open spec fn len_of_tag(t: u8) -> int {
    if t == 0 {
        1
    } else if t == 1 {
        6
    } else if t == 2 {
        5
    } else if t == 3 {
        2
    } else if t == 4 {
        1
    } else if t == 5 {
        35
    } else if t == 6 {
        22
    } else if t == 7 {
        6
    } else if t == 8 {
        2
    } else if t == 9 {
        1
    } else if t == 10 {
        26
    } else if t == 11 {
        2
    } else if t == 12 {
        9
    } else if t == 13 {
        14
    } else if t == 14 {
        34
    } else if t == 15 {
        6
    } else if t == 16 {
        1
    } else if t == 17 {
        1
    } else {
        0
    }
}

/// The exact bytes that `encode` produces for a message.
pub open spec fn encoding(m: NetworkMessage) -> Seq<u8> {
    match m {
        NetworkMessage::RoomDiscoveryRequest => seq![0u8],
        NetworkMessage::RoomDiscoveryResponse { room_id, player_name } => seq![1u8] + u32_le(
            room_id,
        ) + seq![peer_byte(player_name)],
        NetworkMessage::JoinRequest { room_id } => seq![2u8] + u32_le(room_id),
        NetworkMessage::JoinAccept { player_id } => seq![3u8, pid_byte(player_id)],
        NetworkMessage::JoinReject => seq![4u8],
        NetworkMessage::GameState { p1, p2 } => seq![5u8] + snapshot_bytes(p1) + snapshot_bytes(
            p2,
        ),
        NetworkMessage::PlayerInput { player_id, movement, action, crosshair_pos } => seq![
            6u8,
            pid_byte(player_id),
        ] + opt_vec2_bytes(movement) + opt_action_bytes(action) + opt_vec2_bytes(crosshair_pos),
        NetworkMessage::PlayerHit { player_id, damage } => seq![7u8, pid_byte(player_id)] + u32_le(
            damage,
        ),
        NetworkMessage::GameOver { winner } => seq![8u8, pid_byte(winner)],
        NetworkMessage::StartGame => seq![9u8],
        NetworkMessage::RoundInfoSync {
            current_attacker,
            bullets_left,
            round_timer_remaining_ms,
            p1_health,
            p2_health,
            bullets_fired,
            bullets_hit,
        } => seq![10u8, pid_byte(current_attacker)] + u32_le(bullets_left) + u32_le(
            round_timer_remaining_ms,
        ) + u32_le(p1_health) + u32_le(p2_health) + u32_le(bullets_fired) + u32_le(bullets_hit),
        NetworkMessage::SwitchRoles { new_attacker } => seq![11u8, pid_byte(new_attacker)],
        NetworkMessage::CrosshairPosition { position } => seq![12u8] + vec2_bytes(position),
        NetworkMessage::DefenderState { position, dodge_action } => seq![13u8] + vec3_bytes(
            position,
        ) + seq![dodge_byte(dodge_action)],
        NetworkMessage::BulletSpawn { bullet_id, owner, start_pos, target_pos, velocity } => seq![
            14u8,
        ] + u32_le(u64_lo(bullet_id)) + u32_le(u64_hi(bullet_id)) + seq![pid_byte(owner)]
            + vec2_bytes(start_pos) + vec2_bytes(target_pos) + vec2_bytes(velocity),
        NetworkMessage::HealthUpdate { player_id, health } => seq![15u8, pid_byte(player_id)]
            + u32_le(health),
        NetworkMessage::RematchRequest => seq![16u8],
        NetworkMessage::RematchReady => seq![17u8],
    }
}

/// Every encoding starts with its tag byte and has the fixed length that
/// the tag determines.
pub proof fn lemma_encoding_shape(m: NetworkMessage)
    ensures
        encoding(m).len() == len_of_tag(tag_of(m)),
        encoding(m).len() >= 1,
        encoding(m)[0] == tag_of(m),
        len_of_tag(tag_of(m)) >= 1,
{
    match m {
        NetworkMessage::RoomDiscoveryRequest => {},
        NetworkMessage::RoomDiscoveryResponse { .. } => {},
        NetworkMessage::JoinRequest { .. } => {},
        NetworkMessage::JoinAccept { .. } => {},
        NetworkMessage::JoinReject => {},
        NetworkMessage::GameState { .. } => {},
        NetworkMessage::PlayerInput { movement, action, crosshair_pos, .. } => {
            assert(opt_vec2_bytes(movement).len() == 9);
            assert(opt_action_bytes(action).len() == 2);
            assert(opt_vec2_bytes(crosshair_pos).len() == 9);
        },
        NetworkMessage::PlayerHit { .. } => {},
        NetworkMessage::GameOver { .. } => {},
        NetworkMessage::StartGame => {},
        NetworkMessage::RoundInfoSync { .. } => {},
        NetworkMessage::SwitchRoles { .. } => {},
        NetworkMessage::CrosshairPosition { .. } => {},
        NetworkMessage::DefenderState { .. } => {},
        NetworkMessage::BulletSpawn { .. } => {},
        NetworkMessage::HealthUpdate { .. } => {},
        NetworkMessage::RematchRequest => {},
        NetworkMessage::RematchReady => {},
    }
}

// --- encoding ----------------------------------------------------------------

fn push_pid(out: &mut Vec<u8>, p: PlayerId)
    ensures
        final(out)@ == old(out)@ + seq![pid_byte(p)],
{
    match p {
        PlayerId::Player1 => out.push(1),
        PlayerId::Player2 => out.push(2),
    }
    assert(out@ =~= old(out)@ + seq![pid_byte(p)]);
}

fn push_vec2(out: &mut Vec<u8>, v: Vec2i)
    ensures
        final(out)@ == old(out)@ + vec2_bytes(v),
{
    push_i32(out, v.x);
    push_i32(out, v.y);
}

fn push_vec3(out: &mut Vec<u8>, v: Vec3i)
    ensures
        final(out)@ == old(out)@ + vec3_bytes(v),
{
    push_i32(out, v.x);
    push_i32(out, v.y);
    push_i32(out, v.z);
}

fn push_snapshot(out: &mut Vec<u8>, s: &PlayerSnapshot)
    ensures
        final(out)@ == old(out)@ + snapshot_bytes(*s),
{
    push_vec3(out, s.pos);
    match s.role {
        PlayerRole::Attacker => out.push(1),
        PlayerRole::Defender => out.push(2),
    }
    assert(out@ =~= old(out)@ + vec3_bytes(s.pos) + seq![role_byte(s.role)]);
    push_u32(out, s.health);
}

fn push_opt_vec2(out: &mut Vec<u8>, o: &Option<Vec2i>)
    ensures
        final(out)@ == old(out)@ + opt_vec2_bytes(*o),
{
    match o {
        Option::None => {
            out.push(0);
            push_vec2(out, Vec2i { x: 0, y: 0 });
        },
        Option::Some(v) => {
            out.push(1);
            push_vec2(out, *v);
        },
    }
    assert(out@ =~= old(out)@ + opt_vec2_bytes(*o));
}

fn push_opt_action(out: &mut Vec<u8>, o: &Option<InputAction>)
    ensures
        final(out)@ == old(out)@ + opt_action_bytes(*o),
{
    match o {
        Option::None => {
            out.push(0);
            out.push(0);
        },
        Option::Some(a) => {
            out.push(1);
            match a {
                InputAction::Crouch => out.push(1),
                InputAction::Dodge => out.push(2),
            }
        },
    }
    assert(out@ =~= old(out)@ + opt_action_bytes(*o));
}

// --- field readers -------------------------------------------------------------

fn read_pid(buf: &Vec<u8>, i: usize) -> (r: Option<PlayerId>)
    requires
        i < buf@.len(),
    ensures
        r matches Some(p) ==> buf@[i as int] == pid_byte(p),
        forall|p: PlayerId| buf@[i as int] == pid_byte(p) ==> r == Some(p),
{
    let b = buf[i];
    if b == 1 {
        Some(PlayerId::Player1)
    } else if b == 2 {
        Some(PlayerId::Player2)
    } else {
        None
    }
}

fn read_peer(buf: &Vec<u8>, i: usize) -> (r: Option<PeerRole>)
    requires
        i < buf@.len(),
    ensures
        r matches Some(p) ==> buf@[i as int] == peer_byte(p),
        forall|p: PeerRole| buf@[i as int] == peer_byte(p) ==> r == Some(p),
{
    let b = buf[i];
    if b == 1 {
        Some(PeerRole::Host)
    } else if b == 2 {
        Some(PeerRole::Client)
    } else {
        None
    }
}

fn read_role(buf: &Vec<u8>, i: usize) -> (r: Option<PlayerRole>)
    requires
        i < buf@.len(),
    ensures
        r matches Some(p) ==> buf@[i as int] == role_byte(p),
        forall|p: PlayerRole| buf@[i as int] == role_byte(p) ==> r == Some(p),
{
    let b = buf[i];
    if b == 1 {
        Some(PlayerRole::Attacker)
    } else if b == 2 {
        Some(PlayerRole::Defender)
    } else {
        None
    }
}

fn read_dodge(buf: &Vec<u8>, i: usize) -> (r: Option<DodgeAction>)
    requires
        i < buf@.len(),
    ensures
        r matches Some(d) ==> buf@[i as int] == dodge_byte(d),
        forall|d: DodgeAction| buf@[i as int] == dodge_byte(d) ==> r == Some(d),
{
    let b = buf[i];
    if b == 0 {
        Some(DodgeAction::Neutral)
    } else if b == 1 {
        Some(DodgeAction::Crouch)
    } else if b == 2 {
        Some(DodgeAction::SideLeft)
    } else if b == 3 {
        Some(DodgeAction::SideRight)
    } else {
        None
    }
}

fn read_vec2(buf: &Vec<u8>, i: usize) -> (v: Vec2i)
    requires
        i + 8 <= buf@.len(),
    ensures
        buf@.subrange(i as int, i + 8) == vec2_bytes(v),
        forall|w: Vec2i| buf@.subrange(i as int, i + 8) == vec2_bytes(w) ==> w == v,
{
    let n: usize = buf.len();
    assert(i + 8 <= n);
    let x = read_i32(buf, i);
    let y = read_i32(buf, i + 4);
    let v = Vec2i { x, y };
    proof {
        assert(buf@.subrange(i as int, i + 8) =~= vec2_bytes(v));
        assert forall|w: Vec2i| buf@.subrange(i as int, i + 8) == vec2_bytes(w) implies w
            == v by {
            lemma_split_subrange(buf@, i as int, u32_le(i32_word(w.x)), u32_le(i32_word(w.y)));
        }
    }
    v
}

fn read_vec3(buf: &Vec<u8>, i: usize) -> (v: Vec3i)
    requires
        i + 12 <= buf@.len(),
    ensures
        buf@.subrange(i as int, i + 12) == vec3_bytes(v),
        forall|w: Vec3i| buf@.subrange(i as int, i + 12) == vec3_bytes(w) ==> w == v,
{
    let n: usize = buf.len();
    assert(i + 12 <= n);
    let x = read_i32(buf, i);
    let y = read_i32(buf, i + 4);
    let z = read_i32(buf, i + 8);
    let v = Vec3i { x, y, z };
    proof {
        assert(buf@.subrange(i as int, i + 12) =~= vec3_bytes(v));
        assert forall|w: Vec3i| buf@.subrange(i as int, i + 12) == vec3_bytes(w) implies w
            == v by {
            let wx = u32_le(i32_word(w.x));
            let wy = u32_le(i32_word(w.y));
            let wz = u32_le(i32_word(w.z));
            assert(vec3_bytes(w) =~= wx + (wy + wz));
            lemma_split_subrange(buf@, i as int, wx, wy + wz);
            lemma_split_subrange(buf@, i + 4, wy, wz);
        }
    }
    v
}

fn read_snapshot(buf: &Vec<u8>, i: usize) -> (r: Option<PlayerSnapshot>)
    requires
        i + 17 <= buf@.len(),
    ensures
        r matches Some(s) ==> buf@.subrange(i as int, i + 17) == snapshot_bytes(s),
        forall|s: PlayerSnapshot| buf@.subrange(i as int, i + 17) == snapshot_bytes(s) ==> r
            == Some(s),
{
    let n: usize = buf.len();
    assert(i + 17 <= n);
    let pos = read_vec3(buf, i);
    let role = match read_role(buf, i + 12) {
        Option::Some(role) => role,
        Option::None => {
            proof {
                assert forall|s: PlayerSnapshot|
                    buf@.subrange(i as int, i + 17) == snapshot_bytes(s) implies false by {
                    assert(buf@[i + 12] == snapshot_bytes(s)[12]);
                    assert(snapshot_bytes(s)[12] == role_byte(s.role));
                }
            }
            return None;
        },
    };
    let health = read_u32(buf, i + 13);
    let snap = PlayerSnapshot { pos, role, health };
    proof {
        assert(buf@.subrange(i as int, i + 17) =~= snapshot_bytes(snap));
        assert forall|s: PlayerSnapshot|
            buf@.subrange(i as int, i + 17) == snapshot_bytes(s) implies Some(snap)
            == Some(s) by {
            let sp = vec3_bytes(s.pos);
            let sr = seq![role_byte(s.role)];
            let sh = u32_le(s.health);
            assert(snapshot_bytes(s) =~= sp + (sr + sh));
            lemma_split_subrange(buf@, i as int, sp, sr + sh);
            lemma_split_subrange(buf@, i + 12, sr, sh);
            assert(buf@[i + 12] == buf@.subrange(i + 12, i + 13)[0]);
            lemma_u32_le_inverse(s.health);
        }
    }
    Some(snap)
}

fn read_opt_vec2(buf: &Vec<u8>, i: usize) -> (r: Option<Option<Vec2i>>)
    requires
        i + 9 <= buf@.len(),
    ensures
        r matches Some(o) ==> buf@.subrange(i as int, i + 9) == opt_vec2_bytes(o),
        forall|o: Option<Vec2i>| buf@.subrange(i as int, i + 9) == opt_vec2_bytes(o) ==> r
            == Some(o),
{
    let n: usize = buf.len();
    assert(i + 9 <= n);
    let flag = buf[i];
    let v = read_vec2(buf, i + 1);
    let r: Option<Option<Vec2i>> = if flag == 0 {
        if v.x == 0 && v.y == 0 {
            Some(Option::None)
        } else {
            None
        }
    } else if flag == 1 {
        Some(Option::Some(v))
    } else {
        None
    };
    proof {
        match r {
            Option::Some(o) => {
                assert(buf@.subrange(i as int, i + 9) =~= opt_vec2_bytes(o));
            },
            Option::None => {},
        }
        assert forall|o: Option<Vec2i>|
            buf@.subrange(i as int, i + 9) == opt_vec2_bytes(o) implies r == Some(o) by {
            assert(buf@[i as int] == opt_vec2_bytes(o)[0]);
            match o {
                Option::None => {
                    assert(opt_vec2_bytes(o)[0] == 0);
                    lemma_split_subrange(
                        buf@,
                        i as int,
                        seq![0u8],
                        vec2_bytes(Vec2i { x: 0, y: 0 }),
                    );
                },
                Option::Some(w) => {
                    assert(opt_vec2_bytes(o)[0] == 1);
                    lemma_split_subrange(buf@, i as int, seq![1u8], vec2_bytes(w));
                },
            }
        }
    }
    r
}

fn read_opt_action(buf: &Vec<u8>, i: usize) -> (r: Option<Option<InputAction>>)
    requires
        i + 2 <= buf@.len(),
    ensures
        r matches Some(o) ==> buf@.subrange(i as int, i + 2) == opt_action_bytes(o),
        forall|o: Option<InputAction>| buf@.subrange(i as int, i + 2) == opt_action_bytes(o) ==> r
            == Some(o),
{
    let n: usize = buf.len();
    assert(i + 2 <= n);
    let flag = buf[i];
    let b = buf[i + 1];
    let r: Option<Option<InputAction>> = if flag == 0 {
        if b == 0 {
            Some(Option::None)
        } else {
            None
        }
    } else if flag == 1 {
        if b == 1 {
            Some(Option::Some(InputAction::Crouch))
        } else if b == 2 {
            Some(Option::Some(InputAction::Dodge))
        } else {
            None
        }
    } else {
        None
    };
    proof {
        match r {
            Option::Some(o) => {
                assert(buf@.subrange(i as int, i + 2) =~= opt_action_bytes(o));
            },
            Option::None => {},
        }
        assert forall|o: Option<InputAction>|
            buf@.subrange(i as int, i + 2) == opt_action_bytes(o) implies r == Some(o) by {
            assert(buf@[i as int] == opt_action_bytes(o)[0]);
            assert(buf@[i + 1] == opt_action_bytes(o)[1]);
        }
    }
    r
}

/// Serialize one message into the bytes of one datagram.
pub fn encode(m: &NetworkMessage) -> (r: Vec<u8>)
    ensures
        r@ == encoding(*m),
{
    let mut out: Vec<u8> = Vec::new();
    match m {
        NetworkMessage::RoomDiscoveryRequest => {
            out.push(0);
        },
        NetworkMessage::RoomDiscoveryResponse { room_id, player_name } => {
            out.push(1);
            push_u32(&mut out, *room_id);
            match player_name {
                PeerRole::Host => out.push(1),
                PeerRole::Client => out.push(2),
            }
        },
        NetworkMessage::JoinRequest { room_id } => {
            out.push(2);
            push_u32(&mut out, *room_id);
        },
        NetworkMessage::JoinAccept { player_id } => {
            out.push(3);
            push_pid(&mut out, *player_id);
        },
        NetworkMessage::JoinReject => {
            out.push(4);
        },
        NetworkMessage::GameState { p1, p2 } => {
            out.push(5);
            push_snapshot(&mut out, p1);
            push_snapshot(&mut out, p2);
        },
        NetworkMessage::PlayerInput { player_id, movement, action, crosshair_pos } => {
            out.push(6);
            push_pid(&mut out, *player_id);
            push_opt_vec2(&mut out, movement);
            push_opt_action(&mut out, action);
            push_opt_vec2(&mut out, crosshair_pos);
        },
        NetworkMessage::PlayerHit { player_id, damage } => {
            out.push(7);
            push_pid(&mut out, *player_id);
            push_u32(&mut out, *damage);
        },
        NetworkMessage::GameOver { winner } => {
            out.push(8);
            push_pid(&mut out, *winner);
        },
        NetworkMessage::StartGame => {
            out.push(9);
        },
        NetworkMessage::RoundInfoSync {
            current_attacker,
            bullets_left,
            round_timer_remaining_ms,
            p1_health,
            p2_health,
            bullets_fired,
            bullets_hit,
        } => {
            out.push(10);
            push_pid(&mut out, *current_attacker);
            push_u32(&mut out, *bullets_left);
            push_u32(&mut out, *round_timer_remaining_ms);
            push_u32(&mut out, *p1_health);
            push_u32(&mut out, *p2_health);
            push_u32(&mut out, *bullets_fired);
            push_u32(&mut out, *bullets_hit);
        },
        NetworkMessage::SwitchRoles { new_attacker } => {
            out.push(11);
            push_pid(&mut out, *new_attacker);
        },
        NetworkMessage::CrosshairPosition { position } => {
            out.push(12);
            push_vec2(&mut out, *position);
        },
        NetworkMessage::DefenderState { position, dodge_action } => {
            out.push(13);
            push_vec3(&mut out, *position);
            match dodge_action {
                DodgeAction::Neutral => out.push(0),
                DodgeAction::Crouch => out.push(1),
                DodgeAction::SideLeft => out.push(2),
                DodgeAction::SideRight => out.push(3),
            }
        },
        NetworkMessage::BulletSpawn { bullet_id, owner, start_pos, target_pos, velocity } => {
            out.push(14);
            push_u64(&mut out, *bullet_id);
            push_pid(&mut out, *owner);
            push_vec2(&mut out, *start_pos);
            push_vec2(&mut out, *target_pos);
            push_vec2(&mut out, *velocity);
        },
        NetworkMessage::HealthUpdate { player_id, health } => {
            out.push(15);
            push_pid(&mut out, *player_id);
            push_u32(&mut out, *health);
        },
        NetworkMessage::RematchRequest => {
            out.push(16);
        },
        NetworkMessage::RematchReady => {
            out.push(17);
        },
    }
    assert(out@ =~= encoding(*m));
    out
}

// --- decoding ------------------------------------------------------------------

fn expected_len(t: u8) -> (r: usize)
    ensures
        r == len_of_tag(t),
{
    if t == 0 {
        1
    } else if t == 1 {
        6
    } else if t == 2 {
        5
    } else if t == 3 {
        2
    } else if t == 4 {
        1
    } else if t == 5 {
        35
    } else if t == 6 {
        22
    } else if t == 7 {
        6
    } else if t == 8 {
        2
    } else if t == 9 {
        1
    } else if t == 10 {
        26
    } else if t == 11 {
        2
    } else if t == 12 {
        9
    } else if t == 13 {
        14
    } else if t == 14 {
        34
    } else if t == 15 {
        6
    } else if t == 16 {
        1
    } else if t == 17 {
        1
    } else {
        0
    }
}

fn decode_room_discovery_response(buf: &Vec<u8>) -> (r: Option<NetworkMessage>)
    requires
        buf@.len() == 6,
        buf@[0] == 1,
    ensures
        r matches Some(m) ==> buf@ == encoding(m),
        forall|m: NetworkMessage| buf@ == encoding(m) ==> r == Some(m),
{
    let room_id = read_u32(buf, 1);
    let r = match read_peer(buf, 5) {
        Option::Some(player_name) => Some(
            NetworkMessage::RoomDiscoveryResponse { room_id, player_name },
        ),
        Option::None => None,
    };
    proof {
        match r {
            Option::Some(m) => {
                assert(buf@ =~= buf@.subrange(0, 1) + buf@.subrange(1, 5) + buf@.subrange(5, 6));
                assert(buf@.subrange(0, 1) =~= seq![1u8]);
                assert(buf@.subrange(5, 6) =~= seq![peer_byte(m->player_name)]);
            },
            Option::None => {},
        }
        assert forall|m: NetworkMessage| buf@ == encoding(m) implies r == Some(m) by {
            lemma_encoding_shape(m);
            match m {
                NetworkMessage::RoomDiscoveryResponse { room_id: rid, player_name: pn } => {
                    assert(buf@.subrange(0, 6) =~= buf@);
                    lemma_split_subrange(buf@, 0, seq![1u8] + u32_le(rid), seq![peer_byte(pn)]);
                    lemma_split_subrange(buf@, 0, seq![1u8], u32_le(rid));
                    assert(buf@[5] == buf@.subrange(5, 6)[0]);
                },
                _ => {},
            }
        }
    }
    r
}

fn decode_game_state(buf: &Vec<u8>) -> (r: Option<NetworkMessage>)
    requires
        buf@.len() == 35,
        buf@[0] == 5,
    ensures
        r matches Some(m) ==> buf@ == encoding(m),
        forall|m: NetworkMessage| buf@ == encoding(m) ==> r == Some(m),
{
    proof {
        assert forall|m: NetworkMessage| buf@ == encoding(m) implies {
            &&& m is GameState
            &&& buf@.subrange(1, 18) == snapshot_bytes(m->GameState_p1)
            &&& buf@.subrange(18, 35) == snapshot_bytes(m->GameState_p2)
        } by {
            lemma_encoding_shape(m);
            match m {
                NetworkMessage::GameState { p1, p2 } => {
                    assert(buf@.subrange(0, 35) =~= buf@);
                    lemma_split_subrange(buf@, 0, seq![5u8] + snapshot_bytes(p1), snapshot_bytes(p2));
                    lemma_split_subrange(buf@, 0, seq![5u8], snapshot_bytes(p1));
                },
                _ => {},
            }
        }
    }
    let p1 = match read_snapshot(buf, 1) {
        Option::Some(s) => s,
        Option::None => {
            return None;
        },
    };
    let p2 = match read_snapshot(buf, 18) {
        Option::Some(s) => s,
        Option::None => {
            return None;
        },
    };
    let m = NetworkMessage::GameState { p1, p2 };
    proof {
        assert(buf@ =~= buf@.subrange(0, 1) + buf@.subrange(1, 18) + buf@.subrange(18, 35));
        assert(buf@.subrange(0, 1) =~= seq![5u8]);
    }
    Some(m)
}

fn decode_player_input(buf: &Vec<u8>) -> (r: Option<NetworkMessage>)
    requires
        buf@.len() == 22,
        buf@[0] == 6,
    ensures
        r matches Some(m) ==> buf@ == encoding(m),
        forall|m: NetworkMessage| buf@ == encoding(m) ==> r == Some(m),
{
    proof {
        assert forall|m: NetworkMessage| buf@ == encoding(m) implies {
            &&& m is PlayerInput
            &&& buf@[1] == pid_byte(m->PlayerInput_player_id)
            &&& buf@.subrange(2, 11) == opt_vec2_bytes(m->PlayerInput_movement)
            &&& buf@.subrange(11, 13) == opt_action_bytes(m->PlayerInput_action)
            &&& buf@.subrange(13, 22) == opt_vec2_bytes(m->PlayerInput_crosshair_pos)
        } by {
            lemma_encoding_shape(m);
            match m {
                NetworkMessage::PlayerInput { player_id, movement, action, crosshair_pos } => {
                    assert(buf@.subrange(0, 22) =~= buf@);
                    lemma_split_subrange(
                        buf@,
                        0,
                        seq![6u8, pid_byte(player_id)] + opt_vec2_bytes(movement)
                            + opt_action_bytes(action),
                        opt_vec2_bytes(crosshair_pos),
                    );
                    lemma_split_subrange(
                        buf@,
                        0,
                        seq![6u8, pid_byte(player_id)] + opt_vec2_bytes(movement),
                        opt_action_bytes(action),
                    );
                    lemma_split_subrange(
                        buf@,
                        0,
                        seq![6u8, pid_byte(player_id)],
                        opt_vec2_bytes(movement),
                    );
                    assert(buf@[1] == buf@.subrange(0, 2)[1]);
                },
                _ => {},
            }
        }
    }
    let player_id = match read_pid(buf, 1) {
        Option::Some(p) => p,
        Option::None => {
            return None;
        },
    };
    let movement = match read_opt_vec2(buf, 2) {
        Option::Some(o) => o,
        Option::None => {
            return None;
        },
    };
    let action = match read_opt_action(buf, 11) {
        Option::Some(o) => o,
        Option::None => {
            return None;
        },
    };
    let crosshair_pos = match read_opt_vec2(buf, 13) {
        Option::Some(o) => o,
        Option::None => {
            return None;
        },
    };
    let m = NetworkMessage::PlayerInput { player_id, movement, action, crosshair_pos };
    proof {
        assert(buf@ =~= buf@.subrange(0, 2) + buf@.subrange(2, 11) + buf@.subrange(11, 13)
            + buf@.subrange(13, 22));
        assert(buf@.subrange(0, 2) =~= seq![6u8, pid_byte(player_id)]);
    }
    Some(m)
}

fn decode_round_info_sync(buf: &Vec<u8>) -> (r: Option<NetworkMessage>)
    requires
        buf@.len() == 26,
        buf@[0] == 10,
    ensures
        r matches Some(m) ==> buf@ == encoding(m),
        forall|m: NetworkMessage| buf@ == encoding(m) ==> r == Some(m),
{
    proof {
        assert forall|m: NetworkMessage| buf@ == encoding(m) implies {
            &&& m is RoundInfoSync
            &&& buf@[1] == pid_byte(m->RoundInfoSync_current_attacker)
            &&& buf@.subrange(2, 6) == u32_le(m->RoundInfoSync_bullets_left)
            &&& buf@.subrange(6, 10) == u32_le(m->RoundInfoSync_round_timer_remaining_ms)
            &&& buf@.subrange(10, 14) == u32_le(m->RoundInfoSync_p1_health)
            &&& buf@.subrange(14, 18) == u32_le(m->RoundInfoSync_p2_health)
            &&& buf@.subrange(18, 22) == u32_le(m->RoundInfoSync_bullets_fired)
            &&& buf@.subrange(22, 26) == u32_le(m->RoundInfoSync_bullets_hit)
        } by {
            lemma_encoding_shape(m);
            match m {
                NetworkMessage::RoundInfoSync {
                    current_attacker,
                    bullets_left,
                    round_timer_remaining_ms,
                    p1_health,
                    p2_health,
                    bullets_fired,
                    bullets_hit,
                } => {
                    let s0 = seq![10u8, pid_byte(current_attacker)];
                    let s1 = s0 + u32_le(bullets_left);
                    let s2 = s1 + u32_le(round_timer_remaining_ms);
                    let s3 = s2 + u32_le(p1_health);
                    let s4 = s3 + u32_le(p2_health);
                    let s5 = s4 + u32_le(bullets_fired);
                    assert(buf@.subrange(0, 26) =~= buf@);
                    lemma_split_subrange(buf@, 0, s5, u32_le(bullets_hit));
                    lemma_split_subrange(buf@, 0, s4, u32_le(bullets_fired));
                    lemma_split_subrange(buf@, 0, s3, u32_le(p2_health));
                    lemma_split_subrange(buf@, 0, s2, u32_le(p1_health));
                    lemma_split_subrange(buf@, 0, s1, u32_le(round_timer_remaining_ms));
                    lemma_split_subrange(buf@, 0, s0, u32_le(bullets_left));
                    assert(buf@[1] == buf@.subrange(0, 2)[1]);
                },
                _ => {},
            }
        }
    }
    let current_attacker = match read_pid(buf, 1) {
        Option::Some(p) => p,
        Option::None => {
            return None;
        },
    };
    let bullets_left = read_u32(buf, 2);
    let round_timer_remaining_ms = read_u32(buf, 6);
    let p1_health = read_u32(buf, 10);
    let p2_health = read_u32(buf, 14);
    let bullets_fired = read_u32(buf, 18);
    let bullets_hit = read_u32(buf, 22);
    let m = NetworkMessage::RoundInfoSync {
        current_attacker,
        bullets_left,
        round_timer_remaining_ms,
        p1_health,
        p2_health,
        bullets_fired,
        bullets_hit,
    };
    proof {
        assert(buf@ =~= buf@.subrange(0, 2) + buf@.subrange(2, 6) + buf@.subrange(6, 10)
            + buf@.subrange(10, 14) + buf@.subrange(14, 18) + buf@.subrange(18, 22)
            + buf@.subrange(22, 26));
        assert(buf@.subrange(0, 2) =~= seq![10u8, pid_byte(current_attacker)]);
    }
    Some(m)
}

fn decode_defender_state(buf: &Vec<u8>) -> (r: Option<NetworkMessage>)
    requires
        buf@.len() == 14,
        buf@[0] == 13,
    ensures
        r matches Some(m) ==> buf@ == encoding(m),
        forall|m: NetworkMessage| buf@ == encoding(m) ==> r == Some(m),
{
    proof {
        assert forall|m: NetworkMessage| buf@ == encoding(m) implies {
            &&& m is DefenderState
            &&& buf@.subrange(1, 13) == vec3_bytes(m->DefenderState_position)
            &&& buf@[13] == dodge_byte(m->DefenderState_dodge_action)
        } by {
            lemma_encoding_shape(m);
            match m {
                NetworkMessage::DefenderState { position, dodge_action } => {
                    assert(buf@.subrange(0, 14) =~= buf@);
                    lemma_split_subrange(
                        buf@,
                        0,
                        seq![13u8] + vec3_bytes(position),
                        seq![dodge_byte(dodge_action)],
                    );
                    lemma_split_subrange(buf@, 0, seq![13u8], vec3_bytes(position));
                    assert(buf@[13] == buf@.subrange(13, 14)[0]);
                },
                _ => {},
            }
        }
    }
    let position = read_vec3(buf, 1);
    let dodge_action = match read_dodge(buf, 13) {
        Option::Some(d) => d,
        Option::None => {
            return None;
        },
    };
    let m = NetworkMessage::DefenderState { position, dodge_action };
    proof {
        assert(buf@ =~= buf@.subrange(0, 1) + buf@.subrange(1, 13) + buf@.subrange(13, 14));
        assert(buf@.subrange(0, 1) =~= seq![13u8]);
        assert(buf@.subrange(13, 14) =~= seq![dodge_byte(dodge_action)]);
    }
    Some(m)
}

fn decode_bullet_spawn(buf: &Vec<u8>) -> (r: Option<NetworkMessage>)
    requires
        buf@.len() == 34,
        buf@[0] == 14,
    ensures
        r matches Some(m) ==> buf@ == encoding(m),
        forall|m: NetworkMessage| buf@ == encoding(m) ==> r == Some(m),
{
    proof {
        assert forall|m: NetworkMessage| buf@ == encoding(m) implies {
            &&& m is BulletSpawn
            &&& buf@.subrange(1, 9) == u32_le(u64_lo(m->BulletSpawn_bullet_id)) + u32_le(
                u64_hi(m->BulletSpawn_bullet_id),
            )
            &&& buf@[9] == pid_byte(m->BulletSpawn_owner)
            &&& buf@.subrange(10, 18) == vec2_bytes(m->BulletSpawn_start_pos)
            &&& buf@.subrange(18, 26) == vec2_bytes(m->BulletSpawn_target_pos)
            &&& buf@.subrange(26, 34) == vec2_bytes(m->BulletSpawn_velocity)
        } by {
            lemma_encoding_shape(m);
            match m {
                NetworkMessage::BulletSpawn { bullet_id, owner, start_pos, target_pos, velocity } => {
                    let s0 = seq![14u8];
                    let s1 = s0 + u32_le(u64_lo(bullet_id));
                    let s2 = s1 + u32_le(u64_hi(bullet_id));
                    let s3 = s2 + seq![pid_byte(owner)];
                    let s4 = s3 + vec2_bytes(start_pos);
                    let s5 = s4 + vec2_bytes(target_pos);
                    assert(buf@.subrange(0, 34) =~= buf@);
                    lemma_split_subrange(buf@, 0, s5, vec2_bytes(velocity));
                    lemma_split_subrange(buf@, 0, s4, vec2_bytes(target_pos));
                    lemma_split_subrange(buf@, 0, s3, vec2_bytes(start_pos));
                    lemma_split_subrange(buf@, 0, s2, seq![pid_byte(owner)]);
                    lemma_split_subrange(buf@, 0, s1, u32_le(u64_hi(bullet_id)));
                    lemma_split_subrange(buf@, 0, s0, u32_le(u64_lo(bullet_id)));
                    assert(buf@[9] == buf@.subrange(9, 10)[0]);
                    assert(buf@.subrange(1, 9) =~= buf@.subrange(1, 5) + buf@.subrange(5, 9));
                },
                _ => {},
            }
        }
    }
    let bullet_id = read_u64(buf, 1);
    let owner = match read_pid(buf, 9) {
        Option::Some(p) => p,
        Option::None => {
            return None;
        },
    };
    let start_pos = read_vec2(buf, 10);
    let target_pos = read_vec2(buf, 18);
    let velocity = read_vec2(buf, 26);
    let m = NetworkMessage::BulletSpawn { bullet_id, owner, start_pos, target_pos, velocity };
    proof {
        assert(buf@ =~= buf@.subrange(0, 1) + buf@.subrange(1, 5) + buf@.subrange(5, 9)
            + buf@.subrange(9, 10) + buf@.subrange(10, 18) + buf@.subrange(18, 26) + buf@.subrange(
            26,
            34,
        ));
        assert(buf@.subrange(0, 1) =~= seq![14u8]);
        assert(buf@.subrange(9, 10) =~= seq![pid_byte(owner)]);
        lemma_split_subrange(
            buf@,
            1,
            u32_le(u64_lo(bullet_id)),
            u32_le(u64_hi(bullet_id)),
        );
    }
    Some(m)
}

/// Parse the bytes of one datagram. Returns `Some(m)` exactly when the buffer
/// is the encoding of `m`; anything else is rejected as malformed.
#[verifier::rlimit(100)]
pub fn decode(buf: &Vec<u8>) -> (r: Option<NetworkMessage>)
    ensures
        r matches Some(m) ==> buf@ == encoding(m),
        forall|m: NetworkMessage| buf@ == encoding(m) ==> r == Some(m),
{
    let n = buf.len();
    if n == 0 {
        proof {
            assert forall|m: NetworkMessage| buf@ == encoding(m) implies false by {
                lemma_encoding_shape(m);
            }
        }
        return None;
    }
    let t = buf[0];
    let expected = expected_len(t);
    if n != expected {
        proof {
            assert forall|m: NetworkMessage| buf@ == encoding(m) implies false by {
                lemma_encoding_shape(m);
            }
        }
        return None;
    }
    if t == 0 {
        proof {
            assert(buf@ =~= seq![0u8]);
            assert forall|m: NetworkMessage| buf@ == encoding(m) implies m
                == NetworkMessage::RoomDiscoveryRequest by {
                lemma_encoding_shape(m);
            }
        }
        Some(NetworkMessage::RoomDiscoveryRequest)
    } else if t == 1 {
        decode_room_discovery_response(buf)
    } else if t == 2 {
        let room_id = read_u32(buf, 1);
        let m = NetworkMessage::JoinRequest { room_id };
        proof {
            assert(buf@ =~= buf@.subrange(0, 1) + buf@.subrange(1, 5));
            assert(buf@.subrange(0, 1) =~= seq![2u8]);
            assert forall|m0: NetworkMessage| buf@ == encoding(m0) implies Some(m) == Some(
                m0,
            ) by {
                lemma_encoding_shape(m0);
                match m0 {
                    NetworkMessage::JoinRequest { room_id: rid } => {
                        assert(buf@.subrange(0, 5) =~= buf@);
                        lemma_split_subrange(buf@, 0, seq![2u8], u32_le(rid));
                    },
                    _ => {},
                }
            }
        }
        Some(m)
    } else if t == 3 {
        let r = match read_pid(buf, 1) {
            Option::Some(p) => Some(NetworkMessage::JoinAccept { player_id: p }),
            Option::None => None,
        };
        proof {
            match r {
                Option::Some(m) => {
                    assert(buf@ =~= seq![3u8, pid_byte(m->JoinAccept_player_id)]);
                },
                Option::None => {},
            }
            assert forall|m: NetworkMessage| buf@ == encoding(m) implies r == Some(m) by {
                lemma_encoding_shape(m);
            }
        }
        r
    } else if t == 4 {
        proof {
            assert(buf@ =~= seq![4u8]);
            assert forall|m: NetworkMessage| buf@ == encoding(m) implies m
                == NetworkMessage::JoinReject by {
                lemma_encoding_shape(m);
            }
        }
        Some(NetworkMessage::JoinReject)
    } else if t == 5 {
        decode_game_state(buf)
    } else if t == 6 {
        decode_player_input(buf)
    } else if t == 7 {
        let player_id = match read_pid(buf, 1) {
            Option::Some(p) => p,
            Option::None => {
                proof {
                    assert forall|m: NetworkMessage| buf@ == encoding(m) implies false by {
                        lemma_encoding_shape(m);
                    }
                }
                return None;
            },
        };
        let damage = read_u32(buf, 2);
        let m = NetworkMessage::PlayerHit { player_id, damage };
        proof {
            assert(buf@ =~= buf@.subrange(0, 2) + buf@.subrange(2, 6));
            assert(buf@.subrange(0, 2) =~= seq![7u8, pid_byte(player_id)]);
            assert forall|m0: NetworkMessage| buf@ == encoding(m0) implies Some(m) == Some(
                m0,
            ) by {
                lemma_encoding_shape(m0);
                match m0 {
                    NetworkMessage::PlayerHit { player_id: p0, damage: d0 } => {
                        assert(buf@.subrange(0, 6) =~= buf@);
                        lemma_split_subrange(buf@, 0, seq![7u8, pid_byte(p0)], u32_le(d0));
                        assert(buf@[1] == buf@.subrange(0, 2)[1]);
                    },
                    _ => {},
                }
            }
        }
        Some(m)
    } else if t == 8 {
        let r = match read_pid(buf, 1) {
            Option::Some(p) => Some(NetworkMessage::GameOver { winner: p }),
            Option::None => None,
        };
        proof {
            match r {
                Option::Some(m) => {
                    assert(buf@ =~= seq![8u8, pid_byte(m->GameOver_winner)]);
                },
                Option::None => {},
            }
            assert forall|m: NetworkMessage| buf@ == encoding(m) implies r == Some(m) by {
                lemma_encoding_shape(m);
            }
        }
        r
    } else if t == 9 {
        proof {
            assert(buf@ =~= seq![9u8]);
            assert forall|m: NetworkMessage| buf@ == encoding(m) implies m
                == NetworkMessage::StartGame by {
                lemma_encoding_shape(m);
            }
        }
        Some(NetworkMessage::StartGame)
    } else if t == 10 {
        decode_round_info_sync(buf)
    } else if t == 11 {
        let r = match read_pid(buf, 1) {
            Option::Some(p) => Some(NetworkMessage::SwitchRoles { new_attacker: p }),
            Option::None => None,
        };
        proof {
            match r {
                Option::Some(m) => {
                    assert(buf@ =~= seq![11u8, pid_byte(m->SwitchRoles_new_attacker)]);
                },
                Option::None => {},
            }
            assert forall|m: NetworkMessage| buf@ == encoding(m) implies r == Some(m) by {
                lemma_encoding_shape(m);
            }
        }
        r
    } else if t == 12 {
        let position = read_vec2(buf, 1);
        let m = NetworkMessage::CrosshairPosition { position };
        proof {
            assert(buf@ =~= buf@.subrange(0, 1) + buf@.subrange(1, 9));
            assert(buf@.subrange(0, 1) =~= seq![12u8]);
            assert forall|m0: NetworkMessage| buf@ == encoding(m0) implies Some(m) == Some(
                m0,
            ) by {
                lemma_encoding_shape(m0);
                match m0 {
                    NetworkMessage::CrosshairPosition { position: p0 } => {
                        assert(buf@.subrange(0, 9) =~= buf@);
                        lemma_split_subrange(buf@, 0, seq![12u8], vec2_bytes(p0));
                    },
                    _ => {},
                }
            }
        }
        Some(m)
    } else if t == 13 {
        decode_defender_state(buf)
    } else if t == 14 {
        decode_bullet_spawn(buf)
    } else if t == 15 {
        let player_id = match read_pid(buf, 1) {
            Option::Some(p) => p,
            Option::None => {
                proof {
                    assert forall|m: NetworkMessage| buf@ == encoding(m) implies false by {
                        lemma_encoding_shape(m);
                    }
                }
                return None;
            },
        };
        let health = read_u32(buf, 2);
        let m = NetworkMessage::HealthUpdate { player_id, health };
        proof {
            assert(buf@ =~= buf@.subrange(0, 2) + buf@.subrange(2, 6));
            assert(buf@.subrange(0, 2) =~= seq![15u8, pid_byte(player_id)]);
            assert forall|m0: NetworkMessage| buf@ == encoding(m0) implies Some(m) == Some(
                m0,
            ) by {
                lemma_encoding_shape(m0);
                match m0 {
                    NetworkMessage::HealthUpdate { player_id: p0, health: h0 } => {
                        assert(buf@.subrange(0, 6) =~= buf@);
                        lemma_split_subrange(buf@, 0, seq![15u8, pid_byte(p0)], u32_le(h0));
                        assert(buf@[1] == buf@.subrange(0, 2)[1]);
                    },
                    _ => {},
                }
            }
        }
        Some(m)
    } else if t == 16 {
        proof {
            assert(buf@ =~= seq![16u8]);
            assert forall|m: NetworkMessage| buf@ == encoding(m) implies m
                == NetworkMessage::RematchRequest by {
                lemma_encoding_shape(m);
            }
        }
        Some(NetworkMessage::RematchRequest)
    } else {
        proof {
            assert(buf@ =~= seq![17u8]);
            assert forall|m: NetworkMessage| buf@ == encoding(m) implies m
                == NetworkMessage::RematchReady by {
                lemma_encoding_shape(m);
            }
        }
        Some(NetworkMessage::RematchReady)
    }
}

} // verus!
