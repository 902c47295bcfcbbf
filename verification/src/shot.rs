//! Hit resolution for the attacker's shot.
//!
//! The attacker's side owns collision detection: it tests the aim point
//! against the defender's last-known position and pose, classifies the
//! struck body part, and derives the damage. All geometry is exact
//! integer arithmetic on world units; comparisons against the fractional
//! thresholds of the design are done cross-multiplied.

use vstd::prelude::*;
use crate::consts::COORD_LIMIT;
use crate::consts::DAMAGE_HEAD;
use crate::consts::DAMAGE_LEGS;
use crate::consts::DAMAGE_TORSO;
use crate::consts::PLAYER_HEIGHT;
use crate::consts::PLAYER_HEIGHT_CROUCHED;
use crate::consts::PLAYER_WIDTH;
use crate::msg::Vec2i;

verus! {

/// The body part a shot struck.
#[derive(Clone, Copy, Debug, PartialEq, Eq, Structural)]
pub enum HitboxType {
    Head,
    Torso,
    Legs,
}

pub open spec fn abs_spec(x: int) -> int {
    if x >= 0 {
        x
    } else {
        -x
    }
}

/// Height of the defender's hitbox in its current pose: crouching
/// shrinks it to seven tenths.
pub open spec fn hitbox_height(crouching: bool) -> int {
    if crouching {
        PLAYER_HEIGHT_CROUCHED as int
    } else {
        PLAYER_HEIGHT as int
    }
}

/// Where a shot aimed at `target` lands on a defender at `defender`:
/// - outside one and a half hitbox radii (slack for network latency), a miss;
/// - outside 1.2 of the half-extents on either axis, a miss;
/// - above 0.3 of the half-height, the head;
/// - above -0.2 of the half-height, the torso;
/// - below that, the legs.
pub open spec fn classify_hit_spec(target: Vec2i, defender: Vec2i, crouching: bool) -> Option<
    HitboxType,
> {
    let ox = target.x - defender.x;
    let oy = target.y - defender.y;
    let w = PLAYER_WIDTH as int;
    let h = hitbox_height(crouching);
    if 16 * (ox * ox + oy * oy) > 9 * (w * w + h * h) {
        Option::None
    } else if 10 * abs_spec(ox) > 6 * w || 10 * abs_spec(oy) > 6 * h {
        Option::None
    } else if 20 * oy > 3 * h {
        Option::Some(HitboxType::Head)
    } else if 10 * oy > -h {
        Option::Some(HitboxType::Torso)
    } else {
        Option::Some(HitboxType::Legs)
    }
}

/// Resolve one shot against the defender.
pub fn resolve_shot(target: Vec2i, defender: Vec2i, crouching: bool) -> (r: Option<HitboxType>)
    requires
        -COORD_LIMIT <= target.x <= COORD_LIMIT,
        -COORD_LIMIT <= target.y <= COORD_LIMIT,
        -COORD_LIMIT <= defender.x <= COORD_LIMIT,
        -COORD_LIMIT <= defender.y <= COORD_LIMIT,
    ensures
        r == classify_hit_spec(target, defender, crouching),
{
    let ox: i64 = target.x as i64 - defender.x as i64;
    let oy: i64 = target.y as i64 - defender.y as i64;
    let w: i64 = PLAYER_WIDTH as i64;
    let h: i64 = if crouching {
        PLAYER_HEIGHT_CROUCHED as i64
    } else {
        PLAYER_HEIGHT as i64
    };
    proof {
        assert(ox * ox <= 4000000000000 && oy * oy <= 4000000000000) by (nonlinear_arith)
            requires
                -2000000 <= ox <= 2000000,
                -2000000 <= oy <= 2000000,
        ;
        assert(ox * ox >= 0 && oy * oy >= 0) by (nonlinear_arith);
        assert(w * w == 2500) by (nonlinear_arith)
            requires
                w == 50,
        ;
        assert(h * h == 4900 || h * h == 10000) by (nonlinear_arith)
            requires
                h == 70 || h == 100,
        ;
    }
    let dist2: i64 = ox * ox + oy * oy;
    if 16 * dist2 > 9 * (w * w + h * h) {
        return None;
    }
    let ax: i64 = if ox >= 0 {
        ox
    } else {
        -ox
    };
    let ay: i64 = if oy >= 0 {
        oy
    } else {
        -oy
    };
    if 10 * ax > 6 * w || 10 * ay > 6 * h {
        return None;
    }
    if 20 * oy > 3 * h {
        Some(HitboxType::Head)
    } else if 10 * oy > -h {
        Some(HitboxType::Torso)
    } else {
        Some(HitboxType::Legs)
    }
}

pub open spec fn damage_of_spec(hit: HitboxType) -> u32 {
    match hit {
        HitboxType::Head => DAMAGE_HEAD,
        HitboxType::Torso => DAMAGE_TORSO,
        HitboxType::Legs => DAMAGE_LEGS,
    }
}

/// Damage dealt by a hit on each body part.
pub fn damage_of(hit: HitboxType) -> (d: u32)
    ensures
        d == damage_of_spec(hit),
{
    match hit {
        HitboxType::Head => DAMAGE_HEAD,
        HitboxType::Torso => DAMAGE_TORSO,
        HitboxType::Legs => DAMAGE_LEGS,
    }
}

} // verus!
