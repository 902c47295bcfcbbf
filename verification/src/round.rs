//! The authoritative round state: bullets remaining, round timer, current
//! attacker, both healths, per-round counters, and the switching flag that
//! gates re-entry into the role switch.
//!
//! The host mutates this state and broadcasts it; the client mirrors what
//! the host last sent and never decides the attacker on its own.

use vstd::prelude::*;
use crate::consts::BULLETS_PER_ROUND;
use crate::consts::PLAYER_HP;
use crate::consts::ROUND_TIME_MS;
use crate::player::PlayerId;

verus! {

/// One game session's round bookkeeping. Created at game start, reset on
/// every round switch and on rematch.
#[derive(Clone, Copy, Debug, PartialEq, Eq, Structural)]
pub struct RoundInfo {
    pub bullets_left: u32,
    /// Remaining round time, counting down from `ROUND_TIME_MS`.
    pub round_timer_ms: u32,
    pub current_attacker: PlayerId,
    pub p1_health: u32,
    pub p2_health: u32,
    pub bullets_fired_this_round: u32,
    pub bullets_hit_defender: u32,
    /// Set once the round-switch transition has been triggered; gates the
    /// trigger so it cannot fire twice while bullets are still clearing.
    pub is_switching: bool,
}

impl RoundInfo {
    /// The data-model ranges: at most three bullets, at most thirty
    /// seconds on the clock, health within 0..=100.
    pub open spec fn wf(self) -> bool {
        &&& self.bullets_left <= BULLETS_PER_ROUND
        &&& self.round_timer_ms <= ROUND_TIME_MS
        &&& self.p1_health <= PLAYER_HP
        &&& self.p2_health <= PLAYER_HP
    }

    pub open spec fn health_of_spec(self, id: PlayerId) -> u32 {
        match id {
            PlayerId::Player1 => self.p1_health,
            PlayerId::Player2 => self.p2_health,
        }
    }

    pub open spec fn new_spec(attacker: PlayerId) -> RoundInfo {
        RoundInfo {
            bullets_left: BULLETS_PER_ROUND,
            round_timer_ms: ROUND_TIME_MS,
            current_attacker: attacker,
            p1_health: PLAYER_HP,
            p2_health: PLAYER_HP,
            bullets_fired_this_round: 0,
            bullets_hit_defender: 0,
            is_switching: false,
        }
    }

    /// A fresh round at the start of a session or after a rematch.
    pub fn new(attacker: PlayerId) -> (r: RoundInfo)
        ensures
            r.wf(),
            r == RoundInfo::new_spec(attacker),
            r == (RoundInfo {
                bullets_left: BULLETS_PER_ROUND,
                round_timer_ms: ROUND_TIME_MS,
                current_attacker: attacker,
                p1_health: PLAYER_HP,
                p2_health: PLAYER_HP,
                bullets_fired_this_round: 0,
                bullets_hit_defender: 0,
                is_switching: false,
            }),
    {
        RoundInfo {
            bullets_left: BULLETS_PER_ROUND,
            round_timer_ms: ROUND_TIME_MS,
            current_attacker: attacker,
            p1_health: PLAYER_HP,
            p2_health: PLAYER_HP,
            bullets_fired_this_round: 0,
            bullets_hit_defender: 0,
            is_switching: false,
        }
    }

    pub open spec fn tick_spec(self, dt_ms: u32) -> RoundInfo {
        let timer = if self.round_timer_ms >= dt_ms {
            (self.round_timer_ms - dt_ms) as u32
        } else {
            0u32
        };
        RoundInfo {
            round_timer_ms: timer,
            bullets_left: if timer == 0 {
                0u32
            } else {
                self.bullets_left
            },
            ..self
        }
    }

    /// Count the round timer down. When it expires, the attacker's
    /// remaining bullets are forfeited, so the switch trigger only waits
    /// for in-flight bullets.
    pub fn tick(&mut self, dt_ms: u32)
        requires
            old(self).wf(),
        ensures
            final(self).wf(),
            *final(self) == old(self).tick_spec(dt_ms),
    {
        if self.round_timer_ms >= dt_ms {
            self.round_timer_ms = self.round_timer_ms - dt_ms;
        } else {
            self.round_timer_ms = 0;
        }
        if self.round_timer_ms == 0 {
            self.bullets_left = 0;
        }
    }

    /// The round-switch trigger: every in-flight bullet has despawned,
    /// and either the bullets are spent or the timer has expired.
    pub open spec fn switch_due_spec(self, live_bullets: nat) -> bool {
        live_bullets == 0 && (self.bullets_left == 0 || self.round_timer_ms == 0)
    }

    /// Whether the state machine should leave Attacking for Switching.
    pub fn switch_due(&self, live_bullets: usize) -> (r: bool)
        ensures
            r == self.switch_due_spec(live_bullets as nat),
    {
        live_bullets == 0 && (self.bullets_left == 0 || self.round_timer_ms == 0)
    }

    pub open spec fn record_shot_spec(self) -> RoundInfo {
        RoundInfo {
            bullets_left: (self.bullets_left - 1) as u32,
            bullets_fired_this_round: if self.bullets_fired_this_round == u32::MAX {
                u32::MAX
            } else {
                (self.bullets_fired_this_round + 1) as u32
            },
            ..self
        }
    }

    /// One shot leaves the barrel: a bullet is spent and the fired
    /// counter advances.
    pub fn record_shot(&mut self)
        requires
            old(self).wf(),
            old(self).bullets_left > 0,
        ensures
            final(self).wf(),
            *final(self) == old(self).record_shot_spec(),
    {
        self.bullets_left = self.bullets_left - 1;
        if self.bullets_fired_this_round < u32::MAX {
            self.bullets_fired_this_round = self.bullets_fired_this_round + 1;
        }
    }

    pub open spec fn record_hit_spec(self, defender: PlayerId, damage: u32) -> RoundInfo {
        let new_health = if self.health_of_spec(defender) >= damage {
            (self.health_of_spec(defender) - damage) as u32
        } else {
            0u32
        };
        RoundInfo {
            p1_health: if defender is Player1 {
                new_health
            } else {
                self.p1_health
            },
            p2_health: if defender is Player2 {
                new_health
            } else {
                self.p2_health
            },
            bullets_hit_defender: if self.bullets_hit_defender == u32::MAX {
                u32::MAX
            } else {
                (self.bullets_hit_defender + 1) as u32
            },
            ..self
        }
    }

    /// A confirmed hit on the defender: health drops by the damage,
    /// floored at zero; the hit counter advances. Returns the new health.
    pub fn record_hit(&mut self, defender: PlayerId, damage: u32) -> (new_health: u32)
        requires
            old(self).wf(),
        ensures
            final(self).wf(),
            *final(self) == old(self).record_hit_spec(defender, damage),
            new_health == final(self).health_of_spec(defender),
    {
        let old_health = match defender {
            PlayerId::Player1 => self.p1_health,
            PlayerId::Player2 => self.p2_health,
        };
        let new_health = if old_health >= damage {
            old_health - damage
        } else {
            0
        };
        match defender {
            PlayerId::Player1 => self.p1_health = new_health,
            PlayerId::Player2 => self.p2_health = new_health,
        }
        if self.bullets_hit_defender < u32::MAX {
            self.bullets_hit_defender = self.bullets_hit_defender + 1;
        }
        new_health
    }

    pub open spec fn apply_round_sync_spec(
        self,
        current_attacker: PlayerId,
        bullets_left: u32,
        round_timer_remaining_ms: u32,
        p1_health: u32,
        p2_health: u32,
        bullets_fired: u32,
        bullets_hit: u32,
    ) -> RoundInfo {
        RoundInfo {
            current_attacker,
            bullets_left: if bullets_left <= BULLETS_PER_ROUND {
                bullets_left
            } else {
                BULLETS_PER_ROUND
            },
            round_timer_ms: if round_timer_remaining_ms <= ROUND_TIME_MS {
                round_timer_remaining_ms
            } else {
                ROUND_TIME_MS
            },
            p1_health: if p1_health <= PLAYER_HP {
                p1_health
            } else {
                PLAYER_HP
            },
            p2_health: if p2_health <= PLAYER_HP {
                p2_health
            } else {
                PLAYER_HP
            },
            bullets_fired_this_round: bullets_fired,
            bullets_hit_defender: bullets_hit,
            ..self
        }
    }

    /// Mirror an authoritative `RoundInfoSync` from the host, the round
    /// timer included: the whole payload is authoritative, so a drifted
    /// local clock heals on the next sync. Values are clamped into the
    /// data model's ranges; only the switching flag is left alone.
    pub fn apply_round_sync(
        &mut self,
        current_attacker: PlayerId,
        bullets_left: u32,
        round_timer_remaining_ms: u32,
        p1_health: u32,
        p2_health: u32,
        bullets_fired: u32,
        bullets_hit: u32,
    )
        requires
            old(self).wf(),
        ensures
            final(self).wf(),
            *final(self) == old(self).apply_round_sync_spec(
                current_attacker,
                bullets_left,
                round_timer_remaining_ms,
                p1_health,
                p2_health,
                bullets_fired,
                bullets_hit,
            ),
            final(self).round_timer_ms == (if round_timer_remaining_ms <= ROUND_TIME_MS {
                round_timer_remaining_ms
            } else {
                ROUND_TIME_MS
            }),
    {
        self.current_attacker = current_attacker;
        self.bullets_left = if bullets_left <= BULLETS_PER_ROUND {
            bullets_left
        } else {
            BULLETS_PER_ROUND
        };
        self.round_timer_ms = if round_timer_remaining_ms <= ROUND_TIME_MS {
            round_timer_remaining_ms
        } else {
            ROUND_TIME_MS
        };
        self.p1_health = if p1_health <= PLAYER_HP {
            p1_health
        } else {
            PLAYER_HP
        };
        self.p2_health = if p2_health <= PLAYER_HP {
            p2_health
        } else {
            PLAYER_HP
        };
        self.bullets_fired_this_round = bullets_fired;
        self.bullets_hit_defender = bullets_hit;
    }

    pub open spec fn apply_health_update_spec(self, id: PlayerId, health: u32) -> RoundInfo {
        let clamped = if health <= PLAYER_HP {
            health
        } else {
            PLAYER_HP
        };
        RoundInfo {
            p1_health: if id is Player1 {
                clamped
            } else {
                self.p1_health
            },
            p2_health: if id is Player2 {
                clamped
            } else {
                self.p2_health
            },
            ..self
        }
    }

    /// Apply a `HealthUpdate` event: last write wins, clamped into range.
    pub fn apply_health_update(&mut self, id: PlayerId, health: u32)
        requires
            old(self).wf(),
        ensures
            final(self).wf(),
            *final(self) == old(self).apply_health_update_spec(id, health),
    {
        let clamped = if health <= PLAYER_HP {
            health
        } else {
            PLAYER_HP
        };
        match id {
            PlayerId::Player1 => self.p1_health = clamped,
            PlayerId::Player2 => self.p2_health = clamped,
        }
    }

    pub open spec fn apply_remote_shot_spec(self) -> RoundInfo {
        RoundInfo {
            bullets_left: if self.bullets_left > 0 {
                (self.bullets_left - 1) as u32
            } else {
                0u32
            },
            bullets_fired_this_round: if self.bullets_fired_this_round == u32::MAX {
                u32::MAX
            } else {
                (self.bullets_fired_this_round + 1) as u32
            },
            ..self
        }
    }

    /// Note a shot the remote attacker announced: mirror the spent bullet
    /// and the fired counter, so both sides agree on the round's progress.
    pub fn apply_remote_shot(&mut self)
        requires
            old(self).wf(),
        ensures
            final(self).wf(),
            *final(self) == old(self).apply_remote_shot_spec(),
    {
        if self.bullets_left > 0 {
            self.bullets_left = self.bullets_left - 1;
        }
        if self.bullets_fired_this_round < u32::MAX {
            self.bullets_fired_this_round = self.bullets_fired_this_round + 1;
        }
    }

    pub open spec fn apply_switch_roles_spec(self, new_attacker: PlayerId) -> RoundInfo {
        if self.current_attacker == new_attacker {
            self
        } else {
            RoundInfo { current_attacker: new_attacker, is_switching: true, ..self }
        }
    }

    /// Mirror a `SwitchRoles` command from the host. A message that names
    /// the attacker we already have is a duplicate of one we applied and
    /// is ignored, so a replayed datagram cannot flip the round twice.
    /// Returns whether the message changed anything.
    pub fn apply_switch_roles(&mut self, new_attacker: PlayerId) -> (changed: bool)
        requires
            old(self).wf(),
        ensures
            final(self).wf(),
            *final(self) == old(self).apply_switch_roles_spec(new_attacker),
            changed == (old(self).current_attacker != new_attacker),
            final(self).current_attacker == new_attacker,
    {
        if self.current_attacker != new_attacker {
            self.current_attacker = new_attacker;
            self.is_switching = true;
            true
        } else {
            false
        }
    }

    pub open spec fn reset_for_new_round_spec(self, new_attacker: PlayerId) -> RoundInfo {
        RoundInfo {
            bullets_left: BULLETS_PER_ROUND,
            round_timer_ms: ROUND_TIME_MS,
            current_attacker: new_attacker,
            bullets_fired_this_round: 0,
            bullets_hit_defender: 0,
            is_switching: false,
            ..self
        }
    }

    /// Complete a round switch: fresh bullets, fresh timer, the new
    /// attacker on record, counters cleared, the switching gate reopened.
    /// Healths carry over.
    pub fn reset_for_new_round(&mut self, new_attacker: PlayerId)
        requires
            old(self).wf(),
        ensures
            final(self).wf(),
            *final(self) == old(self).reset_for_new_round_spec(new_attacker),
    {
        self.bullets_left = BULLETS_PER_ROUND;
        self.round_timer_ms = ROUND_TIME_MS;
        self.current_attacker = new_attacker;
        self.bullets_fired_this_round = 0;
        self.bullets_hit_defender = 0;
        self.is_switching = false;
    }
}

/// Applying the same `SwitchRoles` twice is the same as applying it once:
/// the duplicate changes nothing, and the attacker on record is the one
/// the message named.
pub proof fn lemma_switch_roles_idempotent(r: RoundInfo, new_attacker: PlayerId)
    ensures
        r.apply_switch_roles_spec(new_attacker).apply_switch_roles_spec(new_attacker)
            == r.apply_switch_roles_spec(new_attacker),
        r.apply_switch_roles_spec(new_attacker).current_attacker == new_attacker,
{
}

/// The round-switch trigger, both ways: spent bullets with a clear field
/// fire it; any bullet still in flight holds it back, even when the timer
/// has expired.
pub proof fn lemma_switch_trigger(r: RoundInfo, live_bullets: nat)
    ensures
        r.bullets_left == 0 && live_bullets == 0 ==> r.switch_due_spec(live_bullets),
        live_bullets > 0 ==> !r.switch_due_spec(live_bullets),
        r.round_timer_ms == 0 && live_bullets == 0 ==> r.switch_due_spec(live_bullets),
{
}

} // verus!
