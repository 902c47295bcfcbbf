//! The game-over announcement and its burst-repeat fallback.
//!
//! A lethal hit starts a presentation delay. When it elapses, the loss is
//! announced locally; the host additionally sends `GameOver` once at once
//! and then repeats it a bounded number of times at a short interval,
//! because the message has no acknowledgement and losing every copy would
//! strand the peer in the running game.

use vstd::prelude::*;
use crate::consts::GAME_OVER_DELAY_MS;
use crate::consts::GAME_OVER_RESEND_INTERVAL_MS;
use crate::consts::GAME_OVER_RESEND_LIMIT;
use crate::player::PlayerId;

verus! {

#[derive(Clone, Copy, Debug, PartialEq, Eq, Structural)]
pub enum GameOverPhase {
    /// No game-over pending.
    Idle,
    /// The presentation delay is running.
    Waiting { ms_left: u32 },
    /// The host is repeating the announcement.
    Bursting { ms_to_next: u32, resends_done: u32 },
    /// Announced, and the repeat timer is cleared.
    Done,
}

/// What one tick of the game-over machinery asks the caller to do.
#[derive(Clone, Copy, Debug, PartialEq, Eq, Structural)]
pub enum GameOverAction {
    /// Nothing this tick.
    Quiet,
    /// The delay elapsed: show the result; `send` asks for the one
    /// immediate `GameOver` datagram (the host's job).
    Announce { winner: PlayerId, loser: PlayerId, send: bool },
    /// One repeat of the `GameOver` datagram.
    Resend { winner: PlayerId },
}

/// The transient game-over resource.
#[derive(Clone, Copy, Debug, PartialEq, Eq, Structural)]
pub struct GameOverState {
    pub phase: GameOverPhase,
    pub winner: Option<PlayerId>,
    pub loser: Option<PlayerId>,
    /// Datagrams sent so far: the immediate one plus the repeats.
    pub total_sends: u32,
}

impl GameOverState {
    /// The burst bound: one immediate send plus at most
    /// `GAME_OVER_RESEND_LIMIT` repeats, and sends happen only between
    /// the announcement and `Done`.
    pub open spec fn wf(self) -> bool {
        &&& self.total_sends <= 1 + GAME_OVER_RESEND_LIMIT
        &&& match self.phase {
            GameOverPhase::Idle => self.total_sends == 0,
            GameOverPhase::Waiting { ms_left } => {
                &&& ms_left <= GAME_OVER_DELAY_MS
                &&& self.winner is Some
                &&& self.loser is Some
                &&& self.total_sends == 0
            },
            GameOverPhase::Bursting { ms_to_next, resends_done } => {
                &&& ms_to_next <= GAME_OVER_RESEND_INTERVAL_MS
                &&& resends_done < GAME_OVER_RESEND_LIMIT
                &&& self.winner is Some
                &&& self.loser is Some
                &&& self.total_sends == 1 + resends_done
            },
            GameOverPhase::Done => true,
        }
    }

    pub open spec fn new_spec() -> GameOverState {
        GameOverState { phase: GameOverPhase::Idle, winner: None, loser: None, total_sends: 0 }
    }

    pub fn new() -> (r: GameOverState)
        ensures
            r.wf(),
            r == GameOverState::new_spec(),
            r == (GameOverState {
                phase: GameOverPhase::Idle,
                winner: None,
                loser: None,
                total_sends: 0,
            }),
    {
        GameOverState { phase: GameOverPhase::Idle, winner: None, loser: None, total_sends: 0 }
    }

    pub open spec fn trigger_spec(self, winner: PlayerId, loser: PlayerId) -> GameOverState {
        match self.phase {
            GameOverPhase::Idle | GameOverPhase::Waiting { .. } => GameOverState {
                phase: GameOverPhase::Waiting { ms_left: GAME_OVER_DELAY_MS },
                winner: Some(winner),
                loser: Some(loser),
                total_sends: 0,
            },
            _ => self,
        }
    }

    /// A defender's health reached zero, or the authoritative `GameOver`
    /// arrived: start (or restart) the presentation delay. Once the
    /// announcement is out, later triggers — the burst duplicates — change
    /// nothing.
    pub fn trigger(&mut self, winner: PlayerId, loser: PlayerId)
        requires
            old(self).wf(),
        ensures
            final(self).wf(),
            *final(self) == old(self).trigger_spec(winner, loser),
    {
        match self.phase {
            GameOverPhase::Idle | GameOverPhase::Waiting { .. } => {
                self.phase = GameOverPhase::Waiting { ms_left: GAME_OVER_DELAY_MS };
                self.winner = Some(winner);
                self.loser = Some(loser);
                self.total_sends = 0;
            },
            _ => {},
        }
    }

    pub open spec fn tick_next_spec(self, dt_ms: u32, is_host: bool) -> GameOverState {
        match self.phase {
            GameOverPhase::Waiting { ms_left } => {
                if ms_left > dt_ms {
                    GameOverState {
                        phase: GameOverPhase::Waiting { ms_left: (ms_left - dt_ms) as u32 },
                        ..self
                    }
                } else if is_host {
                    GameOverState {
                        phase: GameOverPhase::Bursting {
                            ms_to_next: GAME_OVER_RESEND_INTERVAL_MS,
                            resends_done: 0,
                        },
                        total_sends: 1,
                        ..self
                    }
                } else {
                    GameOverState { phase: GameOverPhase::Done, ..self }
                }
            },
            GameOverPhase::Bursting { ms_to_next, resends_done } => {
                if ms_to_next > dt_ms {
                    GameOverState {
                        phase: GameOverPhase::Bursting {
                            ms_to_next: (ms_to_next - dt_ms) as u32,
                            resends_done,
                        },
                        ..self
                    }
                } else if resends_done + 1 == GAME_OVER_RESEND_LIMIT {
                    GameOverState {
                        phase: GameOverPhase::Done,
                        total_sends: (self.total_sends + 1) as u32,
                        ..self
                    }
                } else {
                    GameOverState {
                        phase: GameOverPhase::Bursting {
                            ms_to_next: GAME_OVER_RESEND_INTERVAL_MS,
                            resends_done: (resends_done + 1) as u32,
                        },
                        total_sends: (self.total_sends + 1) as u32,
                        ..self
                    }
                }
            },
            _ => self,
        }
    }

    pub open spec fn tick_action_spec(self, dt_ms: u32, is_host: bool) -> GameOverAction {
        match self.phase {
            GameOverPhase::Waiting { ms_left } => {
                if ms_left > dt_ms {
                    GameOverAction::Quiet
                } else {
                    GameOverAction::Announce {
                        winner: self.winner->0,
                        loser: self.loser->0,
                        send: is_host,
                    }
                }
            },
            GameOverPhase::Bursting { ms_to_next, .. } => {
                if ms_to_next > dt_ms {
                    GameOverAction::Quiet
                } else {
                    GameOverAction::Resend { winner: self.winner->0 }
                }
            },
            _ => GameOverAction::Quiet,
        }
    }

    /// Advance the delay and burst timers by one frame.
    pub fn tick(&mut self, dt_ms: u32, is_host: bool) -> (action: GameOverAction)
        requires
            old(self).wf(),
        ensures
            final(self).wf(),
            *final(self) == old(self).tick_next_spec(dt_ms, is_host),
            action == old(self).tick_action_spec(dt_ms, is_host),
            final(self).total_sends >= old(self).total_sends,
    {
        match self.phase {
            GameOverPhase::Waiting { ms_left } => {
                if ms_left > dt_ms {
                    self.phase = GameOverPhase::Waiting { ms_left: ms_left - dt_ms };
                    GameOverAction::Quiet
                } else {
                    let winner = match self.winner {
                        Option::Some(w) => w,
                        Option::None => {
                            proof {
                                assert(false);
                            }
                            PlayerId::Player1
                        },
                    };
                    let loser = match self.loser {
                        Option::Some(l) => l,
                        Option::None => {
                            proof {
                                assert(false);
                            }
                            PlayerId::Player2
                        },
                    };
                    if is_host {
                        self.phase = GameOverPhase::Bursting {
                            ms_to_next: GAME_OVER_RESEND_INTERVAL_MS,
                            resends_done: 0,
                        };
                        self.total_sends = 1;
                    } else {
                        self.phase = GameOverPhase::Done;
                    }
                    GameOverAction::Announce { winner, loser, send: is_host }
                }
            },
            GameOverPhase::Bursting { ms_to_next, resends_done } => {
                if ms_to_next > dt_ms {
                    self.phase = GameOverPhase::Bursting {
                        ms_to_next: ms_to_next - dt_ms,
                        resends_done,
                    };
                    GameOverAction::Quiet
                } else {
                    let winner = match self.winner {
                        Option::Some(w) => w,
                        Option::None => {
                            proof {
                                assert(false);
                            }
                            PlayerId::Player1
                        },
                    };
                    if resends_done + 1 == GAME_OVER_RESEND_LIMIT {
                        self.phase = GameOverPhase::Done;
                    } else {
                        self.phase = GameOverPhase::Bursting {
                            ms_to_next: GAME_OVER_RESEND_INTERVAL_MS,
                            resends_done: resends_done + 1,
                        };
                    }
                    self.total_sends = self.total_sends + 1;
                    GameOverAction::Resend { winner }
                }
            },
            _ => GameOverAction::Quiet,
        }
    }
}

/// The burst bound: however the machine is driven, it never produces more
/// than the one immediate send plus `GAME_OVER_RESEND_LIMIT` repeats, and
/// once it is `Done` the repeat timer is cleared for good — a tick in
/// `Done` changes nothing and sends nothing.
pub proof fn lemma_game_over_burst_bound(s: GameOverState, dt_ms: u32, is_host: bool)
    requires
        s.wf(),
    ensures
        s.total_sends <= 1 + GAME_OVER_RESEND_LIMIT,
        s.tick_next_spec(dt_ms, is_host).total_sends <= 1 + GAME_OVER_RESEND_LIMIT,
        s.phase is Done ==> s.tick_next_spec(dt_ms, is_host) == s && s.tick_action_spec(
            dt_ms,
            is_host,
        ) is Quiet,
{
}

} // verus!
