//! Player identities, in-round roles, and the host/client split.

use vstd::prelude::*;

verus! {

/// Which peer this process is. Fixed for the lifetime of a connection:
/// the host opens the room and is authoritative for round and role state,
/// the client discovers and joins it.
#[derive(Clone, Copy, Debug, PartialEq, Eq, Structural)]
pub enum PeerRole {
    Host,
    Client,
}

/// Fixed identity of a player. The host always owns `Player1`, the
/// client owns `Player2`; identities never change during a session.
#[derive(Clone, Copy, Debug, PartialEq, Eq, Structural)]
pub enum PlayerId {
    Player1,
    Player2,
}

/// In-round role. Exactly one player is the attacker at any time; the
/// roles flip atomically for both players at every round switch.
#[derive(Clone, Copy, Debug, PartialEq, Eq, Structural)]
pub enum PlayerRole {
    Attacker,
    Defender,
}

impl PeerRole {
    /// The player identity this peer controls locally.
    pub fn local_player(self) -> (r: PlayerId)
        ensures
            r == self.local_player_spec(),
    {
        match self {
            PeerRole::Host => PlayerId::Player1,
            PeerRole::Client => PlayerId::Player2,
        }
    }

    pub open spec fn local_player_spec(self) -> PlayerId {
        match self {
            PeerRole::Host => PlayerId::Player1,
            PeerRole::Client => PlayerId::Player2,
        }
    }

    pub open spec fn is_host(self) -> bool {
        self is Host
    }
}

impl PlayerId {
    /// The other of the two players.
    pub fn other(self) -> (r: PlayerId)
        ensures
            r == self.other_spec(),
    {
        match self {
            PlayerId::Player1 => PlayerId::Player2,
            PlayerId::Player2 => PlayerId::Player1,
        }
    }

    pub open spec fn other_spec(self) -> PlayerId {
        match self {
            PlayerId::Player1 => PlayerId::Player2,
            PlayerId::Player2 => PlayerId::Player1,
        }
    }
}

/// The in-round roles of both players. Kept as one value so that the
/// "exactly one attacker" invariant is a property of a single struct.
#[derive(Clone, Copy, Debug, PartialEq, Eq, Structural)]
pub struct RoleAssignment {
    pub p1: PlayerRole,
    pub p2: PlayerRole,
}

impl RoleAssignment {
    /// Exactly one of the two players holds the attacker role.
    pub open spec fn wf(self) -> bool {
        (self.p1 is Attacker) <==> (self.p2 is Defender)
    }

    pub open spec fn attacker_spec(self) -> PlayerId {
        if self.p1 is Attacker {
            PlayerId::Player1
        } else {
            PlayerId::Player2
        }
    }

    pub open spec fn role_of_spec(self, id: PlayerId) -> PlayerRole {
        match id {
            PlayerId::Player1 => self.p1,
            PlayerId::Player2 => self.p2,
        }
    }

    pub open spec fn from_attacker_spec(attacker: PlayerId) -> RoleAssignment {
        match attacker {
            PlayerId::Player1 => RoleAssignment {
                p1: PlayerRole::Attacker,
                p2: PlayerRole::Defender,
            },
            PlayerId::Player2 => RoleAssignment {
                p1: PlayerRole::Defender,
                p2: PlayerRole::Attacker,
            },
        }
    }

    /// Assignment in which `attacker` attacks and the other player defends.
    pub fn from_attacker(attacker: PlayerId) -> (r: RoleAssignment)
        ensures
            r == RoleAssignment::from_attacker_spec(attacker),
            r.wf(),
            r.attacker_spec() == attacker,
            r.role_of_spec(attacker) is Attacker,
            r.role_of_spec(attacker.other_spec()) is Defender,
    {
        match attacker {
            PlayerId::Player1 => RoleAssignment { p1: PlayerRole::Attacker, p2: PlayerRole::Defender },
            PlayerId::Player2 => RoleAssignment { p1: PlayerRole::Defender, p2: PlayerRole::Attacker },
        }
    }

    /// The current role of a given player.
    pub fn role_of(&self, id: PlayerId) -> (r: PlayerRole)
        ensures
            r == self.role_of_spec(id),
    {
        match id {
            PlayerId::Player1 => self.p1,
            PlayerId::Player2 => self.p2,
        }
    }

    /// Both roles flipped together: the attacker becomes the defender and
    /// the defender becomes the attacker.
    pub fn flipped(&self) -> (r: RoleAssignment)
        requires
            self.wf(),
        ensures
            r.wf(),
            r.attacker_spec() == self.attacker_spec().other_spec(),
            r.p1 != self.p1,
            r.p2 != self.p2,
    {
        RoleAssignment {
            p1: flip_role(self.p1),
            p2: flip_role(self.p2),
        }
    }
}

fn flip_role(role: PlayerRole) -> (r: PlayerRole)
    ensures
        r != role,
{
    match role {
        PlayerRole::Attacker => PlayerRole::Defender,
        PlayerRole::Defender => PlayerRole::Attacker,
    }
}

/// The role invariant: in every well-formed assignment exactly one of the
/// two players is the attacker and the other is the defender.
pub proof fn lemma_exactly_one_attacker(r: RoleAssignment)
    requires
        r.wf(),
    ensures
        (r.p1 is Attacker && r.p2 is Defender) || (r.p1 is Defender && r.p2 is Attacker),
        r.role_of_spec(r.attacker_spec()) is Attacker,
        r.role_of_spec(r.attacker_spec().other_spec()) is Defender,
{
}

} // verus!
