//! The view/role binding: which side of the game the local peer renders,
//! controls and synchronizes.
//!
//! The binding is always *derived* from the local player's current role,
//! never toggled, so a duplicated role-switch message cannot flip the view
//! twice: deriving is idempotent where toggling is not.

use vstd::prelude::*;
use crate::player::PlayerId;
use crate::player::PlayerRole;
use crate::player::RoleAssignment;

verus! {

/// The local peer's current perspective.
#[derive(Clone, Copy, Debug, PartialEq, Eq, Structural)]
pub struct ViewConfig {
    pub is_attacker_view: bool,
}

pub open spec fn view_for_spec(local: PlayerId, attacker: PlayerId) -> ViewConfig {
    ViewConfig { is_attacker_view: local == attacker }
}

/// The view the local player must have when `attacker` holds the
/// attacker role.
pub fn view_for(local: PlayerId, attacker: PlayerId) -> (r: ViewConfig)
    ensures
        r == view_for_spec(local, attacker),
        r.is_attacker_view == (local == attacker),
{
    ViewConfig { is_attacker_view: local == attacker }
}

pub open spec fn view_of_role_spec(role: PlayerRole) -> ViewConfig {
    ViewConfig { is_attacker_view: role is Attacker }
}

/// The view that matches a concrete local role; the reconciliation check
/// re-derives this every time the local role changes.
pub fn view_of_role(role: PlayerRole) -> (r: ViewConfig)
    ensures
        r == view_of_role_spec(role),
{
    ViewConfig {
        is_attacker_view: match role {
            PlayerRole::Attacker => true,
            PlayerRole::Defender => false,
        },
    }
}

/// View/role consistency: in a well-formed role assignment, deriving the
/// view from the attacker identity is the same as deriving it from the
/// local player's own role. Whichever source a system uses, the peer
/// renders the side it actually plays.
pub proof fn lemma_view_role_consistency(roles: RoleAssignment, local: PlayerId)
    requires
        roles.wf(),
    ensures
        view_for_spec(local, roles.attacker_spec()) == view_of_role_spec(
            roles.role_of_spec(local),
        ),
        view_for_spec(local, roles.attacker_spec()).is_attacker_view == (roles.role_of_spec(local)
            is Attacker),
{
}

} // verus!
