//! The per-tick inputs the physics engine hands this core: contact reports
//! and supplementary wall-ray hits.

use vstd::prelude::*;
use crate::vec2::Vec2;

verus! {

/// What the other collider of a contact is, as far as this core cares.
#[derive(Clone, Copy, PartialEq, Eq, Structural, Debug)]
pub enum ContactOther {
    /// A collider tagged "kills the player on contact": a hazard volume or
    /// an enemy's body.
    PlayerKillHazard,
    /// A child attack hitbox beneath an enemy; striking it kills that parent
    /// enemy (by arena index) and rewards the player with a bounce.
    EnemyAttackHitbox { parent: usize },
    /// Another kinematic actor of this core, by arena index.
    KinematicActor { index: usize },
    /// A wall-tagged collider.
    Wall,
    /// Anything else.
    Other,
}

/// One entry of a contact report.
#[derive(Clone, Copy, PartialEq, Eq, Structural, Debug)]
pub struct Contact {
    pub other: ContactOther,
    /// Contact normal in per-mille components; not always unit-exact.
    pub normal: Vec2,
}

/// Everything the physics engine reports for one kinematic body this tick.
/// Ephemeral: read by the collision responders, never persisted.
#[derive(Clone, Debug)]
pub struct ContactReport {
    /// The character controller found ground under the body.
    pub grounded: bool,
    pub contacts: Vec<Contact>,
}

impl ContactReport {
    /// A report with no contacts.
    pub fn empty(grounded: bool) -> (r: ContactReport)
        ensures
            r.grounded == grounded,
            r.contacts@.len() == 0,
    {
        ContactReport { grounded, contacts: Vec::new() }
    }
}

/// One hit of the supplementary horizontal wall rays cast from the player's
/// center, in the order the physics engine delivered them.
#[derive(Clone, Copy, PartialEq, Eq, Structural, Debug)]
pub struct WallHit {
    /// The hit collider is wall-tagged; hits on anything else are ignored.
    pub wall: bool,
    /// Horizontal component of the hit normal, per-mille.
    pub normal_x: i64,
}

} // verus!
