//! What an entity of the game can carry.

use vstd::prelude::*;

verus! {

/// Marks the player's ship.
#[derive(Clone, Copy, Debug, PartialEq, Eq, Structural)]
pub struct SpaceShip;

/// Marks the flame behind the ship.
#[derive(Clone, Copy, Debug, PartialEq, Eq, Structural)]
pub struct Pumper;

/// Marks a bullet fired by the ship.
#[derive(Clone, Copy, Debug, PartialEq, Eq, Structural)]
pub struct Bullet;

/// Marks an enemy.
#[derive(Clone, Copy, Debug, PartialEq, Eq, Structural)]
pub struct Foe;

/// Marks a projectile fired by an enemy.
#[derive(Clone, Copy, Debug, PartialEq, Eq, Structural)]
pub struct FoeProjectile;

/// Marks the banner shown once the game is over.
#[derive(Clone, Copy, Debug, PartialEq, Eq, Structural)]
pub struct GameBanner;

/// Health that an entity has left. At zero or below the entity is removed.
#[derive(Clone, Copy, Debug, PartialEq, Eq, Structural)]
pub struct Health(pub i32);

/// Health that a projectile takes from what it hits.
#[derive(Clone, Copy, Debug, PartialEq, Eq, Structural)]
pub struct Damage(pub i32);

/// First and last frame of a looping animation on a sprite sheet.
#[derive(Clone, Copy, Debug, PartialEq, Eq, Structural)]
pub struct AnimationIndices {
    pub first: usize,
    pub last: usize,
}

impl AnimationIndices {
    pub fn new(first: usize, last: usize) -> (indices: Self)
        ensures
            indices.first == first,
            indices.last == last,
    {
        Self { first, last }
    }
}

} // verus!
