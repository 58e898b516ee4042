//! Fixed numbers of the game, in whole pixels, pixels per second and health
//! points.

use vstd::prelude::*;

verus! {

// Window values
pub const WINDOW_WIDTH: i32 = 640;

pub const WINDOW_HEIGHT: i32 = 480;

// Ship/player values
pub const SHIP_SPEED: i32 = 530;

pub const SHIP_DAMAGE: i32 = 2;

pub const SHIP_HEALTH: i32 = 10;

pub const SHIP_BULLET_SPEED: i32 = 980;

// Foe values
pub const FOE_SPEED: i32 = 230;

pub const FOE_DAMAGE: i32 = 2;

pub const FOE_HEALTH: i32 = 12;

pub const FOE_UNITS: i32 = 32;

/// Width of one of the `FOE_UNITS` columns that split the window.
pub const FOE_UNIT_WIDTH: i32 = 20;

pub const FOE_PROJECTILE_SPEED: i32 = 500;

} // verus!
