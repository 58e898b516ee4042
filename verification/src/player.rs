//! The player's ship: steering, guns, the flame behind it and what a
//! collision costs it.

use vstd::prelude::*;
use crate::components::{AnimationIndices, Damage, Health};
use crate::constants::{SHIP_BULLET_SPEED, SHIP_DAMAGE, SHIP_HEALTH, SHIP_SPEED};
use crate::damage::{damage_dealt, damage_fits};
use crate::states::GameState;

verus! {

/// One bullet to put into the world, placed relative to the ship's centre.
#[derive(Clone, Copy, Debug, PartialEq, Eq, Structural)]
pub struct BulletSpawn {
    pub offset_x: i32,
    pub offset_y: i32,
    pub width: i32,
    pub height: i32,
    pub speed: i32,
    pub damage: Damage,
}

/// Where the left gun sits, in pixels beside the ship's centre.
pub const SHIP_LEFT_GUN: i32 = -10;

/// Where the right gun sits, in pixels beside the ship's centre.
pub const SHIP_RIGHT_GUN: i32 = 10;

/// The bullet that leaves the gun mounted `offset_x` pixels beside the
/// ship's centre.
pub open spec fn ship_bullet(offset_x: i32) -> BulletSpawn {
    BulletSpawn {
        offset_x,
        offset_y: 15,
        width: 10,
        height: 20,
        speed: SHIP_BULLET_SPEED,
        damage: Damage(SHIP_DAMAGE),
    }
}

/// What the guns release in a frame: one bullet from the left gun and one
/// from the right when they fire, nothing otherwise.
pub open spec fn ship_volley(fires: bool) -> Seq<BulletSpawn> {
    if fires {
        seq![ship_bullet(SHIP_LEFT_GUN), ship_bullet(SHIP_RIGHT_GUN)]
    } else {
        Seq::empty()
    }
}

/// Builds the bullet that leaves the gun mounted `offset_x` pixels beside
/// the ship's centre.
fn load_gun(offset_x: i32) -> (bullet: BulletSpawn)
    ensures
        bullet == ship_bullet(offset_x),
{
    BulletSpawn {
        offset_x,
        offset_y: 15,
        width: 10,
        height: 20,
        speed: SHIP_BULLET_SPEED,
        damage: Damage(SHIP_DAMAGE),
    }
}

/// The bullets to spawn in this frame. The guns fire when the fire key is
/// held and the shooting delay, which only runs while the key is held, has
/// just run out.
pub fn ship_shooting(fire_held: bool, delay_finished: bool) -> (volley: Vec<BulletSpawn>)
    ensures
        volley@ == ship_volley(fire_held && delay_finished),
{
    let mut volley: Vec<BulletSpawn> = Vec::new();
    if fire_held && delay_finished {
        volley.push(load_gun(SHIP_LEFT_GUN));
        volley.push(load_gun(SHIP_RIGHT_GUN));
    }
    volley
}

/// The steering keys that are held down in a frame.
#[derive(Clone, Copy, Debug, PartialEq, Eq, Structural)]
pub struct Keys {
    pub left: bool,
    pub right: bool,
    pub up: bool,
    pub down: bool,
}

/// The borders of the window that the ship's centre has reached.
#[derive(Clone, Copy, Debug, PartialEq, Eq, Structural)]
pub struct Fence {
    pub left: bool,
    pub right: bool,
    pub top: bool,
    pub bottom: bool,
}

/// The way the ship heads along each axis: -1, 0 or 1, with 1 pointing
/// right and up. The ship covers its speed times the heading per second.
#[derive(Clone, Copy, Debug, PartialEq, Eq, Structural)]
pub struct Heading {
    pub horizontal: i32,
    pub vertical: i32,
}

/// Left wins over right, and a key that pushes against a border the ship
/// has reached counts as not held.
pub open spec fn horizontal_heading(keys: Keys, fence: Fence) -> int {
    if keys.left && !fence.left {
        -1
    } else if keys.right && !fence.right {
        1
    } else {
        0
    }
}

/// Up wins over down, and a key that pushes against a border the ship has
/// reached counts as not held.
pub open spec fn vertical_heading(keys: Keys, fence: Fence) -> int {
    if keys.up && !fence.top {
        1
    } else if keys.down && !fence.bottom {
        -1
    } else {
        0
    }
}

/// Where the ship heads in this frame.
pub fn ship_movement(keys: Keys, fence: Fence) -> (heading: Heading)
    ensures
        heading.horizontal == horizontal_heading(keys, fence),
        heading.vertical == vertical_heading(keys, fence),
{
    let mut horizontal: i32 = 0;
    let mut vertical: i32 = 0;

    if keys.left && !fence.left {
        horizontal -= 1;
    } else if keys.right && !fence.right {
        horizontal += 1;
    }

    if keys.up && !fence.top {
        vertical += 1;
    } else if keys.down && !fence.bottom {
        vertical -= 1;
    }

    Heading { horizontal, vertical }
}

/// How far below the ship's centre the flame sits at rest, in pixels.
pub const PUMPER_DROP: i32 = 36;

/// How far the flame leans away from its place at rest, in pixels.
#[derive(Clone, Copy, Debug, PartialEq, Eq, Structural)]
pub struct PumperTip {
    pub horizontal: i32,
    pub vertical: i32,
}

/// The flame leans 13 pixels towards the side that is steered to, left
/// winning over right.
pub open spec fn horizontal_tip(keys: Keys) -> int {
    if keys.left {
        -13
    } else if keys.right {
        13
    } else {
        0
    }
}

/// The flame leans 10 pixels up or down with the steering, up winning over
/// down.
pub open spec fn vertical_tip(keys: Keys) -> int {
    if keys.up {
        10
    } else if keys.down {
        -10
    } else {
        0
    }
}

/// The lean of the flame in this frame. The flame is drawn `PUMPER_DROP`
/// below the ship and then moved by the lean. Borders do not matter here:
/// the flame leans with the keys even when the ship cannot move.
pub fn update_pumper(keys: Keys) -> (tip: PumperTip)
    ensures
        tip.horizontal == horizontal_tip(keys),
        tip.vertical == vertical_tip(keys),
{
    let mut horizontal: i32 = 0;
    let mut vertical: i32 = 0;

    if keys.left {
        horizontal -= 13;
    } else if keys.right {
        horizontal += 13;
    }

    if keys.up {
        vertical += 10;
    } else if keys.down {
        vertical -= 10;
    }

    PumperTip { horizontal, vertical }
}

/// The frame of the ship's sprite sheet to show: banking left, level or
/// banking right.
pub fn ship_swerving(keys: Keys) -> (frame: usize)
    ensures
        frame == if keys.left {
            0usize
        } else if keys.right {
            2usize
        } else {
            1usize
        },
{
    if keys.left {
        0
    } else if keys.right {
        2
    } else {
        1
    }
}

/// The frame that follows `frame` in a looping animation: the next one, or
/// the first again after the last.
pub open spec fn next_frame(frame: usize, indices: AnimationIndices) -> int {
    if frame != indices.last {
        frame + 1
    } else {
        indices.first as int
    }
}

/// The frame of the flame to show. It moves on when the animation delay has
/// just run out and stays otherwise. A frame inside the loop stays inside.
pub fn pumper_animation(frame: usize, indices: &AnimationIndices, delay_finished: bool) -> (shown:
    usize)
    requires
        delay_finished && frame != indices.last ==> frame < usize::MAX,
    ensures
        shown == if delay_finished {
            next_frame(frame, *indices)
        } else {
            frame as int
        },
        indices.first <= frame <= indices.last ==> indices.first <= shown <= indices.last,
{
    if delay_finished {
        if frame != indices.last {
            frame + 1
        } else {
            indices.first
        }
    } else {
        frame
    }
}

/// The state to enter after the foes have moved: the game is over as soon
/// as one of them touches the ship. `contacts` holds one flag per foe.
pub fn check_if_hit_by_foe(contacts: &Vec<bool>) -> (next: Option<GameState>)
    ensures
        next == if exists|foe: int| 0 <= foe < contacts.len() && contacts[foe] {
            Some(GameState::GameOver)
        } else {
            None
        },
{
    let mut i: usize = 0;
    while i < contacts.len()
        invariant
            i <= contacts.len(),
            forall|foe: int| 0 <= foe < i ==> !contacts[foe],
        decreases contacts.len() - i,
    {
        if contacts[i] {
            return Some(GameState::GameOver);
        }
        i += 1;
    }
    None
}

/// What the foes' projectiles leave behind: for each projectile whether it
/// is used up, and the state to enter, if any.
#[derive(Debug, PartialEq, Eq)]
pub struct ShipHits {
    pub spent: Vec<bool>,
    pub next: Option<GameState>,
}

/// Lets the foes' projectiles hit the ship. `damages` and `contacts` hold
/// one entry per projectile. A projectile in contact is used up and takes
/// its damage from `health`. The game is over when no health is left after
/// that, hit or not.
pub fn check_if_hit_by_bullet(
    health: &mut Health,
    damages: &Vec<Damage>,
    contacts: &Vec<bool>,
) -> (hits: ShipHits)
    requires
        damage_fits(*old(health), damages@, contacts@),
    ensures
        final(health).0 == old(health).0 - damage_dealt(damages@, contacts@),
        hits.spent@ == contacts@,
        hits.next == if final(health).spent() {
            Some(GameState::GameOver)
        } else {
            None
        },
{
    health.take_hits(damages, contacts);

    let mut spent: Vec<bool> = Vec::new();
    while spent.len() < contacts.len()
        invariant
            spent.len() <= contacts.len(),
            spent@ == contacts@.take(spent.len() as int),
        decreases contacts.len() - spent.len(),
    {
        spent.push(contacts[spent.len()]);
    }

    let next = if health.0 <= 0 {
        Some(GameState::GameOver)
    } else {
        None
    };
    ShipHits { spent, next }
}

/// The ship as it enters a round.
#[derive(Clone, Copy, Debug, PartialEq, Eq, Structural)]
pub struct ShipSpawn {
    pub scale: i32,
    pub frame: usize,
    pub health: Health,
    pub speed: i32,
}

/// The flame as it enters a round, `drop` pixels below the ship's centre.
#[derive(Clone, Copy, Debug, PartialEq, Eq, Structural)]
pub struct PumperSpawn {
    pub drop: i32,
    pub scale: i32,
    pub frame: usize,
    pub indices: AnimationIndices,
}

/// What a round starts with: a level ship at full health, and its flame on
/// the first frame of its loop.
pub fn setup_ship() -> (spawned: (ShipSpawn, PumperSpawn))
    ensures
        spawned.0 == (ShipSpawn {
            scale: 6,
            frame: 1,
            health: Health(SHIP_HEALTH),
            speed: SHIP_SPEED,
        }),
        spawned.1 == (PumperSpawn {
            drop: PUMPER_DROP,
            scale: 6,
            frame: 15,
            indices: AnimationIndices { first: 15, last: 18 },
        }),
{
    let ship = ShipSpawn { scale: 6, frame: 1, health: Health(SHIP_HEALTH), speed: SHIP_SPEED };
    let indices = AnimationIndices::new(15, 18);
    let pumper = PumperSpawn { drop: PUMPER_DROP, scale: 6, frame: indices.first, indices };
    (ship, pumper)
}

} // verus!
