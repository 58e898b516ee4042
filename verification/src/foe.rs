//! The enemies: where they appear, what they fire and what the ship's
//! bullets do to them.

use rand::Rng;
use vstd::prelude::*;
use crate::components::{Damage, Health};
use crate::constants::{
    FOE_DAMAGE,
    FOE_HEALTH,
    FOE_PROJECTILE_SPEED,
    FOE_SPEED,
    FOE_UNIT_WIDTH,
    WINDOW_HEIGHT,
    WINDOW_WIDTH,
};
use crate::damage::{damage_dealt, damage_fits};

verus! {

/// The columns in which a foe can appear run from this many to the left of
/// the window's centre to this many to the right of it.
pub const FOE_COLUMN_REACH: i32 = 15;

/// A foe to put into the world. `x` and `y` place its centre, measured from
/// the centre of the window, with `y` growing upwards.
#[derive(Clone, Copy, Debug, PartialEq, Eq, Structural)]
pub struct FoeSpawn {
    pub x: i32,
    pub y: i32,
    pub width: i32,
    pub height: i32,
    pub health: Health,
    pub speed: i32,
}

/// The foe that appears in `column`: a square at full health, 50 pixels
/// above the upper edge of the window.
pub open spec fn foe_in_column(column: int) -> FoeSpawn {
    FoeSpawn {
        x: (FOE_UNIT_WIDTH * column) as i32,
        y: (WINDOW_HEIGHT / 2 + 50) as i32,
        width: 30,
        height: 30,
        health: Health(FOE_HEALTH),
        speed: FOE_SPEED,
    }
}

/// Builds the foe that appears in `column`. The whole foe starts out of
/// sight above the window, and in a column within `FOE_COLUMN_REACH` of the
/// centre the whole foe stands between the window's side edges.
pub fn foe_spawn(column: i32) -> (foe: FoeSpawn)
    requires
        i32::MIN <= FOE_UNIT_WIDTH * column <= i32::MAX,
    ensures
        foe == foe_in_column(column as int),
        foe.x == FOE_UNIT_WIDTH * column,
        -FOE_COLUMN_REACH <= column <= FOE_COLUMN_REACH ==> -WINDOW_WIDTH <= 2 * foe.x
            - foe.width && 2 * foe.x + foe.width <= WINDOW_WIDTH,
        WINDOW_HEIGHT < 2 * foe.y - foe.height,
{
    FoeSpawn {
        x: FOE_UNIT_WIDTH * column,
        y: WINDOW_HEIGHT / 2 + 50,
        width: 30,
        height: 30,
        health: Health(FOE_HEALTH),
        speed: FOE_SPEED,
    }
}

/// Draws a number with `rand::Rng::gen_range`, called on the generator that
/// `rand::thread_rng` keeps for the current thread, from the range that
/// starts at `low` and ends with `high`. Not proved, but taken from the
/// crate: the number lies in that range. Nothing is said about which one it
/// is, and two calls may differ. The crate panics on an empty range, which
/// is why `low` may not lie above `high`. It also panics when the operating
/// system gives the thread's generator no seed; no argument avoids that.
#[verifier::external_body]
fn random_between(low: i32, high: i32) -> (drawn: i32)
    requires
        low <= high,
    ensures
        low <= drawn <= high,
{
    rand::thread_rng().gen_range(low..=high)
}

/// The foe to spawn in this frame: one in a column picked at random when the
/// spawn delay has just run out, none otherwise.
pub fn spawn_foes(delay_finished: bool) -> (spawned: Option<FoeSpawn>)
    ensures
        spawned.is_some() == delay_finished,
        spawned matches Some(foe) ==> exists|column: int|
            -FOE_COLUMN_REACH <= column <= FOE_COLUMN_REACH && foe == #[trigger] foe_in_column(
                column,
            ),
{
    if delay_finished {
        let column: i32 = random_between(-FOE_COLUMN_REACH, FOE_COLUMN_REACH);
        Some(foe_spawn(column))
    } else {
        None
    }
}

/// A projectile to put into the world at the place of the foe that fires
/// it, aimed at the ship.
#[derive(Clone, Copy, Debug, PartialEq, Eq, Structural)]
pub struct ProjectileSpawn {
    pub width: i32,
    pub height: i32,
    pub speed: i32,
    pub damage: Damage,
}

/// What a foe fires in this frame, while there is a ship to aim at: one
/// projectile when the foe's shooting delay has just run out, nothing
/// otherwise.
pub fn foes_shooting(delay_finished: bool) -> (fired: Option<ProjectileSpawn>)
    ensures
        fired == if delay_finished {
            Some(
                ProjectileSpawn {
                    width: 20,
                    height: 20,
                    speed: FOE_PROJECTILE_SPEED,
                    damage: Damage(FOE_DAMAGE),
                },
            )
        } else {
            None
        },
{
    if delay_finished {
        Some(
            ProjectileSpawn {
                width: 20,
                height: 20,
                speed: FOE_PROJECTILE_SPEED,
                damage: Damage(FOE_DAMAGE),
            },
        )
    } else {
        None
    }
}

/// Whether `bullet` touches one of the first `foes` foes. `contacts` holds
/// one row per foe, and each row one flag per bullet.
pub open spec fn lands_among(contacts: Seq<Vec<bool>>, bullet: int, foes: int) -> bool {
    exists|foe: int| 0 <= foe < foes && (#[trigger] contacts[foe])@[bullet]
}

/// Whether `bullet` touches any foe.
pub open spec fn lands(contacts: Seq<Vec<bool>>, bullet: int) -> bool {
    lands_among(contacts, bullet, contacts.len() as int)
}

/// Whether the bullets' hits can be taken from the foes: there is one row of
/// flags per foe, and each foe can take the hits of its row.
pub open spec fn foe_hits_fit(
    healths: Seq<Health>,
    damages: Seq<Damage>,
    contacts: Seq<Vec<bool>>,
) -> bool {
    &&& contacts.len() == healths.len()
    &&& forall|foe: int|
        0 <= foe < contacts.len() ==> damage_fits(
            healths[foe],
            damages,
            (#[trigger] contacts[foe])@,
        )
}

/// Says whether `check_if_foe_hit` may be called with these foes and
/// bullets.
pub fn foes_can_take_hits(
    healths: &Vec<Health>,
    damages: &Vec<Damage>,
    contacts: &Vec<Vec<bool>>,
) -> (fits: bool)
    ensures
        fits == foe_hits_fit(healths@, damages@, contacts@),
{
    if contacts.len() != healths.len() {
        return false;
    }
    let mut foe: usize = 0;
    while foe < healths.len()
        invariant
            foe <= healths.len(),
            contacts.len() == healths.len(),
            forall|f: int|
                0 <= f < foe ==> damage_fits(healths[f], damages@, (#[trigger] contacts[f])@),
        decreases healths.len() - foe,
    {
        if !healths[foe].can_take_hits(damages, &contacts[foe]) {
            return false;
        }
        foe += 1;
    }
    true
}

/// What a round of hits leaves behind: for each bullet whether it is used
/// up, and for each foe whether it has fallen.
#[derive(Debug, PartialEq, Eq)]
pub struct FoeHits {
    pub spent: Vec<bool>,
    pub fallen: Vec<bool>,
}

/// Lets the ship's bullets hit the foes. `healths` holds one entry per foe,
/// `damages` one per bullet, and `contacts[foe][bullet]` says whether the
/// two touch in this frame.
///
/// Every bullet takes its damage from every foe it touches. A bullet is
/// used up when it touches at least one foe, and a foe falls when no health
/// is left to it afterwards, hit or not.
pub fn check_if_foe_hit(
    healths: &mut Vec<Health>,
    damages: &Vec<Damage>,
    contacts: &Vec<Vec<bool>>,
) -> (hits: FoeHits)
    requires
        foe_hits_fit(old(healths)@, damages@, contacts@),
    ensures
        final(healths).len() == old(healths).len(),
        forall|foe: int|
            0 <= foe < contacts.len() ==> (#[trigger] final(healths)[foe]).0
                == old(healths)[foe].0 - damage_dealt(damages@, contacts[foe]@),
        hits.fallen.len() == contacts.len(),
        forall|foe: int|
            0 <= foe < contacts.len() ==> #[trigger] hits.fallen[foe]
                == final(healths)[foe].spent(),
        hits.spent.len() == damages.len(),
        forall|bullet: int|
            0 <= bullet < damages.len() ==> #[trigger] hits.spent[bullet] == lands(
                contacts@,
                bullet,
            ),
{
    let mut spent: Vec<bool> = Vec::new();
    while spent.len() < damages.len()
        invariant
            spent.len() <= damages.len(),
            forall|bullet: int| 0 <= bullet < spent.len() ==> !#[trigger] spent[bullet],
        decreases damages.len() - spent.len(),
    {
        spent.push(false);
    }

    let mut fallen: Vec<bool> = Vec::new();
    let mut foe: usize = 0;
    while foe < healths.len()
        invariant
            foe <= healths.len(),
            healths.len() == old(healths).len(),
            foe_hits_fit(old(healths)@, damages@, contacts@),
            forall|f: int|
                0 <= f < foe ==> (#[trigger] healths[f]).0 == old(healths)[f].0 - damage_dealt(
                    damages@,
                    contacts[f]@,
                ),
            forall|f: int| foe <= f < healths.len() ==> #[trigger] healths[f] == old(healths)[f],
            fallen.len() == foe,
            forall|f: int| 0 <= f < foe ==> #[trigger] fallen[f] == healths[f].spent(),
            spent.len() == damages.len(),
            forall|bullet: int|
                0 <= bullet < damages.len() ==> #[trigger] spent[bullet] == lands_among(
                    contacts@,
                    bullet,
                    foe as int,
                ),
        decreases healths.len() - foe,
    {
        let row = &contacts[foe];
        let mut health = healths[foe];
        health.take_hits(damages, row);
        healths.set(foe, health);
        fallen.push(health.0 <= 0);

        let mut bullet: usize = 0;
        while bullet < damages.len()
            invariant
                bullet <= damages.len(),
                foe < contacts.len(),
                row == contacts[foe as int],
                row.len() == damages.len(),
                spent.len() == damages.len(),
                forall|b: int|
                    0 <= b < bullet ==> #[trigger] spent[b] == lands_among(
                        contacts@,
                        b,
                        foe + 1,
                    ),
                forall|b: int|
                    bullet <= b < damages.len() ==> #[trigger] spent[b] == lands_among(
                        contacts@,
                        b,
                        foe as int,
                    ),
            decreases damages.len() - bullet,
        {
            if row[bullet] {
                spent.set(bullet, true);
            }
            assert(lands_among(contacts@, bullet as int, foe + 1) == (lands_among(
                contacts@,
                bullet as int,
                foe as int,
            ) || contacts[foe as int]@[bullet as int]));
            bullet += 1;
        }
        foe += 1;
    }
    FoeHits { spent, fallen }
}

} // verus!
