//! How hits wear health down.
//!
//! A target meets a row of projectiles. Each projectile has a damage and a
//! flag that says whether it touches the target in this frame; those that
//! touch take their damage from the target's health, one after the other.

use vstd::prelude::*;
use crate::components::{Damage, Health};

verus! {

/// Damage done by those of the first `count` projectiles that touch the
/// target.
pub open spec fn damage_upto(damages: Seq<Damage>, contacts: Seq<bool>, count: int) -> int
    decreases count,
{
    if count <= 0 {
        0
    } else {
        damage_upto(damages, contacts, count - 1) + if contacts[count - 1] {
            damages[count - 1].0 as int
        } else {
            0
        }
    }
}

/// Damage done by all projectiles that touch the target.
pub open spec fn damage_dealt(damages: Seq<Damage>, contacts: Seq<bool>) -> int {
    damage_upto(damages, contacts, damages.len() as int)
}

/// Whether the hits can be taken from `health`: there is one flag per
/// projectile, and the health stays a 32-bit number after each single hit.
pub open spec fn damage_fits(health: Health, damages: Seq<Damage>, contacts: Seq<bool>) -> bool {
    &&& damages.len() == contacts.len()
    &&& forall|count: int|
        0 <= count <= damages.len() ==> i32::MIN <= health.0 - #[trigger] damage_upto(
            damages,
            contacts,
            count,
        ) <= i32::MAX
}

/// Without a negative damage, looking at more projectiles never finds less
/// damage done.
proof fn lemma_damage_grows(damages: Seq<Damage>, contacts: Seq<bool>, fewer: int, more: int)
    requires
        0 <= fewer <= more <= damages.len(),
        forall|i: int| 0 <= i < damages.len() ==> (#[trigger] damages[i]).0 >= 0,
    ensures
        damage_upto(damages, contacts, fewer) <= damage_upto(damages, contacts, more),
    decreases more - fewer,
{
    if fewer < more {
        lemma_damage_grows(damages, contacts, fewer, more - 1);
        assert(damages[more - 1].0 >= 0);
    }
}

/// Hits never heal: as long as no projectile has a negative damage, the
/// damage done grows with every projectile that is looked at, from zero up
/// to the damage done by all of them.
pub proof fn lemma_hits_never_heal(damages: Seq<Damage>, contacts: Seq<bool>, fewer: int, more: int)
    requires
        0 <= fewer <= more <= damages.len(),
        forall|i: int| 0 <= i < damages.len() ==> (#[trigger] damages[i]).0 >= 0,
    ensures
        0 <= damage_upto(damages, contacts, fewer) <= damage_upto(damages, contacts, more),
        damage_upto(damages, contacts, more) <= damage_dealt(damages, contacts),
{
    lemma_damage_grows(damages, contacts, 0, fewer);
    lemma_damage_grows(damages, contacts, fewer, more);
    lemma_damage_grows(damages, contacts, more, damages.len() as int);
}

impl Health {
    /// Whether this health is used up, so that its owner leaves the game.
    pub open spec fn spent(self) -> bool {
        self.0 <= 0
    }

    /// Says whether `take_hits` may be called with these projectiles.
    pub fn can_take_hits(&self, damages: &Vec<Damage>, contacts: &Vec<bool>) -> (fits: bool)
        ensures
            fits == damage_fits(*self, damages@, contacts@),
    {
        if damages.len() != contacts.len() {
            return false;
        }
        let mut left: i64 = self.0 as i64;
        let mut i: usize = 0;
        while i < damages.len()
            invariant
                i <= damages.len(),
                damages.len() == contacts.len(),
                left == self.0 - damage_upto(damages@, contacts@, i as int),
                forall|count: int|
                    0 <= count <= i ==> i32::MIN <= self.0 - #[trigger] damage_upto(
                        damages@,
                        contacts@,
                        count,
                    ) <= i32::MAX,
            decreases damages.len() - i,
        {
            if contacts[i] {
                left = left - damages[i].0 as i64;
            }
            i += 1;
            if left < i32::MIN as i64 || left > i32::MAX as i64 {
                assert(left == self.0 - damage_upto(damages@, contacts@, i as int));
                return false;
            }
        }
        true
    }

    /// Takes from this health the damage of every projectile that touches
    /// its owner.
    pub fn take_hits(&mut self, damages: &Vec<Damage>, contacts: &Vec<bool>)
        requires
            damage_fits(*old(self), damages@, contacts@),
        ensures
            final(self).0 == old(self).0 - damage_dealt(damages@, contacts@),
    {
        let mut i: usize = 0;
        while i < damages.len()
            invariant
                i <= damages.len(),
                damage_fits(*old(self), damages@, contacts@),
                self.0 == old(self).0 - damage_upto(damages@, contacts@, i as int),
            decreases damages.len() - i,
        {
            if contacts[i] {
                assert(i32::MIN <= old(self).0 - damage_upto(damages@, contacts@, i + 1)
                    <= i32::MAX);
                self.0 = self.0 - damages[i].0;
            }
            i += 1;
        }
    }
}

} // verus!
