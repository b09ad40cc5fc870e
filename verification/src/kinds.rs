//! The projectile catalog: the closed set of projectile kinds with their
//! shop cost, inventory cap, impact radius and damage, and the per-kind
//! ammunition count carried by a player.

use vstd::prelude::*;

verus! {

/// Number of entries in the projectile catalog.
pub const NUM_BULLET_TYPES: u32 = 4;

/// A projectile kind: one entry of the immutable catalog.
#[derive(Clone, Copy, PartialEq, Eq, Structural, Debug)]
pub enum BulletType {
    /// Cheap default shell; unlimited for every player.
    RegularBullet,
    /// Incendiary shell.
    FireBullet,
    /// Splits into five regular shells on impact.
    Cluster,
    /// Large radius, large damage.
    Nuke,
}

impl BulletType {
    /// The kind's stable catalog index.
    pub fn get_int_value(&self) -> (v: u32)
        ensures
            v == self.int_value(),
    {
        match self {
            BulletType::RegularBullet => 0,
            BulletType::FireBullet => 1,
            BulletType::Cluster => 2,
            BulletType::Nuke => 3,
        }
    }

    /// The catalog index of each kind, as a mathematical map.
    pub open spec fn int_value(self) -> u32 {
        match self {
            BulletType::RegularBullet => 0,
            BulletType::FireBullet => 1,
            BulletType::Cluster => 2,
            BulletType::Nuke => 3,
        }
    }

    /// The kind at a catalog index; indices come only from the kind set itself.
    pub fn get_from_int(value: u32) -> (t: BulletType)
        requires
            value < NUM_BULLET_TYPES,
        ensures
            t.int_value() == value,
    {
        match value {
            0 => BulletType::RegularBullet,
            1 => BulletType::FireBullet,
            2 => BulletType::Cluster,
            _ => BulletType::Nuke,
        }
    }

    /// The kind after `self` in catalog order, wrapping past the last entry.
    pub fn next_wrapping(&self) -> (t: BulletType)
        ensures
            t.int_value() == (self.int_value() + 1) % (NUM_BULLET_TYPES as int),
    {
        match self {
            BulletType::RegularBullet => BulletType::FireBullet,
            BulletType::FireBullet => BulletType::Cluster,
            BulletType::Cluster => BulletType::Nuke,
            BulletType::Nuke => BulletType::RegularBullet,
        }
    }

    /// Every kind, in catalog order.
    pub fn all_types() -> (v: Vec<BulletType>)
        ensures
            v@.len() == NUM_BULLET_TYPES,
            forall|i: int| 0 <= i < v@.len() ==> v@[i].int_value() == i,
    {
        let mut v: Vec<BulletType> = Vec::new();
        v.push(BulletType::RegularBullet);
        v.push(BulletType::FireBullet);
        v.push(BulletType::Cluster);
        v.push(BulletType::Nuke);
        v
    }

    /// Currency price of one unit in the shop.
    pub fn get_cost(&self) -> (c: u32)
        ensures
            c == self.cost(),
    {
        match self {
            BulletType::RegularBullet => 0,
            BulletType::FireBullet => 10,
            BulletType::Cluster => 50,
            BulletType::Nuke => 100,
        }
    }

    pub open spec fn cost(self) -> u32 {
        match self {
            BulletType::RegularBullet => 0,
            BulletType::FireBullet => 10,
            BulletType::Cluster => 50,
            BulletType::Nuke => 100,
        }
    }

    /// Most units of this kind a player may hold.
    pub fn get_max_count(&self) -> (m: u32)
        ensures
            m == self.max_count(),
    {
        match self {
            BulletType::RegularBullet => u32::MAX,
            BulletType::FireBullet => 20,
            BulletType::Cluster => 10,
            BulletType::Nuke => 3,
        }
    }

    pub open spec fn max_count(self) -> u32 {
        match self {
            BulletType::RegularBullet => u32::MAX,
            BulletType::FireBullet => 20,
            BulletType::Cluster => 10,
            BulletType::Nuke => 3,
        }
    }

    /// Health points taken from a player hit by this kind.
    pub fn get_damage(&self) -> (d: u32)
        ensures
            d == self.damage(),
    {
        match self {
            BulletType::RegularBullet => 10,
            BulletType::FireBullet => 20,
            BulletType::Cluster => 10,
            BulletType::Nuke => 50,
        }
    }

    pub open spec fn damage(self) -> u32 {
        match self {
            BulletType::RegularBullet => 10,
            BulletType::FireBullet => 20,
            BulletType::Cluster => 10,
            BulletType::Nuke => 50,
        }
    }

    /// Width of the crater blown into the terrain on a ground hit.
    pub fn get_radius(&self) -> (r: u32)
        ensures
            r == self.radius(),
    {
        match self {
            BulletType::RegularBullet => 10,
            BulletType::FireBullet => 10,
            BulletType::Cluster => 10,
            BulletType::Nuke => 100,
        }
    }

    pub open spec fn radius(self) -> u32 {
        match self {
            BulletType::RegularBullet => 10,
            BulletType::FireBullet => 10,
            BulletType::Cluster => 10,
            BulletType::Nuke => 100,
        }
    }
}

/// How many units of one kind a player holds.
#[derive(Clone, Copy, PartialEq, Eq, Structural, Debug)]
pub enum BulletCount {
    /// Never runs out and is never decremented below availability.
    Unlimited,
    /// A finite stock.
    Count(u32),
}

impl BulletCount {
    /// One more unit; an unlimited stock stays unlimited.
    pub fn increment(&self) -> (c: BulletCount)
        requires
            self is Count ==> self->0 < u32::MAX,
        ensures
            c == self.incremented(),
    {
        match self {
            BulletCount::Unlimited => BulletCount::Unlimited,
            BulletCount::Count(count) => BulletCount::Count(count + 1),
        }
    }

    pub open spec fn incremented(self) -> BulletCount {
        match self {
            BulletCount::Unlimited => BulletCount::Unlimited,
            BulletCount::Count(count) => BulletCount::Count((count + 1) as u32),
        }
    }

    /// One unit spent; callers gate on availability, so a finite stock is
    /// never decremented at zero.
    pub fn decrement(&self) -> (c: BulletCount)
        requires
            self is Count ==> self->0 > 0,
        ensures
            c == self.decremented(),
    {
        match self {
            BulletCount::Unlimited => BulletCount::Unlimited,
            BulletCount::Count(count) => BulletCount::Count(count - 1),
        }
    }

    pub open spec fn decremented(self) -> BulletCount {
        match self {
            BulletCount::Unlimited => BulletCount::Unlimited,
            BulletCount::Count(count) => BulletCount::Count((count - 1) as u32),
        }
    }

    /// Whether a fire action can draw one unit from this stock.
    pub fn available(&self) -> (b: bool)
        ensures
            b == self.is_available(),
    {
        match self {
            BulletCount::Unlimited => true,
            BulletCount::Count(count) => *count > 0,
        }
    }

    pub open spec fn is_available(self) -> bool {
        match self {
            BulletCount::Unlimited => true,
            BulletCount::Count(count) => count > 0,
        }
    }
}

} // verus!
