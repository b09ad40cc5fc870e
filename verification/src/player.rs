//! Players and their per-kind ammunition inventories: buying, selecting,
//! spending ammunition, driving on a fuel budget, taking damage, and the
//! carry-over of money and inventory across round resets.

use vstd::prelude::*;

use crate::angle::Angle;
use crate::angle::HALF_PI_MRAD;
use crate::kinds::BulletCount;
use crate::kinds::BulletType;
use crate::kinds::NUM_BULLET_TYPES;
use crate::terrain::MAX_X;
use crate::terrain::MIN_X;
use crate::trig::MAX_POWER;

verus! {

/// Health a player respawns with.
pub const FULL_HEALTH: i32 = 100;

/// Fuel a player respawns with.
pub const FULL_FUEL: u32 = 1000;

/// Money awarded for eliminating another player.
pub const KILL_BOUNTY: u32 = 1000;

/// Tallest ground a tank can sit on; see the terrain's height bound.
pub const MAX_TANK_Y: u32 = 1260;

/// A player's stock of every catalog kind, indexed by the kind's catalog
/// index.
#[derive(Clone, Debug)]
pub struct Inventory {
    counts: Vec<BulletCount>,
}

impl Inventory {
    /// One stock entry per catalog kind.
    pub open spec fn wf(self) -> bool {
        self.spec_counts().len() == NUM_BULLET_TYPES
    }

    pub closed spec fn spec_counts(self) -> Seq<BulletCount> {
        self.counts@
    }

    /// The starting loadout as a sequence, for speaking about respawns.
    pub open spec fn initial_counts() -> Seq<BulletCount> {
        seq![
            BulletCount::Unlimited,
            BulletCount::Count(10u32),
            BulletCount::Count(0u32),
            BulletCount::Count(0u32),
        ]
    }

    /// The stock of one kind.
    pub open spec fn count_of(self, t: BulletType) -> BulletCount {
        self.spec_counts()[t.int_value() as int]
    }

    /// The starting loadout: unlimited regular shells, a stack of
    /// incendiaries, nothing else. Every finite stock starts within its
    /// kind's inventory cap, so the shop's purchase gate holds from the
    /// first round on.
    pub fn initial() -> (inv: Inventory)
        ensures
            inv.wf(),
            inv.spec_counts() == Inventory::initial_counts(),
            inv.count_of(BulletType::RegularBullet) == BulletCount::Unlimited,
            inv.count_of(BulletType::FireBullet) == BulletCount::Count(10u32),
            inv.count_of(BulletType::Cluster) == BulletCount::Count(0u32),
            inv.count_of(BulletType::Nuke) == BulletCount::Count(0u32),
    {
        let mut counts: Vec<BulletCount> = Vec::new();
        counts.push(BulletCount::Unlimited);
        counts.push(BulletCount::Count(10));
        counts.push(BulletCount::Count(0));
        counts.push(BulletCount::Count(0));
        proof {
            assert(counts@ =~= Inventory::initial_counts());
        }
        Inventory { counts }
    }

    /// A copy with the same stock of every kind.
    pub fn duplicate(&self) -> (inv: Inventory)
        requires
            self.wf(),
        ensures
            inv.spec_counts() == self.spec_counts(),
            inv.wf(),
    {
        let mut counts: Vec<BulletCount> = Vec::new();
        let mut i: usize = 0;
        while i < self.counts.len()
            invariant
                i <= self.counts@.len(),
                counts@.len() == i,
                forall|j: int| 0 <= j < i ==> counts@[j] == self.counts@[j],
            decreases self.counts@.len() - i,
        {
            counts.push(self.counts[i]);
            i = i + 1;
        }
        proof {
            assert(counts@ =~= self.spec_counts());
        }
        Inventory { counts }
    }

    /// The stock of one kind.
    pub fn get(&self, t: BulletType) -> (c: BulletCount)
        requires
            self.wf(),
        ensures
            c == self.count_of(t),
    {
        self.counts[t.get_int_value() as usize]
    }

    /// Replaces the stock of one kind.
    pub fn set_count(&mut self, t: BulletType, c: BulletCount)
        requires
            old(self).wf(),
        ensures
            final(self).wf(),
            final(self).spec_counts() == old(self).spec_counts().update(
                t.int_value() as int,
                c,
            ),
            final(self).count_of(t) == c,
            forall|u: BulletType|
                u.int_value() != t.int_value() ==> final(self).count_of(u) == old(self).count_of(u),
    {
        let i = t.get_int_value() as usize;
        self.counts.set(i, c);
    }
}

/// One participant of the match. Position is the tank's cell coordinate
/// and the ground height it sits on.
#[derive(Clone, Debug)]
pub struct Player {
    /// The player's dense, 0-based, stable id.
    pub player_number: u32,
    /// Hit points; transiently negative before elimination is processed.
    pub health: i32,
    /// Drive budget; movement speed degrades as this depletes.
    pub fuel: u32,
    /// Currency for the shop, carried across rounds.
    pub money: u32,
    /// Ammunition per kind, carried across rounds.
    pub inventory: Inventory,
    /// The kind the next fire action spends.
    pub selected_bullet: BulletType,
    /// Launch power for the next shot, in tenths of a speed unit.
    pub fire_power: u32,
    /// Turret elevation.
    pub aim: Angle,
    /// Tank's horizontal cell.
    pub x: i32,
    /// Ground height the tank sits at.
    pub y: u32,
    /// False once eliminated this round.
    pub alive: bool,
}

impl Player {
    pub open spec fn wf(self) -> bool {
        &&& self.inventory.wf()
        &&& self.aim.wf()
        &&& self.fire_power <= MAX_POWER
        &&& -1000 <= self.health <= FULL_HEALTH
        &&& MIN_X <= self.x <= MAX_X
        &&& self.y <= MAX_TANK_Y
    }

    /// A respawned player: full health and fuel, default aim, and the
    /// money and inventory of the previous round where there was one.
    pub fn from_previous_or_initial(index: u32, props: Option<&(u32, Inventory)>) -> (p: Player)
        requires
            props matches Some(pr) ==> pr.1.wf(),
        ensures
            p.wf(),
            p.player_number == index,
            p.health == FULL_HEALTH,
            p.fuel == FULL_FUEL,
            p.alive,
            p.aim.spec_value() == HALF_PI_MRAD,
            p.selected_bullet == BulletType::RegularBullet,
            p.fire_power == 10,
            p.x == 0,
            p.y == 0,
            match props {
                Some(pr) => p.money == pr.0 && p.inventory.spec_counts() == pr.1.spec_counts(),
                None => p.money == 0 && p.inventory.spec_counts() == Inventory::initial_counts(),
            },
    {
        let (money, inventory) = match props {
            Some(pr) => (pr.0, pr.1.duplicate()),
            None => (0, Inventory::initial()),
        };
        Player {
            player_number: index,
            health: FULL_HEALTH,
            fuel: FULL_FUEL,
            money,
            inventory,
            selected_bullet: BulletType::RegularBullet,
            fire_power: 10,
            aim: Angle::default(),
            x: 0,
            y: 0,
            alive: true,
        }
    }

    /// Spends up to `fuel_change` fuel (never below empty) and returns the
    /// remaining fuel, which callers use as the movement budget: a drier
    /// tank drives slower.
    pub fn drive(&mut self, fuel_change: u32) -> (remaining: u32)
        ensures
            final(self).fuel == if old(self).fuel > fuel_change {
                old(self).fuel - fuel_change
            } else {
                0
            },
            remaining == final(self).fuel,
            same_but_fuel(*old(self), *final(self)),
            *final(self) == (Player { fuel: final(self).fuel, ..*old(self) }),
    {
        self.fuel = if self.fuel > fuel_change {
            self.fuel - fuel_change
        } else {
            0
        };
        self.fuel
    }

    /// Whether a purchase of `t` would succeed right now: the player can
    /// afford it and is under the kind's inventory cap.
    pub open spec fn can_buy(self, t: BulletType) -> bool {
        &&& self.money >= t.cost()
        &&& self.inventory.count_of(t) matches BulletCount::Count(n) && n < t.max_count()
    }

    /// A shop purchase: exactly when the player has the kind's cost and is
    /// under its cap, the cost is deducted and the stock rises by one;
    /// otherwise money and stock are both untouched.
    pub fn buy(&mut self, t: BulletType) -> (bought: bool)
        requires
            old(self).wf(),
        ensures
            final(self).wf(),
            bought == old(self).can_buy(t),
            old(self).can_buy(t) ==> {
                &&& final(self).money == old(self).money - t.cost()
                &&& final(self).inventory.count_of(t) == old(self).inventory.count_of(
                    t,
                ).incremented()
                &&& forall|u: BulletType|
                    u.int_value() != t.int_value() ==> final(self).inventory.count_of(u) == old(self).inventory.count_of(u)
            },
            !old(self).can_buy(t) ==> *final(self) == *old(self),
            same_but_money_and_inventory(*old(self), *final(self)),
            *final(self) == (Player {
                money: final(self).money,
                inventory: final(self).inventory,
                ..*old(self)
            }),
    {
        let cost = t.get_cost();
        let current = self.inventory.get(t);
        match current {
            BulletCount::Unlimited => false,
            BulletCount::Count(n) => {
                if self.money >= cost && n < t.get_max_count() {
                    self.money = self.money - cost;
                    self.inventory.set_count(t, BulletCount::Count(n + 1));
                    true
                } else {
                    false
                }
            },
        }
    }

    /// Switches the selected kind, but only to one the player actually
    /// holds (or holds unlimited of).
    pub fn select(&mut self, t: BulletType)
        requires
            old(self).wf(),
        ensures
            final(self).wf(),
            final(self).selected_bullet == if old(self).inventory.count_of(t).is_available() {
                t
            } else {
                old(self).selected_bullet
            },
            same_but_selected(*old(self), *final(self)),
            *final(self) == (Player { selected_bullet: final(self).selected_bullet, ..*old(self) }),
    {
        if self.inventory.get(t).available() {
            self.selected_bullet = t;
        }
    }

    /// Spends one unit of the selected kind for a fire action; unlimited
    /// stock is left as it is.
    pub fn consume_selected(&mut self)
        requires
            old(self).wf(),
            old(self).inventory.count_of(old(self).selected_bullet).is_available(),
        ensures
            final(self).wf(),
            final(self).inventory.count_of(old(self).selected_bullet) == old(self).inventory.count_of(old(self).selected_bullet).decremented(),
            forall|u: BulletType|
                u.int_value() != old(self).selected_bullet.int_value() ==> final(self).inventory.count_of(u) == old(self).inventory.count_of(u),
            same_but_money_and_inventory(*old(self), *final(self)),
            final(self).money == old(self).money,
            *final(self) == (Player { inventory: final(self).inventory, ..*old(self) }),
    {
        let t = self.selected_bullet;
        let current = self.inventory.get(t);
        let next = current.decrement();
        self.inventory.set_count(t, next);
    }
}

/// Everything except fuel is unchanged.
pub open spec fn same_but_fuel(a: Player, b: Player) -> bool {
    &&& b.player_number == a.player_number
    &&& b.health == a.health
    &&& b.money == a.money
    &&& b.inventory.spec_counts() == a.inventory.spec_counts()
    &&& b.selected_bullet == a.selected_bullet
    &&& b.fire_power == a.fire_power
    &&& b.aim == a.aim
    &&& b.x == a.x
    &&& b.y == a.y
    &&& b.alive == a.alive
}

/// Everything except money and inventory is unchanged.
pub open spec fn same_but_money_and_inventory(a: Player, b: Player) -> bool {
    &&& b.player_number == a.player_number
    &&& b.health == a.health
    &&& b.fuel == a.fuel
    &&& b.selected_bullet == a.selected_bullet
    &&& b.fire_power == a.fire_power
    &&& b.aim == a.aim
    &&& b.x == a.x
    &&& b.y == a.y
    &&& b.alive == a.alive
}

/// Everything except the selected kind is unchanged.
pub open spec fn same_but_selected(a: Player, b: Player) -> bool {
    &&& b.player_number == a.player_number
    &&& b.health == a.health
    &&& b.fuel == a.fuel
    &&& b.money == a.money
    &&& b.inventory.spec_counts() == a.inventory.spec_counts()
    &&& b.fire_power == a.fire_power
    &&& b.aim == a.aim
    &&& b.x == a.x
    &&& b.y == a.y
    &&& b.alive == a.alive
}

} // verus!
