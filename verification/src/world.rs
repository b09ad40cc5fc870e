//! The match state: phase, players, terrain, wind, the projectiles in
//! flight, and the turn rotation. All mutation enters through the message
//! handlers and the simulation tick.

use vstd::prelude::*;

use crate::ballistics::MAX_WIND;
use crate::ballistics::Projectile;
use crate::ballistics::Vec2i;
use crate::kinds::BulletType;
use crate::messages::GameMode;
use crate::messages::BattleMessage;
use crate::messages::ShopMessage;
use crate::messages::StartMenuMessage;
use crate::player::FULL_FUEL;
use crate::player::FULL_HEALTH;
use crate::player::Inventory;
use crate::player::Player;
use crate::player::same_but_money_and_inventory;
use crate::player::same_but_selected;
use crate::rng::random_in_range;
use crate::terrain::MAX_SEED;
use crate::terrain::MAX_X;
use crate::terrain::MIN_SEED;
use crate::terrain::MIN_X;
use crate::terrain::TERRAIN_CELLS;
use crate::terrain::Terrain;
use crate::trig::MAX_POWER;
use crate::trig::muzzle_velocity;
use crate::trig::vel_x_of;
use crate::trig::vel_y_of;

verus! {

/// Most players a match can be configured for.
pub const MAX_PLAYERS: u32 = 19;

/// Shells leave the barrel this far above the tank's ground cell.
pub const MUZZLE_OFFSET: i64 = 20;

/// Fuel one movement intent burns.
pub const DRIVE_FUEL_COST: u32 = 10;

/// How many living players count as a decided round.
pub const ROUND_DECIDED_BELOW: u32 = 2;

/// How many alive players a sequence of players holds.
pub open spec fn living_count(players: Seq<Player>) -> int
    decreases players.len(),
{
    if players.len() == 0 {
        0
    } else {
        living_count(players.drop_last()) + if players.last().alive {
            1int
        } else {
            0int
        }
    }
}

/// The rotation search: the first alive player at cyclic offsets `step`,
/// `step + 1`, ... from `cur`; `cur` itself if a whole lap finds nobody.
pub open spec fn next_active_search(players: Seq<Player>, cur: int, step: int) -> int
    decreases players.len() + 1 - step,
{
    if step > players.len() || step < 1 || players.len() == 0 {
        cur
    } else {
        let idx = (cur + step) % (players.len() as int);
        if players[idx].alive {
            idx
        } else {
            next_active_search(players, cur, step + 1)
        }
    }
}

/// Whom the turn passes to after `cur`: the next player in cyclic id
/// order, skipping the eliminated; `cur` when nobody at all is alive.
pub open spec fn next_active(players: Seq<Player>, cur: int) -> int {
    next_active_search(players, cur, 1)
}

/// Where player `i` spawns for a round with terrain shape `seed`: spread
/// rightward from the left side, stretched by the shape scalar, and held
/// inside the playable domain.
pub open spec fn spawn_x(i: int, seed: int) -> int {
    let raw = -520 + (i * 300 * seed) / 100;
    if raw > MAX_X {
        MAX_X as int
    } else {
        raw
    }
}

/// Law: the rotation skips the eliminated. Whenever anyone at all is
/// alive, the player the rotation picks is alive.
pub proof fn lemma_next_active_alive(players: Seq<Player>, cur: int)
    requires
        0 <= cur < players.len(),
        exists|i: int| 0 <= i < players.len() && (#[trigger] players[i]).alive,
    ensures
        players[next_active(players, cur)].alive,
{
    let n = players.len() as int;
    let i = choose|i: int| 0 <= i < n && (#[trigger] players[i]).alive;
    let s = if i > cur {
        i - cur
    } else {
        i + n - cur
    };
    assert((cur + s) % n == i) by {
        if i > cur {
            vstd::arithmetic::div_mod::lemma_small_mod(i as nat, n as nat);
        } else {
            vstd::arithmetic::div_mod::lemma_mod_multiples_vanish(1, i, n);
            vstd::arithmetic::div_mod::lemma_small_mod(i as nat, n as nat);
        }
    }
    lemma_search_finds(players, cur, 1, s);
}

/// The rotation search started at offset `lo` lands on a living player,
/// as long as some offset at or past `lo` (within one lap) holds one.
proof fn lemma_search_finds(players: Seq<Player>, cur: int, lo: int, s: int)
    requires
        0 <= cur < players.len(),
        1 <= lo <= s <= players.len(),
        players[(cur + s) % (players.len() as int)].alive,
    ensures
        players[next_active_search(players, cur, lo)].alive,
    decreases s - lo,
{
    let n = players.len() as int;
    vstd::arithmetic::div_mod::lemma_mod_bound(cur + lo, n);
    let idx = (cur + lo) % n;
    if players[idx].alive {
    } else {
        assert(lo < s);
        lemma_search_finds(players, cur, lo + 1, s);
    }
}

/// The whole simulation state of one match.
pub struct World {
    /// Current phase.
    pub mode: GameMode,
    /// How many players the next (or current) match has.
    pub player_count: u32,
    /// Whose turn it is.
    pub active_player: u32,
    /// All participants, indexed by their id.
    pub players: Vec<Player>,
    /// The destructible ground.
    pub terrain: Terrain,
    /// Shells currently in flight.
    pub projectiles: Vec<Projectile>,
    /// Horizontal acceleration applied to shells this turn; even, bounded.
    pub wind: i32,
    /// Count of shells in flight; zero again is the end-of-turn signal.
    pub in_flight: usize,
    /// Whether the active player has fired this turn; a turn only ends
    /// after at least one fire action.
    pub fired_this_turn: bool,
}

impl World {
    pub open spec fn wf(self) -> bool {
        &&& 1 <= self.player_count <= MAX_PLAYERS
        &&& self.active_player < self.player_count
        &&& self.players@.len() <= MAX_PLAYERS
        &&& self.mode != GameMode::StartMenu ==> self.players@.len() == self.player_count
        &&& forall|i: int|
            0 <= i < self.players@.len() ==> (#[trigger] self.players@[i]).wf()
                && self.players@[i].player_number == i && (self.players@[i].alive
                ==> self.players@[i].health >= 0)
        &&& self.terrain.wf()
        &&& -MAX_WIND <= self.wind <= MAX_WIND
        &&& self.wind % 2 == 0
        &&& self.in_flight == self.projectiles@.len()
        &&& forall|j: int|
            0 <= j < self.projectiles@.len() ==> (#[trigger] self.projectiles@[j]).bounded()
                && self.projectiles@[j].owner < self.players@.len()
    }

    /// A fresh world, waiting in the start menu for two players.
    pub fn new() -> (w: World)
        ensures
            w.wf(),
            w.mode == GameMode::StartMenu,
            w.player_count == 2,
            w.active_player == 0,
            w.players@.len() == 0,
            w.in_flight == 0,
            !w.fired_this_turn,
            forall|c: int| 0 <= c < TERRAIN_CELLS ==> w.terrain.spec_damage()[c] == 0,
    {
        let wind = sample_wind();
        let seed = sample_seed();
        World {
            mode: GameMode::StartMenu,
            player_count: 2,
            active_player: 0,
            players: Vec::new(),
            terrain: Terrain::new(seed),
            projectiles: Vec::new(),
            wind,
            in_flight: 0,
            fired_this_turn: false,
        }
    }

    /// How many players are still alive.
    pub fn count_living(&self) -> (n: u32)
        requires
            self.wf(),
        ensures
            n == living_count(self.players@),
    {
        let mut n: u32 = 0;
        let mut i: usize = 0;
        while i < self.players.len()
            invariant
                i <= self.players@.len(),
                self.players@.len() <= MAX_PLAYERS,
                n == living_count(self.players@.subrange(0, i as int)),
                n <= i,
            decreases self.players@.len() - i,
        {
            proof {
                assert(self.players@.subrange(0, i + 1 as int).drop_last() =~= self.players@.subrange(
                    0,
                    i as int,
                ));
                assert(self.players@.subrange(0, i + 1 as int).last() == self.players@[i as int]);
            }
            if self.players[i].alive {
                n = n + 1;
            }
            i = i + 1;
        }
        proof {
            assert(self.players@.subrange(0, self.players@.len() as int) =~= self.players@);
        }
        n
    }

    /// Passes the turn to the next living player in id order, wrapping
    /// around, and skipping the eliminated. When nobody is alive the
    /// active player stays, rather than searching forever.
    pub fn increment_player(&mut self)
        requires
            old(self).wf(),
            old(self).mode != GameMode::StartMenu,
        ensures
            final(self).wf(),
            final(self).active_player == next_active(
                old(self).players@,
                old(self).active_player as int,
            ),
            *final(self) == (World { active_player: final(self).active_player, ..*old(self) }),
    {
        let next = search_next(&self.players, self.active_player, 1);
        self.active_player = next;
    }

    /// Fires the active player's selected kind, when battle is quiet (no
    /// shell already in flight is a caller-side gate) and the stock is not
    /// empty: spends one unit, spawns one shell just above the tank with
    /// the muzzle velocity of the player's aim and power, raises the
    /// in-flight counter by one and latches that this turn saw a fire.
    /// With an empty stock, a fire intent does nothing at all.
    pub fn fire(&mut self)
        requires
            old(self).wf(),
            old(self).mode == GameMode::Battle,
        ensures
            final(self).wf(),
            fire_applied(*old(self), *final(self)),
    {
        let i = self.active_player as usize;
        let available = self.players[i].inventory.get(self.players[i].selected_bullet).available();
        if !available {
            return ;
        }
        let mut shooter = self.players.remove(i);
        shooter.consume_selected();
        let (vx, vy) = muzzle_velocity(&shooter.aim, shooter.fire_power);
        let shell = Projectile {
            pos: Vec2i { x: shooter.x as i64, y: shooter.y as i64 + MUZZLE_OFFSET },
            vel: Vec2i { x: vx, y: vy },
            owner: self.active_player,
            kind: shooter.selected_bullet,
        };
        self.players.insert(i, shooter);
        proof {
            assert(self.players@ =~= old(self).players@.update(
                i as int,
                self.players@[i as int],
            ));
            let shooter0 = old(self).players@[old(self).active_player as int];
            assert(shell == Projectile {
                pos: Vec2i { x: shooter0.x as i64, y: (shooter0.y + MUZZLE_OFFSET) as i64 },
                vel: Vec2i {
                    x: vel_x_of(
                        shooter0.aim.spec_value() as int,
                        shooter0.fire_power as int,
                    ) as i64,
                    y: vel_y_of(
                        shooter0.aim.spec_value() as int,
                        shooter0.fire_power as int,
                    ) as i64,
                },
                owner: old(self).active_player,
                kind: shooter0.selected_bullet,
            });
        }
        self.projectiles.push(shell);
        self.in_flight = self.projectiles.len();
        self.fired_this_turn = true;
    }
}

/// What a round (or match) reset leaves behind, given the state before
/// it: a full roster of living players at full health and fuel on fresh
/// terrain, each carrying the money and inventory they held before (new
/// seats start empty-handed), no shells in flight, and the turn back at
/// player 0.
pub open spec fn reset_round(pre: World, post: World) -> bool {
    &&& post.player_count == pre.player_count
    &&& post.active_player == 0
    &&& post.projectiles@.len() == 0
    &&& post.in_flight == 0
    &&& !post.fired_this_turn
    &&& post.players@.len() == post.player_count
    &&& forall|i: int|
        0 <= i < post.players@.len() ==> {
            let p = #[trigger] post.players@[i];
            &&& p.alive
            &&& p.health == FULL_HEALTH
            &&& p.fuel == FULL_FUEL
            &&& p.player_number == i
            &&& p.x == spawn_x(i, post.terrain.spec_seed() as int)
            &&& p.y == post.terrain.height_of(p.x as int)
            &&& (if i < pre.players@.len() {
                p.money == pre.players@[i].money && p.inventory.spec_counts()
                    == pre.players@[i].inventory.spec_counts()
            } else {
                p.money == 0 && p.inventory.spec_counts() == Inventory::initial_counts()
            })
        }
    &&& forall|c: int| 0 <= c < TERRAIN_CELLS ==> post.terrain.spec_damage()[c] == 0
}

/// The x cell a tank ends on after one movement intent with `remaining`
/// fuel left: a tenth of a cell per fuel unit, held inside the domain.
pub open spec fn moved_x(x: int, remaining: int, right: bool) -> int {
    let d = remaining / 100;
    crate::terrain::clamp_x(
        if right {
            x + d
        } else {
            x - d
        },
    )
}

/// Nothing observable changed: every field is as before, and the roster
/// holds the same players (even if its storage was rebuilt in place).
pub open spec fn same_world(pre: World, post: World) -> bool {
    &&& post == (World { players: post.players, ..pre })
    &&& post.players@ == pre.players@
}

/// Only the roster may differ, and in it only the active player's seat.
pub open spec fn only_active_changed(pre: World, post: World) -> bool {
    &&& post == (World { players: post.players, ..pre })
    &&& post.players@.len() == pre.players@.len()
    &&& forall|i: int|
        0 <= i < post.players@.len() && i != pre.active_player ==> post.players@[i]
            == pre.players@[i]
}

/// The exact effect of one movement intent: fuel burns (never below
/// empty), the tank travels a tenth of a cell per remaining fuel unit,
/// stays inside the domain, and settles on the ground of its new cell.
pub open spec fn moved_applied(pre: World, post: World, right: bool) -> bool {
    let before = pre.players@[pre.active_player as int];
    let after = post.players@[pre.active_player as int];
    let rem = if before.fuel > DRIVE_FUEL_COST {
        before.fuel - DRIVE_FUEL_COST
    } else {
        0int
    };
    &&& only_active_changed(pre, post)
    &&& after.fuel == rem
    &&& after.x == moved_x(before.x as int, rem, right)
    &&& after.y == pre.terrain.height_of(after.x as int)
    &&& after == (Player { fuel: after.fuel, x: after.x, y: after.y, ..before })
}

/// The exact effect of one aim intent: an in-domain value is stored, an
/// out-of-domain one rejected with the old aim kept.
pub open spec fn angle_set_applied(pre: World, post: World, value: u32) -> bool {
    let before = pre.players@[pre.active_player as int];
    let after = post.players@[pre.active_player as int];
    &&& only_active_changed(pre, post)
    &&& after.aim.spec_value() == (if value <= crate::angle::PI_MRAD {
        value
    } else {
        before.aim.spec_value()
    })
    &&& after == (Player { aim: after.aim, ..before })
}

/// The exact effect of one launch-power intent: a value inside the power
/// range is stored, one beyond it rejected with the old power kept.
pub open spec fn power_set_applied(pre: World, post: World, value: u32) -> bool {
    let before = pre.players@[pre.active_player as int];
    let after = post.players@[pre.active_player as int];
    &&& only_active_changed(pre, post)
    &&& after.fire_power == (if value <= MAX_POWER {
        value
    } else {
        before.fire_power
    })
    &&& after == (Player { fire_power: after.fire_power, ..before })
}

/// The exact effect of one kind-selection intent: only a kind the player
/// actually holds (or holds unlimited of) becomes the selection.
pub open spec fn selection_applied(pre: World, post: World, t: BulletType) -> bool {
    let before = pre.players@[pre.active_player as int];
    let after = post.players@[pre.active_player as int];
    &&& only_active_changed(pre, post)
    &&& after.selected_bullet == (if before.inventory.count_of(t).is_available() {
        t
    } else {
        before.selected_bullet
    })
    &&& after == (Player { selected_bullet: after.selected_bullet, ..before })
}

/// The exact effect of one fire intent on a quiet battle: with an empty
/// stock nothing at all; otherwise one unit of the selected kind is
/// spent, one shell of that kind appears at the end of the flight list,
/// spawned just above the firer's tank with the muzzle velocity of their
/// aim and power, the in-flight count rises by one and the fire latch is
/// set. Nothing else changes.
pub open spec fn fire_applied(pre: World, post: World) -> bool {
    let shooter = pre.players@[pre.active_player as int];
    if shooter.inventory.count_of(shooter.selected_bullet).is_available() {
        let after = post.players@[pre.active_player as int];
        &&& post == (World {
            players: post.players,
            projectiles: post.projectiles,
            in_flight: post.in_flight,
            fired_this_turn: true,
            ..pre
        })
        &&& post.in_flight == pre.in_flight + 1
        &&& post.projectiles@ == pre.projectiles@.push(
            Projectile {
                pos: Vec2i { x: shooter.x as i64, y: (shooter.y + MUZZLE_OFFSET) as i64 },
                vel: Vec2i {
                    x: vel_x_of(shooter.aim.spec_value() as int, shooter.fire_power as int) as i64,
                    y: vel_y_of(shooter.aim.spec_value() as int, shooter.fire_power as int) as i64,
                },
                owner: pre.active_player,
                kind: shooter.selected_bullet,
            },
        )
        &&& post.players@.len() == pre.players@.len()
        &&& (forall|i: int|
            0 <= i < post.players@.len() && i != pre.active_player ==> post.players@[i]
                == pre.players@[i])
        &&& after == (Player { inventory: after.inventory, ..shooter })
        &&& after.inventory.count_of(shooter.selected_bullet) == shooter.inventory.count_of(
            shooter.selected_bullet,
        ).decremented()
        &&& (forall|u: BulletType|
            u.int_value() != shooter.selected_bullet.int_value() ==> after.inventory.count_of(u)
                == shooter.inventory.count_of(u))
    } else {
        post == pre
    }
}

/// The exact effect of one battle intent: while shells are in flight only
/// a reset request is heard (and changes nothing by itself); on a quiet
/// battle each intent acts exactly as its operation states.
pub open spec fn battle_message_applied(pre: World, post: World, msg: BattleMessage) -> bool {
    if pre.in_flight > 0 && !(msg is Reset) {
        post == pre
    } else {
        match msg {
            BattleMessage::Reset => post == pre,
            BattleMessage::MoveRight => moved_applied(pre, post, true),
            BattleMessage::MoveLeft => moved_applied(pre, post, false),
            BattleMessage::Fire => fire_applied(pre, post),
            BattleMessage::SetVelocity(v) => power_set_applied(pre, post, v),
            BattleMessage::SetAngle(a) => angle_set_applied(pre, post, a),
            BattleMessage::SelectBullet(t) => selection_applied(pre, post, t),
        }
    }
}

/// The exact effect of one purchase intent: exactly when the active
/// player can afford the kind and is under its cap, the cost is deducted
/// and the stock rises by one; otherwise nothing changes at all.
pub open spec fn purchase_applied(pre: World, post: World, t: BulletType) -> bool {
    let before = pre.players@[pre.active_player as int];
    let after = post.players@[pre.active_player as int];
    &&& only_active_changed(pre, post)
    &&& (before.can_buy(t) ==> {
        &&& after == (Player { money: after.money, inventory: after.inventory, ..before })
        &&& after.money == before.money - t.cost()
        &&& after.inventory.count_of(t) == before.inventory.count_of(t).incremented()
        &&& (forall|u: BulletType|
            u.int_value() != t.int_value() ==> after.inventory.count_of(u)
                == before.inventory.count_of(u))
    })
    &&& (!before.can_buy(t) ==> same_world(pre, post))
}

/// The exact effect of one shop intent: a gated purchase, or the end of
/// the shop turn — from the last seat the match returns to battle through
/// a round reset, otherwise only the wind is rerolled and the turn passes
/// to the next living player.
pub open spec fn shop_message_applied(pre: World, post: World, msg: ShopMessage) -> bool {
    match msg {
        ShopMessage::BuyItem(t) => purchase_applied(pre, post, t),
        ShopMessage::EndTurn => {
            if pre.active_player == pre.player_count - 1 {
                &&& post.mode == GameMode::Battle
                &&& reset_round(pre, post)
            } else {
                &&& post == (World {
                    active_player: post.active_player,
                    wind: post.wind,
                    ..pre
                })
                &&& post.active_player == next_active(pre.players@, pre.active_player as int)
            }
        },
    }
}

/// The exact effect of one start menu intent: a count the menu accepts is
/// stored (rewinding the turn marker), any other count changes nothing;
/// starting enters battle through a full round reset.
pub open spec fn startmenu_message_applied(pre: World, post: World, msg: StartMenuMessage) -> bool {
    match msg {
        StartMenuMessage::ChoosePlayerCount(n) => {
            if 1 <= n <= MAX_PLAYERS {
                post == (World { player_count: n, active_player: 0u32, ..pre })
            } else {
                post == pre
            }
        },
        StartMenuMessage::Start => {
            &&& post.mode == GameMode::Battle
            &&& reset_round(pre, post)
        },
    }
}

impl World {
    /// Rebuilds the round: rerolls wind and terrain, respawns the full
    /// roster alive at full health and fuel on the fresh ground, carrying
    /// money and inventory over, clears all shells, and hands the turn to
    /// player 0. The phase is left alone.
    pub fn reset(&mut self)
        requires
            old(self).wf(),
        ensures
            final(self).wf(),
            final(self).mode == old(self).mode,
            reset_round(*old(self), *final(self)),
    {
        let mut carry: Vec<(u32, Inventory)> = Vec::new();
        let mut i: usize = 0;
        while i < self.players.len()
            invariant
                old(self).wf(),
                *self == *old(self),
                i <= self.players@.len(),
                carry@.len() == i,
                forall|j: int|
                    0 <= j < i ==> (#[trigger] carry@[j]).0 == self.players@[j].money
                        && carry@[j].1.spec_counts() == self.players@[j].inventory.spec_counts()
                        && carry@[j].1.wf(),
            decreases self.players@.len() - i,
        {
            let money = self.players[i].money;
            let inv = self.players[i].inventory.duplicate();
            carry.push((money, inv));
            i = i + 1;
        }
        let seed = sample_seed();
        self.terrain.reset(seed);
        self.wind = sample_wind();
        self.active_player = 0;
        self.projectiles = Vec::new();
        self.in_flight = 0;
        self.fired_this_turn = false;
        let count = self.player_count;
        let mut roster: Vec<Player> = Vec::new();
        let mut k: u32 = 0;
        while k < count
            invariant
                old(self).wf(),
                count == old(self).player_count,
                k <= count,
                roster@.len() == k,
                self.terrain.wf(),
                self.terrain.spec_seed() == seed,
                forall|c: int| 0 <= c < TERRAIN_CELLS ==> self.terrain.spec_damage()[c] == 0,
                carry@.len() == old(self).players@.len(),
                forall|j: int|
                    0 <= j < carry@.len() ==> (#[trigger] carry@[j]).0 == old(
                        self,
                    ).players@[j].money && carry@[j].1.spec_counts() == old(
                        self,
                    ).players@[j].inventory.spec_counts() && carry@[j].1.wf(),
                forall|j: int|
                    0 <= j < k ==> {
                        let p = #[trigger] roster@[j];
                        &&& p.wf()
                        &&& p.alive
                        &&& p.health == FULL_HEALTH
                        &&& p.fuel == FULL_FUEL
                        &&& p.player_number == j
                        &&& p.x == spawn_x(j, seed as int)
                        &&& p.y == self.terrain.height_of(p.x as int)
                        &&& (if j < old(self).players@.len() {
                            p.money == old(self).players@[j].money && p.inventory.spec_counts()
                                == old(self).players@[j].inventory.spec_counts()
                        } else {
                            p.money == 0 && p.inventory.spec_counts()
                                == Inventory::initial_counts()
                        })
                    },
            decreases count - k,
        {
            let props = if (k as usize) < carry.len() {
                Some(&carry[k as usize])
            } else {
                None
            };
            let mut p = Player::from_previous_or_initial(k, props);
            let x = spawn_position(k, seed);
            p.x = x;
            p.y = self.terrain.height_at(x);
            roster.push(p);
            k = k + 1;
        }
        self.players = roster;
    }

    /// Switches the phase, rebuilding the round as every phase entry does.
    pub fn set_phase(&mut self, mode: GameMode)
        requires
            old(self).wf(),
        ensures
            final(self).wf(),
            final(self).mode == mode,
            reset_round(*old(self), *final(self)),
    {
        self.reset();
        self.mode = mode;
    }
}

impl World {
    /// Moves the active player's tank one movement intent in the given
    /// direction: burns fuel, travels a tenth of a cell per remaining fuel
    /// unit (an emptier tank crawls), stays inside the domain, and settles
    /// on the ground at the new cell.
    pub fn move_active(&mut self, right: bool)
        requires
            old(self).wf(),
            old(self).mode == GameMode::Battle,
        ensures
            final(self).wf(),
            ({
                let before = old(self).players@[old(self).active_player as int];
                let after = final(self).players@[old(self).active_player as int];
                let rem = if before.fuel > DRIVE_FUEL_COST {
                    before.fuel - DRIVE_FUEL_COST
                } else {
                    0int
                };
                &&& after.fuel == rem
                &&& after.x == moved_x(before.x as int, rem, right)
                &&& after.y == old(self).terrain.height_of(after.x as int)
                &&& after.player_number == before.player_number
                &&& after.health == before.health
                &&& after.money == before.money
                &&& after.inventory.spec_counts() == before.inventory.spec_counts()
                &&& after.selected_bullet == before.selected_bullet
                &&& after.fire_power == before.fire_power
                &&& after.aim == before.aim
                &&& after.alive == before.alive
                &&& after == (Player { fuel: after.fuel, x: after.x, y: after.y, ..before })
            }),
            forall|i: int|
                0 <= i < final(self).players@.len() && i != old(self).active_player
                    ==> final(self).players@[i] == old(self).players@[i],
            final(self).players@.len() == old(self).players@.len(),
            *final(self) == (World { players: final(self).players, ..*old(self) }),
    {
        let i = self.active_player as usize;
        let mut p = self.players.remove(i);
        let rem = p.drive(DRIVE_FUEL_COST);
        let d = (rem / 100) as i32;
        let moved: i32 = if right {
            p.x + d
        } else {
            p.x - d
        };
        let nx: i32 = if moved < MIN_X {
            MIN_X
        } else if moved > MAX_X {
            MAX_X
        } else {
            moved
        };
        p.x = nx;
        p.y = self.terrain.height_at(nx);
        self.players.insert(i, p);
        proof {
            assert(self.players@ =~= old(self).players@.update(i as int, self.players@[i as int]));
        }
    }

    /// Sets the active player's aim; a value outside the half-circle is
    /// rejected and the old aim kept.
    pub fn set_active_angle(&mut self, value: u32) -> (accepted: bool)
        requires
            old(self).wf(),
            old(self).mode == GameMode::Battle,
        ensures
            final(self).wf(),
            accepted == (value <= crate::angle::PI_MRAD),
            ({
                let before = old(self).players@[old(self).active_player as int];
                let after = final(self).players@[old(self).active_player as int];
                &&& after.aim.spec_value() == (if value <= crate::angle::PI_MRAD {
                    value
                } else {
                    before.aim.spec_value()
                })
                &&& after == (Player { aim: after.aim, ..before })
            }),
            forall|i: int|
                0 <= i < final(self).players@.len() && i != old(self).active_player
                    ==> final(self).players@[i] == old(self).players@[i],
            final(self).players@.len() == old(self).players@.len(),
            *final(self) == (World { players: final(self).players, ..*old(self) }),
    {
        let i = self.active_player as usize;
        let mut p = self.players.remove(i);
        let accepted = p.aim.set(value);
        self.players.insert(i, p);
        proof {
            assert(self.players@ =~= old(self).players@.update(i as int, self.players@[i as int]));
        }
        accepted
    }

    /// Sets the active player's launch power; a value beyond the maximum
    /// is rejected and the old power kept.
    pub fn set_active_power(&mut self, value: u32) -> (accepted: bool)
        requires
            old(self).wf(),
            old(self).mode == GameMode::Battle,
        ensures
            final(self).wf(),
            accepted == (value <= MAX_POWER),
            ({
                let before = old(self).players@[old(self).active_player as int];
                let after = final(self).players@[old(self).active_player as int];
                &&& after.fire_power == (if value <= MAX_POWER {
                    value
                } else {
                    before.fire_power
                })
                &&& after == (Player { fire_power: after.fire_power, ..before })
            }),
            forall|i: int|
                0 <= i < final(self).players@.len() && i != old(self).active_player
                    ==> final(self).players@[i] == old(self).players@[i],
            final(self).players@.len() == old(self).players@.len(),
            *final(self) == (World { players: final(self).players, ..*old(self) }),
    {
        let i = self.active_player as usize;
        let mut p = self.players.remove(i);
        let accepted = if value <= MAX_POWER {
            p.fire_power = value;
            true
        } else {
            false
        };
        self.players.insert(i, p);
        proof {
            assert(self.players@ =~= old(self).players@.update(i as int, self.players@[i as int]));
        }
        accepted
    }

    /// Switches the active player's selected kind, only to one they hold.
    pub fn select_active(&mut self, t: BulletType)
        requires
            old(self).wf(),
            old(self).mode == GameMode::Battle,
        ensures
            final(self).wf(),
            ({
                let before = old(self).players@[old(self).active_player as int];
                let after = final(self).players@[old(self).active_player as int];
                &&& after.selected_bullet == (if before.inventory.count_of(t).is_available() {
                    t
                } else {
                    before.selected_bullet
                })
                &&& same_but_selected(before, after)
                &&& after == (Player { selected_bullet: after.selected_bullet, ..before })
            }),
            forall|i: int|
                0 <= i < final(self).players@.len() && i != old(self).active_player
                    ==> final(self).players@[i] == old(self).players@[i],
            final(self).players@.len() == old(self).players@.len(),
            *final(self) == (World { players: final(self).players, ..*old(self) }),
    {
        let i = self.active_player as usize;
        let mut p = self.players.remove(i);
        p.select(t);
        self.players.insert(i, p);
        proof {
            assert(self.players@ =~= old(self).players@.update(i as int, self.players@[i as int]));
        }
    }

    /// A shop purchase by the active player: exactly when they can afford
    /// the kind and are under its cap, the cost is deducted and the stock
    /// rises by one; otherwise money and stock are untouched.
    pub fn buy_active(&mut self, t: BulletType) -> (bought: bool)
        requires
            old(self).wf(),
            old(self).mode == GameMode::Shop,
        ensures
            final(self).wf(),
            ({
                let before = old(self).players@[old(self).active_player as int];
                let after = final(self).players@[old(self).active_player as int];
                &&& bought == before.can_buy(t)
                &&& (before.can_buy(t) ==> after.money == before.money - t.cost()
                    && after.inventory.count_of(t) == before.inventory.count_of(t).incremented()
                    && (forall|u: BulletType|
                    u.int_value() != t.int_value() ==> after.inventory.count_of(u)
                        == before.inventory.count_of(u)))
                &&& (!before.can_buy(t) ==> after == before)
                &&& (before.can_buy(t) ==> after == (Player {
                    money: after.money,
                    inventory: after.inventory,
                    ..before
                }))
                &&& same_but_money_and_inventory(before, after)
            }),
            forall|i: int|
                0 <= i < final(self).players@.len() && i != old(self).active_player
                    ==> final(self).players@[i] == old(self).players@[i],
            final(self).players@.len() == old(self).players@.len(),
            *final(self) == (World { players: final(self).players, ..*old(self) }),
            !old(self).players@[old(self).active_player as int].can_buy(t) ==> final(self).players@
                == old(self).players@,
    {
        let i = self.active_player as usize;
        let mut p = self.players.remove(i);
        let bought = p.buy(t);
        self.players.insert(i, p);
        proof {
            assert(self.players@ =~= old(self).players@.update(i as int, self.players@[i as int]));
            if !old(self).players@[i as int].can_buy(t) {
                assert(self.players@ =~= old(self).players@);
            }
        }
        bought
    }

    /// One battle intent. While shells are in flight every intent but a
    /// reset request is ignored: the shot gate holds every control still.
    /// A reset request changes nothing here: the caller performs the reset.
    pub fn handle_battle_message(&mut self, msg: &BattleMessage) -> (reset_requested: bool)
        requires
            old(self).wf(),
            old(self).mode == GameMode::Battle,
        ensures
            final(self).wf(),
            final(self).mode == GameMode::Battle,
            reset_requested == (msg is Reset),
            battle_message_applied(*old(self), *final(self), *msg),
    {
        match msg {
            BattleMessage::Reset => true,
            BattleMessage::MoveRight => {
                if self.in_flight == 0 {
                    self.move_active(true);
                }
                false
            },
            BattleMessage::MoveLeft => {
                if self.in_flight == 0 {
                    self.move_active(false);
                }
                false
            },
            BattleMessage::Fire => {
                if self.in_flight == 0 {
                    self.fire();
                }
                false
            },
            BattleMessage::SetVelocity(v) => {
                if self.in_flight == 0 {
                    self.set_active_power(*v);
                }
                false
            },
            BattleMessage::SetAngle(a) => {
                if self.in_flight == 0 {
                    self.set_active_angle(*a);
                }
                false
            },
            BattleMessage::SelectBullet(t) => {
                if self.in_flight == 0 {
                    self.select_active(*t);
                }
                false
            },
        }
    }

    /// One shop intent: a purchase by the active player, or the end of
    /// their shop turn. When the last seat confirms, the match returns to
    /// battle with a fresh round; otherwise the turn passes on. Either way
    /// the wind is rerolled with the turn.
    pub fn handle_shop_message(&mut self, msg: &ShopMessage)
        requires
            old(self).wf(),
            old(self).mode == GameMode::Shop,
        ensures
            final(self).wf(),
            shop_message_applied(*old(self), *final(self), *msg),
    {
        match msg {
            ShopMessage::BuyItem(t) => {
                self.buy_active(*t);
            },
            ShopMessage::EndTurn => {
                if self.active_player == self.player_count - 1 {
                    self.set_phase(GameMode::Battle);
                } else {
                    self.wind = sample_wind();
                    self.increment_player();
                }
            },
        }
    }

    /// One start menu intent: configuring the player count (only counts
    /// the menu accepts change anything), or starting the match, which
    /// enters battle through a full reset.
    pub fn handle_startmenu_message(&mut self, msg: &StartMenuMessage) -> (accepted: bool)
        requires
            old(self).wf(),
            old(self).mode == GameMode::StartMenu,
        ensures
            final(self).wf(),
            startmenu_message_applied(*old(self), *final(self), *msg),
            accepted == (match *msg {
                StartMenuMessage::ChoosePlayerCount(n) => 1 <= n <= MAX_PLAYERS,
                StartMenuMessage::Start => true,
            }),
    {
        match msg {
            StartMenuMessage::ChoosePlayerCount(n) => {
                if 1 <= *n && *n <= MAX_PLAYERS {
                    self.player_count = *n;
                    self.active_player = 0;
                    true
                } else {
                    false
                }
            },
            StartMenuMessage::Start => {
                self.set_phase(GameMode::Battle);
                true
            },
        }
    }
}

impl World {
    /// Routes one intent to the handler of the phase it belongs to. An
    /// intent for another phase than the current one is ignored; a scene
    /// switch always works and rebuilds the round. Returns whether a match
    /// reset was requested (battle reset intents are not applied here; the
    /// caller decides and calls `reset`).
    pub fn handle_message(&mut self, msg: &crate::messages::UiMessage) -> (reset_requested: bool)
        requires
            old(self).wf(),
        ensures
            final(self).wf(),
            msg matches crate::messages::UiMessage::SetSceneMessage(m) ==> (final(self).mode == m
                && reset_round(*old(self), *final(self))),
            (msg is BattleMessage && old(self).mode != GameMode::Battle) ==> *final(self) == *old(
                self,
            ),
            (msg is ShopMessage && old(self).mode != GameMode::Shop) ==> *final(self) == *old(
                self,
            ),
            (msg is StartMenuMessage && old(self).mode != GameMode::StartMenu) ==> *final(self)
                == *old(self),
            (msg is BattleMessage && old(self).mode == GameMode::Battle) ==> final(self).mode
                == GameMode::Battle,
            msg matches crate::messages::UiMessage::BattleMessage(bm) ==> (old(self).mode
                == GameMode::Battle ==> battle_message_applied(*old(self), *final(self), *bm)),
            msg matches crate::messages::UiMessage::ShopMessage(sm) ==> (old(self).mode
                == GameMode::Shop ==> shop_message_applied(*old(self), *final(self), *sm)),
            msg matches crate::messages::UiMessage::StartMenuMessage(mm) ==> (old(self).mode
                == GameMode::StartMenu ==> startmenu_message_applied(
                *old(self),
                *final(self),
                *mm,
            )),
            reset_requested == (msg matches crate::messages::UiMessage::BattleMessage(
                BattleMessage::Reset,
            ) && old(self).mode == GameMode::Battle),
    {
        match msg {
            crate::messages::UiMessage::SetSceneMessage(m) => {
                self.set_phase(*m);
                false
            },
            crate::messages::UiMessage::BattleMessage(bm) => {
                if self.mode == GameMode::Battle {
                    self.handle_battle_message(bm)
                } else {
                    false
                }
            },
            crate::messages::UiMessage::ShopMessage(sm) => {
                if self.mode == GameMode::Shop {
                    self.handle_shop_message(sm);
                }
                false
            },
            crate::messages::UiMessage::StartMenuMessage(mm) => {
                if self.mode == GameMode::StartMenu {
                    self.handle_startmenu_message(mm);
                }
                false
            },
        }
    }
}

impl Default for World {
    /// Same as `World::new`: a start menu waiting for two players.
    fn default() -> (w: World)
        ensures
            w.wf(),
            w.mode == GameMode::StartMenu,
            w.player_count == 2,
            w.active_player == 0,
            w.players@.len() == 0,
            w.in_flight == 0,
            !w.fired_this_turn,
            forall|c: int| 0 <= c < TERRAIN_CELLS ==> w.terrain.spec_damage()[c] == 0,
    {
        World::new()
    }
}

/// A per-turn wind roll: even and bounded, nothing else is promised.
pub(crate) fn sample_wind() -> (w: i32)
    ensures
        -MAX_WIND <= w <= MAX_WIND,
        w % 2 == 0,
{
    let half = random_in_range(-15, 15);
    2 * half
}

/// A per-match terrain shape roll, inside the shape scalar's range.
pub(crate) fn sample_seed() -> (s: u32)
    ensures
        MIN_SEED <= s <= MAX_SEED,
{
    random_in_range(MIN_SEED as i32, MAX_SEED as i32) as u32
}

/// The spawn cell of player `i`, exactly as `spawn_x` states it.
fn spawn_position(i: u32, seed: u32) -> (x: i32)
    requires
        i < MAX_PLAYERS,
        MIN_SEED <= seed <= MAX_SEED,
    ensures
        x == spawn_x(i as int, seed as int),
        MIN_X <= x <= MAX_X,
{
    proof {
        assert(0 <= (i * 300) * seed <= 810000) by (nonlinear_arith)
            requires
                0 <= i <= 18,
                0 <= seed <= 150,
        ;
    }
    let scaled: u64 = ((i as u64) * 300) * (seed as u64);
    let raw: i64 = -520 + (scaled / 100) as i64;
    if raw > MAX_X as i64 {
        MAX_X
    } else {
        raw as i32
    }
}

/// The executable mirror of `next_active_search`.
fn search_next(players: &Vec<Player>, cur: u32, step: u32) -> (r: u32)
    requires
        players@.len() <= MAX_PLAYERS,
        cur < MAX_PLAYERS,
        1 <= step,
    ensures
        r == next_active_search(players@, cur as int, step as int),
        r == cur || r < players@.len(),
    decreases players@.len() + 1 - step,
{
    let n = players.len() as u32;
    if step > n || n == 0 {
        cur
    } else {
        let idx = (cur + step) % n;
        if players[idx as usize].alive {
            idx
        } else {
            search_next(players, cur, step + 1)
        }
    }
}

} // verus!
