//! The per-tick simulation: every live shell advances first, then each is
//! resolved against the terrain and the tanks (terrain first, one
//! collision per shell per tick), impacts deform the ground, damage
//! players, fan clusters out, and adjust the in-flight count; finally the
//! turn and phase bookkeeping runs on the outcome.

use vstd::prelude::*;

use crate::ballistics::MAX_DT;
use crate::ballistics::Projectile;
use crate::ballistics::Vec2i;
use crate::kinds::BulletType;
use crate::messages::GameMode;
use crate::messages::PlayerKillEvent;
use crate::messages::TickReport;
use crate::messages::killed_in;
use crate::player::KILL_BOUNTY;
use crate::player::Player;
use crate::rng::random_in_range;
use crate::terrain::MAX_X;
use crate::terrain::MIN_X;
use crate::terrain::TERRAIN_CELLS;
use crate::terrain::Terrain;
use crate::terrain::clamp_x;
use crate::terrain::crater_applied;
use crate::world::ROUND_DECIDED_BELOW;
use crate::world::World;
use crate::world::living_count;
use crate::world::next_active;
use crate::world::sample_wind;

verus! {

/// Half the width of a tank's hitbox, in cells.
pub const TANK_HALF_WIDTH: i64 = 50;

/// Half the height of a tank's hitbox, in cells.
pub const TANK_HALF_HEIGHT: i64 = 5;

/// How many submunitions one cluster impact releases.
pub const CLUSTER_FANOUT: usize = 5;

/// Widest sideways speed a submunition can scatter with.
pub const SUB_SPREAD_X: i32 = 50;

/// Smallest upward speed a submunition scatters with.
pub const SUB_MIN_VY: i32 = 10;

/// Largest upward speed a submunition scatters with.
pub const SUB_MAX_VY: i32 = 60;

/// `a + b` in `u32`, stopping at the largest representable value.
pub open spec fn saturating_add_u32(a: u32, b: u32) -> u32 {
    if a + b > u32::MAX {
        u32::MAX
    } else {
        (a + b) as u32
    }
}

/// Whether shell `p` lies inside player `t`'s tank hitbox.
pub open spec fn hits_tank(p: Projectile, t: Player) -> bool {
    &&& t.x - TANK_HALF_WIDTH <= p.pos.x <= t.x + TANK_HALF_WIDTH
    &&& t.y - TANK_HALF_HEIGHT <= p.pos.y <= t.y + TANK_HALF_HEIGHT
}

/// What battle resolution may do to one player: fixed identity, seat and
/// loadout; health only falls, money only rises (bounties).
pub open spec fn battle_scarred(before: Player, after: Player) -> bool {
    &&& after.player_number == before.player_number
    &&& after.fuel == before.fuel
    &&& after.inventory.spec_counts() == before.inventory.spec_counts()
    &&& after.selected_bullet == before.selected_bullet
    &&& after.fire_power == before.fire_power
    &&& after.aim == before.aim
    &&& after.x == before.x
    &&& after.health <= before.health
    &&& after.money >= before.money
}

/// Law: nobody is counted alive twice; a roster has between zero and all
/// of its seats living.
pub proof fn lemma_living_count_bounds(s: Seq<Player>)
    ensures
        0 <= living_count(s) <= s.len(),
    decreases s.len(),
{
    if s.len() > 0 {
        lemma_living_count_bounds(s.drop_last());
    }
}

/// Replacing one seat changes the living count by exactly the alive-flag
/// difference of that seat.
pub proof fn lemma_living_count_update(s: Seq<Player>, i: int, p: Player)
    requires
        0 <= i < s.len(),
    ensures
        living_count(s.update(i, p)) == living_count(s) - (if s[i].alive {
            1int
        } else {
            0int
        }) + (if p.alive {
            1int
        } else {
            0int
        }),
    decreases s.len(),
{
    let t = s.update(i, p);
    if i == s.len() - 1 {
        assert(t.drop_last() =~= s.drop_last());
    } else {
        assert(t.drop_last() =~= s.drop_last().update(i, p));
        lemma_living_count_update(s.drop_last(), i, p);
    }
}

/// Rosters with pointwise equal alive flags have the same living count.
pub proof fn lemma_living_count_pointwise(s: Seq<Player>, t: Seq<Player>)
    requires
        s.len() == t.len(),
        forall|i: int| 0 <= i < s.len() ==> s[i].alive == t[i].alive,
    ensures
        living_count(s) == living_count(t),
    decreases s.len(),
{
    if s.len() > 0 {
        lemma_living_count_pointwise(s.drop_last(), t.drop_last());
    }
}

/// The rolling state of one tick's collision resolution: the ground and
/// roster as the shells so far left them, the shells that survived or
/// were scattered so far, the kills so far, and whether any shell has
/// struck the ground yet.
pub struct Resolution {
    pub terrain: Terrain,
    pub players: Seq<Player>,
    pub survivors: Seq<Projectile>,
    pub kills: Seq<PlayerKillEvent>,
    pub cratered: bool,
}

/// Whether an advanced shell is below the ground under it this tick.
pub open spec fn strikes_ground(p: Projectile, t: Terrain) -> bool {
    p.pos.y < t.height_of(p.pos.x as int)
}

/// The terrain cell a shell strikes: its x, pulled into the domain.
pub open spec fn ground_cell(p: Projectile) -> int {
    clamp_x(p.pos.x as int)
}

/// Exactly one cluster fan-out, scattered from one impact: regular-kind
/// shells of the impacting owner, at the impact point, each with a
/// velocity inside the fixed scatter box.
pub open spec fn scattered_from(subs: Seq<Projectile>, pos: Vec2i, owner: u32) -> bool {
    &&& subs.len() == CLUSTER_FANOUT
    &&& forall|j: int|
        0 <= j < subs.len() ==> {
            let s = #[trigger] subs[j];
            &&& s.kind == BulletType::RegularBullet
            &&& s.owner == owner
            &&& s.pos == pos
            &&& -SUB_SPREAD_X <= s.vel.x <= SUB_SPREAD_X
            &&& SUB_MIN_VY <= s.vel.y <= SUB_MAX_VY
        }
}

/// A struck shell despawns; a struck cluster leaves exactly its fan-out
/// behind it, and nothing else appears.
pub open spec fn fanned_out(sv0: Seq<Projectile>, sv1: Seq<Projectile>, p: Projectile) -> bool {
    if p.kind is Cluster {
        &&& sv1.len() == sv0.len() + CLUSTER_FANOUT
        &&& sv1.subrange(0, sv0.len() as int) == sv0
        &&& scattered_from(sv1.subrange(sv0.len() as int, sv1.len() as int), p.pos, p.owner)
    } else {
        sv1 == sv0
    }
}

/// How one advanced shell resolves against the state it meets. The ground
/// is tested first: a shell below it craters the cell under the shell
/// with its kind's radius (a cluster also fans out) and skips every tank
/// test this tick. Otherwise the first living foreign tank whose hitbox
/// holds the shell is wounded by the kind's damage (a cluster again fans
/// out). A shell that strikes nothing survives unchanged; a shell that
/// strikes anything never survives: at most one collision per shell per
/// tick.
pub open spec fn resolves_shell(p: Projectile, s0: Resolution, s1: Resolution) -> bool {
    if strikes_ground(p, s0.terrain) {
        &&& crater_applied(s0.terrain, s1.terrain, ground_cell(p), p.kind.radius() as int)
        &&& s1.players == s0.players
        &&& s1.kills == s0.kills
        &&& s1.cratered
        &&& fanned_out(s0.survivors, s1.survivors, p)
    } else {
        match first_target(p, s0.players) {
            Some(k) => {
                &&& wound_applied(
                    s0.players,
                    s1.players,
                    s0.kills,
                    s1.kills,
                    k,
                    p.owner as int,
                    p.kind.damage() as int,
                )
                &&& s1.terrain == s0.terrain
                &&& s1.cratered == s0.cratered
                &&& fanned_out(s0.survivors, s1.survivors, p)
            },
            None => {
                &&& s1.terrain == s0.terrain
                &&& s1.players == s0.players
                &&& s1.kills == s0.kills
                &&& s1.cratered == s0.cratered
                &&& s1.survivors == s0.survivors.push(p)
            },
        }
    }
}

/// Resolution folds over the advanced shells in order, each resolving
/// against the state its predecessors left behind.
pub open spec fn resolves_seq(shells: Seq<Projectile>, s0: Resolution, s1: Resolution) -> bool
    decreases shells.len(),
{
    if shells.len() == 0 {
        s1 == s0
    } else {
        exists|mid: Resolution|
            resolves_shell(shells[0], s0, mid) && resolves_seq(
                shells.subrange(1, shells.len() as int),
                mid,
                s1,
            )
    }
}

/// What the movement phase leaves to resolve: every in-play shell
/// advanced by exactly one integration step, in order, with the shells
/// outside the playable space dropped.
pub open spec fn advanced_shells(olds: Seq<Projectile>, wind: int, dt: int) -> Seq<Projectile>
    decreases olds.len(),
{
    if olds.len() == 0 {
        Seq::empty()
    } else {
        let rest = advanced_shells(olds.subrange(1, olds.len() as int), wind, dt);
        if olds[0].in_play() {
            seq![olds[0].stepped(wind, dt)] + rest
        } else {
            rest
        }
    }
}

/// Advancing a list with one more shell at its end appends that shell's
/// step, or nothing when it is out of play.
proof fn lemma_advanced_push(olds: Seq<Projectile>, e: Projectile, wind: int, dt: int)
    ensures
        advanced_shells(olds.push(e), wind, dt) == advanced_shells(olds, wind, dt) + (
        if e.in_play() {
            seq![e.stepped(wind, dt)]
        } else {
            Seq::<Projectile>::empty()
        }),
    decreases olds.len(),
{
    let all = olds.push(e);
    let tail = if e.in_play() {
        seq![e.stepped(wind, dt)]
    } else {
        Seq::<Projectile>::empty()
    };
    if olds.len() == 0 {
        assert(all.subrange(1, all.len() as int) =~= Seq::<Projectile>::empty());
        assert(all[0] == e);
        assert(advanced_shells(Seq::<Projectile>::empty(), wind, dt)
            =~= Seq::<Projectile>::empty());
        assert(advanced_shells(all, wind, dt) =~= advanced_shells(olds, wind, dt) + tail);
    } else {
        assert(all.subrange(1, all.len() as int) =~= olds.subrange(1, olds.len() as int).push(e));
        lemma_advanced_push(olds.subrange(1, olds.len() as int), e, wind, dt);
        assert(all[0] == olds[0]);
        let rest = advanced_shells(olds.subrange(1, olds.len() as int), wind, dt);
        if olds[0].in_play() {
            assert(seq![olds[0].stepped(wind, dt)] + (rest + tail) =~= (seq![
                olds[0].stepped(wind, dt),
            ] + rest) + tail);
        }
        assert(advanced_shells(all, wind, dt) =~= advanced_shells(olds, wind, dt) + tail);
    }
}

/// A fold that has reached `mid` extends by one more shell resolving on
/// from it.
proof fn lemma_resolves_snoc(
    shells: Seq<Projectile>,
    e: Projectile,
    s0: Resolution,
    mid: Resolution,
    s1: Resolution,
)
    requires
        resolves_seq(shells, s0, mid),
        resolves_shell(e, mid, s1),
    ensures
        resolves_seq(shells.push(e), s0, s1),
    decreases shells.len(),
{
    let all = shells.push(e);
    if shells.len() == 0 {
        assert(all.subrange(1, all.len() as int) =~= Seq::<Projectile>::empty());
        assert(all[0] == e);
        assert(resolves_shell(all[0], s0, s1));
        assert(resolves_seq(all.subrange(1, all.len() as int), s1, s1));
    } else {
        let m1 = choose|m: Resolution|
            resolves_shell(shells[0], s0, m) && resolves_seq(
                shells.subrange(1, shells.len() as int),
                m,
                mid,
            );
        lemma_resolves_snoc(shells.subrange(1, shells.len() as int), e, m1, mid, s1);
        assert(all.subrange(1, all.len() as int) =~= shells.subrange(
            1,
            shells.len() as int,
        ).push(e));
        assert(all[0] == shells[0]);
        assert(resolves_shell(all[0], s0, m1) && resolves_seq(
            all.subrange(1, all.len() as int),
            m1,
            s1,
        ));
    }
}

/// What settling leaves of a roster: the same players, each moved only
/// vertically, resting on the ground of its cell.
pub open spec fn settled_from(mid: Seq<Player>, post: Seq<Player>, t: Terrain) -> bool {
    &&& post.len() == mid.len()
    &&& forall|i: int|
        0 <= i < post.len() ==> (#[trigger] post[i]) == (Player { y: post[i].y, ..mid[i] })
            && post[i].y == t.height_of(mid[i].x as int)
}

/// The seat a shell strikes this tick, if any: the lowest-indexed living
/// tank, other than the shell's owner, whose hitbox contains the shell.
pub open spec fn first_target(p: Projectile, players: Seq<Player>) -> Option<int> {
    first_target_from(p, players, 0)
}

/// The target search from seat `k` on.
pub open spec fn first_target_from(p: Projectile, players: Seq<Player>, k: int) -> Option<int>
    decreases players.len() - k,
{
    if k < 0 || k >= players.len() {
        None
    } else if players[k].alive && k != p.owner && hits_tank(p, players[k]) {
        Some(k)
    } else {
        first_target_from(p, players, k + 1)
    }
}

/// The exact effect of one shell strike on the roster and the kill list:
/// the target takes `dmg` off its health, is eliminated exactly when that
/// drops below zero (appending the kill event), the shooter is paid the
/// bounty unless they struck themselves, and every other seat is
/// untouched.
pub open spec fn wound_applied(
    ps0: Seq<Player>,
    ps1: Seq<Player>,
    ks0: Seq<PlayerKillEvent>,
    ks1: Seq<PlayerKillEvent>,
    target: int,
    shooter: int,
    dmg: int,
) -> bool {
    let b = ps0[target];
    let a = ps1[target];
    let killed = b.health - dmg < 0;
    &&& ps1.len() == ps0.len()
    &&& a.health == b.health - dmg
    &&& a.alive == !killed
    &&& a == (Player { health: a.health, alive: a.alive, ..b })
    &&& (killed ==> ks1 == ks0.push(
        PlayerKillEvent { killer: shooter as u32, killed: target as u32 },
    ))
    &&& (!killed ==> ks1 == ks0)
    &&& (killed && target != shooter ==> ps1[shooter] == (Player {
        money: saturating_add_u32(ps0[shooter].money, KILL_BOUNTY),
        ..ps0[shooter]
    }))
    &&& (!(killed && target != shooter) ==> (forall|i: int|
        0 <= i < ps1.len() && i != target ==> ps1[i] == ps0[i]))
    &&& (forall|i: int|
        0 <= i < ps1.len() && i != target && i != shooter ==> ps1[i] == ps0[i])
}

impl World {
    /// Rests every tank on the ground of its cell, after the terrain has
    /// deformed under it. Nothing else about any player changes.
    pub fn settle_tanks(&mut self)
        requires
            old(self).wf(),
        ensures
            final(self).wf(),
            final(self).players@.len() == old(self).players@.len(),
            forall|i: int|
                0 <= i < final(self).players@.len() ==> {
                    let b = old(self).players@[i];
                    let a = #[trigger] final(self).players@[i];
                    &&& a == (Player { y: a.y, ..b })
                    &&& a.y == old(self).terrain.height_of(b.x as int)
                },
            *final(self) == (World { players: final(self).players, ..*old(self) }),
    {
        let n = self.players.len();
        let mut i: usize = 0;
        while i < n
            invariant
                old(self).wf(),
                n == old(self).players@.len(),
                i <= n,
                self.players@.len() == n,
                self.terrain == old(self).terrain,
                forall|j: int|
                    0 <= j < i ==> {
                        let b = old(self).players@[j];
                        let a = #[trigger] self.players@[j];
                        &&& a == (Player { y: a.y, ..b })
                        &&& a.y == old(self).terrain.height_of(b.x as int)
                    },
                forall|j: int| i <= j < n ==> self.players@[j] == old(self).players@[j],
                *self == (World { players: self.players, ..*old(self) }),
            decreases n - i,
        {
            let ghost snap = self.players@;
            let mut p = self.players.remove(i);
            p.y = self.terrain.height_at(p.x);
            self.players.insert(i, p);
            proof {
                assert(self.players@ =~= snap.update(i as int, self.players@[i as int]));
            }
            i = i + 1;
        }
    }

    /// The lowest-indexed living tank (other than the shell's owner) whose
    /// hitbox contains the shell: the one the shell strikes this tick.
    fn find_hit_player(&self, p: &Projectile) -> (r: Option<usize>)
        requires
            self.wf(),
        ensures
            r matches Some(k) ==> 0 <= k < self.players@.len() && self.players@[k as int].alive
                && k != p.owner && hits_tank(*p, self.players@[k as int]) && first_target(
                *p,
                self.players@,
            ) == Some(k as int),
            r is None ==> first_target(*p, self.players@) is None,
            r is None ==> forall|k: int|
                0 <= k < self.players@.len() && (#[trigger] self.players@[k]).alive && k != p.owner
                    ==> !hits_tank(*p, self.players@[k]),
    {
        let n = self.players.len();
        let mut k: usize = 0;
        while k < n
            invariant
                self.wf(),
                n == self.players@.len(),
                k <= n,
                first_target(*p, self.players@) == first_target_from(
                    *p,
                    self.players@,
                    k as int,
                ),
                forall|j: int|
                    0 <= j < k && (#[trigger] self.players@[j]).alive && j != p.owner
                        ==> !hits_tank(*p, self.players@[j]),
            decreases n - k,
        {
            let t = &self.players[k];
            if t.alive && (k as u32) != p.owner {
                let tx = t.x as i64;
                let ty = t.y as i64;
                if tx - TANK_HALF_WIDTH <= p.pos.x && p.pos.x <= tx + TANK_HALF_WIDTH && ty
                    - TANK_HALF_HEIGHT <= p.pos.y && p.pos.y <= ty + TANK_HALF_HEIGHT {
                    proof {
                        assert(first_target_from(*p, self.players@, k as int) == Some(k as int));
                    }
                    return Some(k);
                }
            }
            proof {
                assert(first_target_from(*p, self.players@, k as int) == first_target_from(
                    *p,
                    self.players@,
                    k as int + 1,
                ));
            }
            k = k + 1;
        }
        proof {
            assert(first_target_from(*p, self.players@, n as int) is None);
        }
        None
    }

    /// One shell striking one living tank: the kind's damage comes off the
    /// target's health; a target driven below zero health is eliminated on
    /// the spot, recorded as a kill, and its killer (unless it was the
    /// target itself) is paid the bounty.
    fn hit_player(&mut self, target: usize, shooter: u32, dmg: u32, kills: &mut Vec<
        PlayerKillEvent,
    >)
        requires
            old(self).wf(),
            target < old(self).players@.len(),
            (shooter as int) < old(self).players@.len(),
            old(self).players@[target as int].alive,
            dmg <= 100,
        ensures
            final(self).wf(),
            final(self).players@.len() == old(self).players@.len(),
            wound_applied(
                old(self).players@,
                final(self).players@,
                old(kills)@,
                final(kills)@,
                target as int,
                shooter as int,
                dmg as int,
            ),
            ({
                let b = old(self).players@[target as int];
                let a = final(self).players@[target as int];
                let killed = b.health - dmg < 0;
                &&& a.health == b.health - dmg
                &&& a.alive == !killed
                &&& battle_scarred(b, a)
                &&& a.y == b.y
                &&& (!killed || target == shooter ==> a.money == b.money)
                &&& (killed ==> final(kills)@ == old(kills)@.push(
                    PlayerKillEvent { killer: shooter, killed: target as u32 },
                ))
                &&& (!killed ==> final(kills)@ == old(kills)@)
                &&& (killed && target != shooter ==> ({
                    let sb = old(self).players@[shooter as int];
                    let sa = final(self).players@[shooter as int];
                    &&& sa.money == saturating_add_u32(sb.money, KILL_BOUNTY)
                    &&& sa == (Player { money: sa.money, ..sb })
                }))
                &&& (!killed ==> (forall|i: int|
                    0 <= i < final(self).players@.len() && i != target ==> final(self).players@[i]
                        == old(self).players@[i]))
                &&& living_count(final(self).players@) == living_count(old(self).players@) - (
                if killed {
                    1int
                } else {
                    0int
                })
            }),
            forall|i: int|
                0 <= i < final(self).players@.len() && i != target && i != shooter ==> final(self).players@[i] == old(self).players@[i],
            forall|i: int|
                0 <= i < final(self).players@.len() && i != target ==> final(self).players@[i].alive == old(self).players@[i].alive,
            *final(self) == (World { players: final(self).players, ..*old(self) }),
    {
        let mut t = self.players.remove(target);
        let ghost before = old(self).players@[target as int];
        t.health = t.health - (dmg as i32);
        let killed = t.health < 0;
        if killed {
            t.alive = false;
        }
        self.players.insert(target, t);
        proof {
            assert(self.players@ =~= old(self).players@.update(
                target as int,
                self.players@[target as int],
            ));
            lemma_living_count_update(
                old(self).players@,
                target as int,
                self.players@[target as int],
            );
        }
        if killed {
            kills.push(PlayerKillEvent { killer: shooter, killed: target as u32 });
            if (shooter as usize) != target {
                let ghost mid = self.players@;
                let mut s = self.players.remove(shooter as usize);
                s.money = if s.money > u32::MAX - KILL_BOUNTY {
                    u32::MAX
                } else {
                    s.money + KILL_BOUNTY
                };
                self.players.insert(shooter as usize, s);
                proof {
                    assert(self.players@ =~= mid.update(
                        shooter as int,
                        self.players@[shooter as int],
                    ));
                    lemma_living_count_update(
                        mid,
                        shooter as int,
                        self.players@[shooter as int],
                    );
                }
            }
        }
    }
}

/// One cluster impact's fan-out: exactly `CLUSTER_FANOUT` regular-kind
/// submunitions appear at the impact point, owned by the cluster's owner,
/// each scattered with a bounded random velocity. Nothing already in the
/// list is touched.
fn spawn_submunitions(survivors: &mut Vec<Projectile>, pos: Vec2i, owner: u32)
    requires
        -crate::ballistics::COORD_BOUND <= pos.x <= crate::ballistics::COORD_BOUND,
        -crate::ballistics::COORD_BOUND <= pos.y <= crate::ballistics::COORD_BOUND,
    ensures
        final(survivors)@.len() == old(survivors)@.len() + CLUSTER_FANOUT,
        forall|q: int|
            0 <= q < old(survivors)@.len() ==> final(survivors)@[q] == old(survivors)@[q],
        forall|j: int|
            old(survivors)@.len() <= j < final(survivors)@.len() ==> {
                let s = #[trigger] final(survivors)@[j];
                &&& s.kind == BulletType::RegularBullet
                &&& s.owner == owner
                &&& s.pos == pos
                &&& -SUB_SPREAD_X <= s.vel.x <= SUB_SPREAD_X
                &&& SUB_MIN_VY <= s.vel.y <= SUB_MAX_VY
                &&& s.bounded()
            },
{
    let mut made: usize = 0;
    while made < CLUSTER_FANOUT
        invariant
            made <= CLUSTER_FANOUT,
            survivors@.len() == old(survivors)@.len() + made,
            forall|q: int| 0 <= q < old(survivors)@.len() ==> survivors@[q] == old(survivors)@[q],
            forall|j: int|
                old(survivors)@.len() <= j < survivors@.len() ==> {
                    let s = #[trigger] survivors@[j];
                    &&& s.kind == BulletType::RegularBullet
                    &&& s.owner == owner
                    &&& s.pos == pos
                    &&& -SUB_SPREAD_X <= s.vel.x <= SUB_SPREAD_X
                    &&& SUB_MIN_VY <= s.vel.y <= SUB_MAX_VY
                    &&& s.bounded()
                },
            -crate::ballistics::COORD_BOUND <= pos.x <= crate::ballistics::COORD_BOUND,
            -crate::ballistics::COORD_BOUND <= pos.y <= crate::ballistics::COORD_BOUND,
        decreases CLUSTER_FANOUT - made,
    {
        let vx = random_in_range(-SUB_SPREAD_X, SUB_SPREAD_X);
        let vy = random_in_range(SUB_MIN_VY, SUB_MAX_VY);
        let sub = Projectile {
            pos,
            vel: Vec2i { x: vx as i64, y: vy as i64 },
            owner,
            kind: BulletType::RegularBullet,
        };
        survivors.push(sub);
        made = made + 1;
    }
}


/// Appending one kill event marks exactly its victim as killed, on top of
/// whoever the list already marked.
pub proof fn lemma_killed_in_push(s: Seq<PlayerKillEvent>, e: PlayerKillEvent, i: int)
    ensures
        killed_in(s.push(e), i) == (killed_in(s, i) || e.killed == i),
{
    if killed_in(s, i) {
        let k = choose|k: int| 0 <= k < s.len() && s[k].killed == i;
        assert(s.push(e)[k].killed == i);
    }
    if e.killed == i {
        assert(s.push(e)[s.len() as int].killed == i);
    }
    if killed_in(s.push(e), i) {
        let k = choose|k: int| 0 <= k < s.push(e).len() && s.push(e)[k].killed == i;
        if k < s.len() {
            assert(s[k].killed == i);
        }
    }
}

impl World {
    /// One tick of battle resolution: every in-play shell advances by `dt`
    /// first (shells outside the playable space despawn instead); then each
    /// advanced shell is resolved, terrain before tanks and at most one
    /// collision per shell. A ground strike craters the terrain; a tank
    /// strike wounds (and possibly eliminates) its victim and pays the
    /// bounty; a cluster strike of either sort fans out submunitions before
    /// the parent's despawn is finalized. Returns the kills in resolution
    /// order and whether the ground changed.
    pub fn resolve_projectiles(&mut self, dt: u32) -> (out: (Vec<PlayerKillEvent>, bool))
        requires
            old(self).wf(),
            old(self).mode == GameMode::Battle,
            1 <= dt <= MAX_DT,
        ensures
            final(self).wf(),
            final(self).mode == old(self).mode,
            final(self).active_player == old(self).active_player,
            final(self).player_count == old(self).player_count,
            final(self).wind == old(self).wind,
            final(self).fired_this_turn == old(self).fired_this_turn,
            final(self).terrain.spec_seed() == old(self).terrain.spec_seed(),
            forall|c: int|
                0 <= c < TERRAIN_CELLS ==> final(self).terrain.spec_damage()[c] >= old(self).terrain.spec_damage()[c],
            !out.1 ==> final(self).terrain.spec_damage() == old(self).terrain.spec_damage(),
            final(self).players@.len() == old(self).players@.len(),
            forall|i: int|
                0 <= i < final(self).players@.len() ==> battle_scarred(
                    old(self).players@[i],
                    #[trigger] final(self).players@[i],
                ) && final(self).players@[i].y == old(self).players@[i].y,
            forall|i: int|
                0 <= i < final(self).players@.len() ==> (#[trigger] final(self).players@[i]).alive
                    == (old(self).players@[i].alive && !killed_in(out.0@, i)),
            forall|k: int|
                0 <= k < out.0@.len() ==> 0 <= (#[trigger] out.0@[k]).killed < old(self).players@.len() && old(self).players@[out.0@[k].killed as int].alive,
            living_count(final(self).players@) == living_count(old(self).players@)
                - out.0@.len(),
            old(self).projectiles@.len() == 0 ==> (final(self).players@ == old(self).players@
                && final(self).terrain == old(self).terrain && final(self).in_flight == 0
                && out.0@.len() == 0 && !out.1),
            resolves_seq(
                advanced_shells(old(self).projectiles@, old(self).wind as int, dt as int),
                Resolution {
                    terrain: old(self).terrain,
                    players: old(self).players@,
                    survivors: Seq::<Projectile>::empty(),
                    kills: Seq::<PlayerKillEvent>::empty(),
                    cratered: false,
                },
                Resolution {
                    terrain: final(self).terrain,
                    players: final(self).players@,
                    survivors: final(self).projectiles@,
                    kills: out.0@,
                    cratered: out.1,
                },
            ),
    {
        let wind = self.wind;
        let n = self.projectiles.len();
        let mut moved: Vec<Projectile> = Vec::new();
        let mut j: usize = 0;
        while j < n
            invariant
                old(self).wf(),
                *self == *old(self),
                n == self.projectiles@.len(),
                j <= n,
                wind == self.wind,
                1 <= dt <= MAX_DT,
                moved@.len() <= j,
                forall|q: int|
                    0 <= q < moved@.len() ==> (#[trigger] moved@[q]).bounded() && moved@[q].owner
                        < self.players@.len(),
                moved@ == advanced_shells(
                    self.projectiles@.subrange(0, j as int),
                    wind as int,
                    dt as int,
                ),
            decreases n - j,
        {
            let mut p = self.projectiles[j];
            let inp = p.pos.x >= -crate::ballistics::IN_PLAY_COORD && p.pos.x
                <= crate::ballistics::IN_PLAY_COORD && p.pos.y >= -crate::ballistics::IN_PLAY_COORD
                && p.pos.y <= crate::ballistics::IN_PLAY_COORD && p.vel.x
                >= -crate::ballistics::IN_PLAY_SPEED && p.vel.x <= crate::ballistics::IN_PLAY_SPEED
                && p.vel.y >= -crate::ballistics::IN_PLAY_SPEED && p.vel.y
                <= crate::ballistics::IN_PLAY_SPEED;
            proof {
                assert(inp == self.projectiles@[j as int].in_play());
            }
            if inp {
                p.step(wind, dt);
                moved.push(p);
            }
            proof {
                let olds = self.projectiles@;
                let pj = olds[j as int];
                assert(olds.subrange(0, j as int + 1) =~= olds.subrange(0, j as int).push(pj));
                lemma_advanced_push(olds.subrange(0, j as int), pj, wind as int, dt as int);
                if pj.in_play() {
                    assert(moved@ =~= advanced_shells(
                        olds.subrange(0, j as int),
                        wind as int,
                        dt as int,
                    ) + seq![pj.stepped(wind as int, dt as int)]);
                } else {
                    assert(moved@ =~= advanced_shells(
                        olds.subrange(0, j as int),
                        wind as int,
                        dt as int,
                    ) + Seq::<Projectile>::empty());
                }
            }
            j = j + 1;
        }
        proof {
            assert(self.projectiles@.subrange(0, n as int) =~= self.projectiles@);
            assert(moved@ == advanced_shells(old(self).projectiles@, wind as int, dt as int));
        }
        let mut survivors: Vec<Projectile> = Vec::new();
        let mut kills: Vec<PlayerKillEvent> = Vec::new();
        let mut terrain_changed = false;
        let m = moved.len();
        let mut j: usize = 0;
        while j < m
            invariant
                old(self).wf(),
                self.wf(),
                m == moved@.len(),
                j <= m,
                forall|q: int|
                    0 <= q < moved@.len() ==> (#[trigger] moved@[q]).bounded() && moved@[q].owner
                        < old(self).players@.len(),
                self.mode == old(self).mode,
                self.active_player == old(self).active_player,
                self.player_count == old(self).player_count,
                self.wind == old(self).wind,
                self.fired_this_turn == old(self).fired_this_turn,
                self.projectiles@ == old(self).projectiles@,
                self.in_flight == old(self).in_flight,
                self.terrain.spec_seed() == old(self).terrain.spec_seed(),
                forall|c: int|
                    0 <= c < TERRAIN_CELLS ==> self.terrain.spec_damage()[c] >= old(self).terrain.spec_damage()[c],
                !terrain_changed ==> self.terrain.spec_damage() == old(self).terrain.spec_damage(),
                self.players@.len() == old(self).players@.len(),
                forall|i: int|
                    0 <= i < self.players@.len() ==> battle_scarred(
                        old(self).players@[i],
                        #[trigger] self.players@[i],
                    ) && self.players@[i].y == old(self).players@[i].y,
                forall|i: int|
                    0 <= i < self.players@.len() ==> (#[trigger] self.players@[i]).alive == (old(self).players@[i].alive && !killed_in(kills@, i)),
                forall|k: int|
                    0 <= k < kills@.len() ==> 0 <= (#[trigger] kills@[k]).killed < old(self).players@.len() && old(self).players@[kills@[k].killed as int].alive,
                living_count(self.players@) == living_count(old(self).players@) - kills@.len(),
                forall|q: int|
                    0 <= q < survivors@.len() ==> (#[trigger] survivors@[q]).bounded()
                        && survivors@[q].owner < self.players@.len(),
                m == 0 ==> (self.players@ == old(self).players@ && self.terrain == old(self).terrain
                    && kills@.len() == 0 && !terrain_changed && survivors@.len() == 0),
                resolves_seq(
                    moved@.subrange(0, j as int),
                    Resolution {
                        terrain: old(self).terrain,
                        players: old(self).players@,
                        survivors: Seq::<Projectile>::empty(),
                        kills: Seq::<PlayerKillEvent>::empty(),
                        cratered: false,
                    },
                    Resolution {
                        terrain: self.terrain,
                        players: self.players@,
                        survivors: survivors@,
                        kills: kills@,
                        cratered: terrain_changed,
                    },
                ),
            decreases m - j,
        {
            let ghost b0 = Resolution {
                terrain: self.terrain,
                players: self.players@,
                survivors: survivors@,
                kills: kills@,
                cratered: terrain_changed,
            };
            let p = moved[j];
            let cell: i32 = if p.pos.x < MIN_X as i64 {
                MIN_X
            } else if p.pos.x > MAX_X as i64 {
                MAX_X
            } else {
                p.pos.x as i32
            };
            let h = self.terrain.height_at(cell);
            proof {
                assert(clamp_x(cell as int) == clamp_x(p.pos.x as int));
                assert(self.terrain.height_of(cell as int) == self.terrain.height_of(
                    p.pos.x as int,
                ));
            }
            if p.pos.y < h as i64 {
                self.terrain.apply_damage(cell, p.kind.get_radius());
                terrain_changed = true;
                if p.kind == BulletType::Cluster {
                    let ghost sv0 = survivors@;
                    spawn_submunitions(&mut survivors, p.pos, p.owner);
                    proof {
                        assert(survivors@.subrange(0, sv0.len() as int) =~= sv0);
                        assert forall|q: int|
                            0 <= q < CLUSTER_FANOUT implies {
                            let s = #[trigger] survivors@.subrange(
                                sv0.len() as int,
                                survivors@.len() as int,
                            )[q];
                            &&& s.kind == BulletType::RegularBullet
                            &&& s.owner == p.owner
                            &&& s.pos == p.pos
                            &&& -SUB_SPREAD_X <= s.vel.x <= SUB_SPREAD_X
                            &&& SUB_MIN_VY <= s.vel.y <= SUB_MAX_VY
                        } by {
                            assert(survivors@.subrange(sv0.len() as int, survivors@.len() as int)[q]
                                == survivors@[sv0.len() + q]);
                        }
                    }
                }
                proof {
                    let b1 = Resolution {
                        terrain: self.terrain,
                        players: self.players@,
                        survivors: survivors@,
                        kills: kills@,
                        cratered: terrain_changed,
                    };
                    assert(strikes_ground(p, b0.terrain));
                    assert(resolves_shell(p, b0, b1));
                }
            } else {
                let target = self.find_hit_player(&p);
                match target {
                    Some(k) => {
                        let ghost pre = *self;
                        let ghost pre_kills = kills@;
                        let dmg = p.kind.get_damage();
                        self.hit_player(k, p.owner, dmg, &mut kills);
                        proof {
                            assert forall|i: int| 0 <= i < self.players@.len() implies battle_scarred(
                                old(self).players@[i],
                                #[trigger] self.players@[i],
                            ) && self.players@[i].y == old(self).players@[i].y by {
                                assert(battle_scarred(old(self).players@[i], pre.players@[i]));
                            }
                            let b = pre.players@[k as int];
                            if b.health - dmg < 0 {
                                assert forall|i: int|
                                    0 <= i < self.players@.len() implies (
                                #[trigger] self.players@[i]).alive == (old(self).players@[i].alive
                                    && !killed_in(kills@, i)) by {
                                    lemma_killed_in_push(
                                        pre_kills,
                                        PlayerKillEvent { killer: p.owner, killed: k as u32 },
                                        i,
                                    );
                                }
                            }
                        }
                        if p.kind == BulletType::Cluster {
                            let ghost sv0 = survivors@;
                            spawn_submunitions(&mut survivors, p.pos, p.owner);
                            proof {
                                assert(survivors@.subrange(0, sv0.len() as int) =~= sv0);
                                assert forall|q: int|
                                    0 <= q < CLUSTER_FANOUT implies {
                                    let s = #[trigger] survivors@.subrange(
                                        sv0.len() as int,
                                        survivors@.len() as int,
                                    )[q];
                                    &&& s.kind == BulletType::RegularBullet
                                    &&& s.owner == p.owner
                                    &&& s.pos == p.pos
                                    &&& -SUB_SPREAD_X <= s.vel.x <= SUB_SPREAD_X
                                    &&& SUB_MIN_VY <= s.vel.y <= SUB_MAX_VY
                                } by {
                                    assert(survivors@.subrange(
                                        sv0.len() as int,
                                        survivors@.len() as int,
                                    )[q] == survivors@[sv0.len() + q]);
                                }
                            }
                        }
                        proof {
                            let b1 = Resolution {
                                terrain: self.terrain,
                                players: self.players@,
                                survivors: survivors@,
                                kills: kills@,
                                cratered: terrain_changed,
                            };
                            assert(!strikes_ground(p, b0.terrain));
                            assert(first_target(p, b0.players) == Some(k as int));
                            assert(resolves_shell(p, b0, b1));
                        }
                    },
                    None => {
                        survivors.push(p);
                        proof {
                            let b1 = Resolution {
                                terrain: self.terrain,
                                players: self.players@,
                                survivors: survivors@,
                                kills: kills@,
                                cratered: terrain_changed,
                            };
                            assert(!strikes_ground(p, b0.terrain));
                            assert(first_target(p, b0.players) is None);
                            assert(resolves_shell(p, b0, b1));
                        }
                    },
                }
            }
            proof {
                let b1 = Resolution {
                    terrain: self.terrain,
                    players: self.players@,
                    survivors: survivors@,
                    kills: kills@,
                    cratered: terrain_changed,
                };
                let init = Resolution {
                    terrain: old(self).terrain,
                    players: old(self).players@,
                    survivors: Seq::<Projectile>::empty(),
                    kills: Seq::<PlayerKillEvent>::empty(),
                    cratered: false,
                };
                lemma_resolves_snoc(moved@.subrange(0, j as int), p, init, b0, b1);
                assert(moved@.subrange(0, j as int + 1) =~= moved@.subrange(0, j as int).push(p));
            }
            j = j + 1;
        }
        proof {
            assert(moved@.subrange(0, m as int) =~= moved@);
        }
        self.projectiles = survivors;
        self.in_flight = self.projectiles.len();
        (kills, terrain_changed)
    }

    /// One simulation tick. Outside battle this is a no-op. In battle:
    /// shells move then resolve, tanks settle onto the (possibly cratered)
    /// ground, and the round bookkeeping runs: the match leaves for the
    /// shop exactly when fewer than two players are left alive; otherwise
    /// the turn ends exactly when at least one fire has happened this turn
    /// and the in-flight count is back to zero, rerolling the wind and
    /// passing the turn to the next living player.
    pub fn tick(&mut self, dt: u32) -> (r: TickReport)
        requires
            old(self).wf(),
            1 <= dt <= MAX_DT,
        ensures
            final(self).wf(),
            old(self).mode != GameMode::Battle ==> (*final(self) == *old(self) && r.kills@.len()
                == 0 && !r.turn_ended && !r.phase_changed),
            old(self).mode == GameMode::Battle ==> ({
                &&& final(self).player_count == old(self).player_count
                &&& (final(self).mode == GameMode::Battle || final(self).mode == GameMode::Shop)
                &&& r.phase_changed == (final(self).mode == GameMode::Shop)
                &&& ((final(self).mode == GameMode::Shop) <==> living_count(old(self).players@)
                    - r.kills@.len() < ROUND_DECIDED_BELOW)
                &&& (forall|k: int|
                    0 <= k < r.kills@.len() ==> 0 <= (#[trigger] r.kills@[k]).killed < old(self).players@.len() && old(self).players@[r.kills@[k].killed as int].alive)
                &&& (final(self).mode == GameMode::Battle ==> ({
                    &&& final(self).terrain.spec_seed() == old(self).terrain.spec_seed()
                    &&& (exists|mid: Seq<Player>|
                        resolves_seq(
                            advanced_shells(
                                old(self).projectiles@,
                                old(self).wind as int,
                                dt as int,
                            ),
                            Resolution {
                                terrain: old(self).terrain,
                                players: old(self).players@,
                                survivors: Seq::<Projectile>::empty(),
                                kills: Seq::<PlayerKillEvent>::empty(),
                                cratered: false,
                            },
                            Resolution {
                                terrain: final(self).terrain,
                                players: mid,
                                survivors: final(self).projectiles@,
                                kills: r.kills@,
                                cratered: r.terrain_changed,
                            },
                        ) && #[trigger] settled_from(mid, final(self).players@, final(self).terrain))
                    &&& forall|i: int|
                        0 <= i < final(self).players@.len() ==> ((
                        #[trigger] final(self).players@[i]).alive == (old(self).players@[i].alive
                            && !killed_in(r.kills@, i)))
                    &&& forall|i: int|
                        0 <= i < final(self).players@.len() ==> battle_scarred(
                            old(self).players@[i],
                            #[trigger] final(self).players@[i],
                        )
                    &&& forall|c: int|
                        0 <= c < TERRAIN_CELLS ==> final(self).terrain.spec_damage()[c] >= old(self).terrain.spec_damage()[c]
                    &&& (!r.terrain_changed ==> final(self).terrain.spec_damage() == old(self).terrain.spec_damage())
                    &&& r.turn_ended == (old(self).fired_this_turn && final(self).in_flight == 0)
                    &&& (r.turn_ended ==> final(self).active_player == next_active(
                        final(self).players@,
                        old(self).active_player as int,
                    ) && !final(self).fired_this_turn)
                    &&& (!r.turn_ended ==> final(self).active_player == old(self).active_player
                        && final(self).fired_this_turn == old(self).fired_this_turn && final(self).wind == old(self).wind)
                    &&& forall|i: int|
                        0 <= i < final(self).players@.len() ==> (#[trigger] final(self).players@[i]).y
                            == final(self).terrain.height_of(final(self).players@[i].x as int)
                }))
                &&& (final(self).mode == GameMode::Shop ==> ({
                    &&& !r.turn_ended
                    &&& final(self).active_player == 0
                    &&& final(self).in_flight == 0
                    &&& !final(self).fired_this_turn
                    &&& final(self).players@.len() == final(self).player_count
                    &&& forall|i: int|
                        0 <= i < final(self).players@.len() ==> (#[trigger] final(self).players@[i]).alive && final(self).players@[i].health == crate::player::FULL_HEALTH
                            && final(self).players@[i].fuel == crate::player::FULL_FUEL
                    &&& forall|i: int|
                        0 <= i < old(self).players@.len() ==> (#[trigger] final(self).players@[i]).money >= old(self).players@[i].money
                    &&& forall|c: int|
                        0 <= c < TERRAIN_CELLS ==> final(self).terrain.spec_damage()[c] == 0
                    &&& forall|i: int|
                        0 <= i < final(self).players@.len() ==> (#[trigger] final(self).players@[i]).x
                            == crate::world::spawn_x(i, final(self).terrain.spec_seed() as int)
                }))
            }),
    {
        if self.mode != GameMode::Battle {
            return TickReport {
                kills: Vec::new(),
                terrain_changed: false,
                turn_ended: false,
                phase_changed: false,
            };
        }
        let (kills, terrain_changed) = self.resolve_projectiles(dt);
        let ghost mid = *self;
        self.settle_tanks();
        proof {
            lemma_living_count_pointwise(mid.players@, self.players@);
        }
        let living = self.count_living();
        let mut turn_ended = false;
        let mut phase_changed = false;
        if living < ROUND_DECIDED_BELOW {
            self.mode = GameMode::Shop;
            self.reset();
            phase_changed = true;
        } else {
            if self.fired_this_turn && self.in_flight == 0 {
                self.wind = sample_wind();
                self.increment_player();
                self.fired_this_turn = false;
                turn_ended = true;
            }
            proof {
                assert(settled_from(mid.players@, self.players@, self.terrain));
                assert(resolves_seq(
                    advanced_shells(old(self).projectiles@, old(self).wind as int, dt as int),
                    Resolution {
                        terrain: old(self).terrain,
                        players: old(self).players@,
                        survivors: Seq::<Projectile>::empty(),
                        kills: Seq::<PlayerKillEvent>::empty(),
                        cratered: false,
                    },
                    Resolution {
                        terrain: self.terrain,
                        players: mid.players@,
                        survivors: self.projectiles@,
                        kills: kills@,
                        cratered: terrain_changed,
                    },
                ));
            }
        }
        TickReport { kills, terrain_changed, turn_ended, phase_changed }
    }
}

} // verus!
