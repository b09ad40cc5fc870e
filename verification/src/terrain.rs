//! The destructible terrain: a base height curve shaped by a per-match
//! random scalar, lowered by a per-cell damage accumulation array, and
//! clamped so the ground never drops below a fixed floor.

use vstd::prelude::*;

verus! {

/// Leftmost playable cell.
pub const MIN_X: i32 = -960;

/// Rightmost playable cell.
pub const MAX_X: i32 = 960;

/// One damage cell per integer x coordinate in `[MIN_X, MAX_X]`.
pub const TERRAIN_CELLS: usize = 1921;

/// The ground never reports a height below this.
pub const MIN_FLOOR: u32 = 10;

/// Smallest terrain shape scalar a match can roll.
pub const MIN_SEED: u32 = 50;

/// Largest terrain shape scalar a match can roll.
pub const MAX_SEED: u32 = 150;

/// `x` pulled into the playable horizontal domain.
pub open spec fn clamp_x(x: int) -> int {
    if x < MIN_X {
        MIN_X as int
    } else if x > MAX_X {
        MAX_X as int
    } else {
        x
    }
}

/// The undamaged height of the ground at in-domain cell `x`: a triangle
/// wave whose period, and with it its peak, follows the match's shape
/// scalar, always at least 60 above the floor's level.
pub open spec fn base_height(seed: int, x: int) -> int {
    let period = 2 * seed + 300;
    let t = (x - MIN_X) % period;
    60 + if 2 * t <= period {
        2 * t
    } else {
        2 * (period - t)
    }
}

/// `a + b` in `u64`, stopping at the largest representable value.
pub open spec fn saturating_add_u64(a: u64, b: u64) -> u64 {
    if a + b > u64::MAX {
        u64::MAX
    } else {
        (a + b) as u64
    }
}

/// Whether cell `x` lies in the damage span of a hit at `center` with
/// radius `radius`: the half-open interval `[center - radius / 2,
/// center + radius / 2)`.
pub open spec fn in_blast(center: int, radius: int, x: int) -> bool {
    center - radius / 2 <= x < center + radius / 2
}

/// The exact effect of one accumulated hit on the ground: the shape is
/// kept, every cell in the blast span of `center` and `radius` takes
/// `2 * radius` more damage (saturating only at the top of `u64`), and
/// every other cell is untouched.
pub open spec fn crater_applied(pre: Terrain, post: Terrain, center: int, radius: int) -> bool {
    &&& post.spec_seed() == pre.spec_seed()
    &&& post.spec_damage().len() == pre.spec_damage().len()
    &&& forall|i: int|
        0 <= i < pre.spec_damage().len() ==> post.spec_damage()[i] == (if in_blast(
            center,
            radius,
            i + MIN_X,
        ) {
            saturating_add_u64(pre.spec_damage()[i], (2 * radius) as u64)
        } else {
            pre.spec_damage()[i]
        })
}

/// The destructible ground of one match.
pub struct Terrain {
    seed: u32,
    damage: Vec<u64>,
}

impl Terrain {
    /// One damage accumulator per playable cell; the shape scalar stays in
    /// its rolled range.
    pub open spec fn wf(self) -> bool {
        &&& self.spec_damage().len() == TERRAIN_CELLS
        &&& MIN_SEED <= self.spec_seed() <= MAX_SEED
    }

    pub closed spec fn spec_seed(self) -> u32 {
        self.seed
    }

    pub closed spec fn spec_damage(self) -> Seq<u64> {
        self.damage@
    }

    /// The height the ground reports at `x` (any `x`; out-of-domain
    /// coordinates see the edge cell): base curve minus accumulated
    /// damage, never below the floor.
    pub open spec fn height_of(self, x: int) -> int {
        let xc = clamp_x(x);
        let h = base_height(self.spec_seed() as int, xc) - self.spec_damage()[xc - MIN_X];
        if h < MIN_FLOOR {
            MIN_FLOOR as int
        } else {
            h
        }
    }

    /// Fresh flat-damage terrain for a match with shape scalar `seed`.
    pub fn new(seed: u32) -> (t: Terrain)
        requires
            MIN_SEED <= seed <= MAX_SEED,
        ensures
            t.wf(),
            t.spec_seed() == seed,
            forall|i: int| 0 <= i < TERRAIN_CELLS ==> t.spec_damage()[i] == 0,
    {
        let mut damage: Vec<u64> = Vec::new();
        let mut i: usize = 0;
        while i < TERRAIN_CELLS
            invariant
                i <= TERRAIN_CELLS,
                damage@.len() == i,
                forall|j: int| 0 <= j < i ==> damage@[j] == 0,
            decreases TERRAIN_CELLS - i,
        {
            damage.push(0);
            i = i + 1;
        }
        Terrain { seed, damage }
    }

    /// Rerolls the shape and clears all accumulated damage.
    pub fn reset(&mut self, seed: u32)
        requires
            MIN_SEED <= seed <= MAX_SEED,
        ensures
            final(self).wf(),
            final(self).spec_seed() == seed,
            forall|i: int| 0 <= i < TERRAIN_CELLS ==> final(self).spec_damage()[i] == 0,
    {
        let t = Terrain::new(seed);
        *self = t;
    }

    /// The ground height at `x`. Always at least `MIN_FLOOR`, however much
    /// damage has accumulated.
    pub fn height_at(&self, x: i32) -> (h: u32)
        requires
            self.wf(),
        ensures
            h == self.height_of(x as int),
            MIN_FLOOR <= h,
            h <= 1260,
    {
        let xc: i32 = if x < MIN_X {
            MIN_X
        } else if x > MAX_X {
            MAX_X
        } else {
            x
        };
        let period: u32 = 2 * self.seed + 300;
        let t: u32 = ((xc - MIN_X) as u32) % period;
        let wave: u32 = if 2 * t <= period {
            2 * t
        } else {
            2 * (period - t)
        };
        let base: u32 = 60 + wave;
        let idx: usize = (xc - MIN_X) as usize;
        let d: u64 = self.damage[idx];
        if (d as u64) >= (base as u64) - (MIN_FLOOR as u64) {
            MIN_FLOOR
        } else {
            base - (d as u32)
        }
    }

    /// Accumulates a hit: every cell in the blast span of `center` and
    /// `radius` takes exactly `2 * radius` more damage (saturating only at
    /// the top of `u64`); every other cell is untouched, and no cell ever
    /// loses damage. Spans reaching outside the playable domain are
    /// silently cut off at its edges.
    pub fn apply_damage(&mut self, center: i32, radius: u32)
        requires
            old(self).wf(),
        ensures
            final(self).wf(),
            crater_applied(*old(self), *final(self), center as int, radius as int),
            forall|i: int|
                0 <= i < TERRAIN_CELLS ==> final(self).spec_damage()[i] >= old(
                    self,
                ).spec_damage()[i],
    {
        let half: i64 = (radius / 2) as i64;
        let lo: i64 = center as i64 - half;
        let hi: i64 = center as i64 + half;
        let amount: u64 = 2 * (radius as u64);
        let start: i64 = if lo < MIN_X as i64 {
            MIN_X as i64
        } else {
            lo
        };
        let mut i: i64 = start;
        while i < hi && i <= MAX_X as i64
            invariant
                old(self).wf(),
                self.damage@.len() == TERRAIN_CELLS,
                self.seed == old(self).spec_seed(),
                amount == 2 * radius as u64,
                lo == center - radius as int / 2,
                hi == center + radius as int / 2,
                start == if lo < MIN_X as int {
                    MIN_X as int
                } else {
                    lo as int
                },
                start <= i,
                i <= MAX_X as int + 1 || i == start,
                forall|j: int|
                    0 <= j < TERRAIN_CELLS ==> self.damage@[j] == (
                    if lo <= j + MIN_X && j + MIN_X < hi && j + MIN_X < i {
                        saturating_add_u64(old(self).spec_damage()[j], amount)
                    } else {
                        old(self).spec_damage()[j]
                    }),
            decreases hi - i,
        {
            let idx: usize = (i - MIN_X as i64) as usize;
            let d: u64 = self.damage[idx];
            let nd: u64 = if d > u64::MAX - amount {
                u64::MAX
            } else {
                d + amount
            };
            self.damage.set(idx, nd);
            i = i + 1;
        }
    }
}

/// Law: the reported ground height never drops below the floor, whatever
/// the damage state.
pub proof fn lemma_height_floor(t: Terrain, x: int)
    ensures
        t.height_of(x) >= MIN_FLOOR,
{
}

/// Law: an accumulated hit adds exactly `2 * radius` to each cell in its
/// blast span. The one proviso is the machine limit: the cell's `u64`
/// accumulator must have room left, which only its very top lacks.
pub proof fn lemma_damage_exact(before: u64, radius: u64)
    requires
        radius <= u32::MAX,
        before + 2 * radius <= u64::MAX,
    ensures
        saturating_add_u64(before, (2 * radius) as u64) == before + 2 * radius,
{
}

} // verus!
