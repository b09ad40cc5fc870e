//! The ballistic model: projectiles advance each tick under constant
//! downward gravity and a constant horizontal wind acceleration, with no
//! drag. Positions and velocities are integers in terrain-cell units.

use vstd::prelude::*;

use crate::kinds::BulletType;

verus! {

/// Downward acceleration per squared tick. Even, so half of it is exact.
pub const GRAVITY: i64 = -10;

/// Longest single integration step a caller may take.
pub const MAX_DT: u32 = 10;

/// Strongest wind acceleration, either direction. Winds are even, so half
/// a wind is exact.
pub const MAX_WIND: i32 = 30;

/// A projectile farther than this from the origin, on either axis, has
/// left the playable space and despawns instead of being advanced.
pub const IN_PLAY_COORD: i64 = 1_000_000;

/// A projectile faster than this, on either axis, has left plausible play.
pub const IN_PLAY_SPEED: i64 = 100_000;

/// Coordinates a projectile can reach by one step from in-play state.
pub const COORD_BOUND: i64 = 3_000_000;

/// Speeds a projectile can reach by one step from in-play state.
pub const SPEED_BOUND: i64 = 200_000;

/// A 2D integer vector; x grows rightward, y grows upward.
#[derive(Clone, Copy, PartialEq, Eq, Structural, Debug)]
pub struct Vec2i {
    pub x: i64,
    pub y: i64,
}

/// One shell in flight.
#[derive(Clone, Copy, PartialEq, Eq, Structural, Debug)]
pub struct Projectile {
    pub pos: Vec2i,
    pub vel: Vec2i,
    /// Index of the player whose shot (or submunition) this is.
    pub owner: u32,
    pub kind: BulletType,
}

impl Projectile {
    /// Within the coordinate and speed box that one step from an in-play
    /// state can reach; every stored projectile satisfies this.
    pub open spec fn bounded(self) -> bool {
        &&& -COORD_BOUND <= self.pos.x <= COORD_BOUND
        &&& -COORD_BOUND <= self.pos.y <= COORD_BOUND
        &&& -SPEED_BOUND <= self.vel.x <= SPEED_BOUND
        &&& -SPEED_BOUND <= self.vel.y <= SPEED_BOUND
    }

    /// Still inside the playable space: it will be advanced next tick
    /// rather than despawned.
    pub open spec fn in_play(self) -> bool {
        &&& -IN_PLAY_COORD <= self.pos.x <= IN_PLAY_COORD
        &&& -IN_PLAY_COORD <= self.pos.y <= IN_PLAY_COORD
        &&& -IN_PLAY_SPEED <= self.vel.x <= IN_PLAY_SPEED
        &&& -IN_PLAY_SPEED <= self.vel.y <= IN_PLAY_SPEED
    }

    /// The exact state one integration step of size `dt` under wind `wind`
    /// produces: `pos += vel * dt + (accel / 2) * dt^2` and
    /// `vel += accel * dt` on each axis, with vertical acceleration
    /// `GRAVITY` and horizontal acceleration `wind`.
    pub open spec fn stepped(self, wind: int, dt: int) -> Projectile {
        Projectile {
            pos: Vec2i {
                x: (self.pos.x + self.vel.x * dt + (wind / 2) * dt * dt) as i64,
                y: (self.pos.y + self.vel.y * dt + (GRAVITY / 2) * dt * dt) as i64,
            },
            vel: Vec2i {
                x: (self.vel.x + wind * dt) as i64,
                y: (self.vel.y + GRAVITY * dt) as i64,
            },
            owner: self.owner,
            kind: self.kind,
        }
    }

    /// Advances this projectile by one tick of size `dt`.
    pub fn step(&mut self, wind: i32, dt: u32)
        requires
            old(self).in_play(),
            -MAX_WIND <= wind <= MAX_WIND,
            wind % 2 == 0,
            1 <= dt <= MAX_DT,
        ensures
            *final(self) == old(self).stepped(wind as int, dt as int),
            final(self).bounded(),
    {
        let dt64: i64 = dt as i64;
        let half_w: i64 = if wind >= 0 {
            ((wind as u32) / 2) as i64
        } else {
            -((((-wind) as u32) / 2) as i64)
        };
        proof {
            lemma_step_bounds(*self, wind as int, dt as int);
            assert(half_w == wind as int / 2);
        }
        self.pos.x = self.pos.x + self.vel.x * dt64 + half_w * dt64 * dt64;
        let g_half: i64 = -5;
        self.pos.y = self.pos.y + self.vel.y * dt64 + g_half * dt64 * dt64;
        self.vel.x = self.vel.x + (wind as i64) * dt64;
        self.vel.y = self.vel.y + GRAVITY * dt64;
    }
}

/// The intermediate products of one integration step, bounded so the step
/// arithmetic stays inside `i64` and inside the stored-projectile box.
proof fn lemma_step_bounds(p: Projectile, wind: int, dt: int)
    requires
        p.in_play(),
        -MAX_WIND <= wind <= MAX_WIND,
        wind % 2 == 0,
        1 <= dt <= MAX_DT,
    ensures
        -1_000_000 <= p.vel.x * dt <= 1_000_000,
        -1_000_000 <= p.vel.y * dt <= 1_000_000,
        -150 <= (wind / 2) * dt <= 150,
        -1_500 <= (wind / 2) * dt * dt <= 1_500,
        -50 <= -5 * dt <= 0,
        -500 <= -5 * dt * dt <= 0,
        -300 <= wind * dt <= 300,
        -15 <= wind / 2 <= 15,
        GRAVITY as int / 2 == -5,
{
    assert(-1_000_000 <= p.vel.x * dt <= 1_000_000) by (nonlinear_arith)
        requires
            -100_000 <= p.vel.x <= 100_000,
            1 <= dt <= 10,
    ;
    assert(-1_000_000 <= p.vel.y * dt <= 1_000_000) by (nonlinear_arith)
        requires
            -100_000 <= p.vel.y <= 100_000,
            1 <= dt <= 10,
    ;
    assert(-15 <= wind / 2 <= 15);
    assert(-150 <= (wind / 2) * dt <= 150 && -1_500 <= (wind / 2) * dt * dt <= 1_500)
        by (nonlinear_arith)
        requires
            -15 <= wind / 2 <= 15,
            1 <= dt <= 10,
    ;
    assert(-50 <= -5 * dt <= 0 && -500 <= -5 * dt * dt <= 0) by (nonlinear_arith)
        requires
            1 <= dt <= 10,
    ;
    assert(-300 <= wind * dt <= 300) by (nonlinear_arith)
        requires
            -30 <= wind <= 30,
            1 <= dt <= 10,
    ;
}

/// Law of vertical motion: one step of size `dt` leaves the horizontal
/// state alone in the absence of wind, and on the vertical axis performs
/// exactly `vel += GRAVITY * dt` and `pos += vel * dt + GRAVITY * dt^2 / 2`
/// (stated doubled so the halving is fraction-free).
pub proof fn lemma_vertical_motion(p: Projectile, wind: int, dt: int)
    requires
        p.in_play(),
        -MAX_WIND <= wind <= MAX_WIND,
        wind % 2 == 0,
        1 <= dt <= MAX_DT,
    ensures
        p.stepped(wind, dt).vel.y == p.vel.y + GRAVITY * dt,
        2 * p.stepped(wind, dt).pos.y == 2 * (p.pos.y + p.vel.y * dt) + GRAVITY * dt * dt,
        wind == 0 ==> p.stepped(wind, dt).vel.x == p.vel.x,
        wind == 0 ==> p.stepped(wind, dt).pos.x == p.pos.x + p.vel.x * dt,
{
    lemma_step_bounds(p, wind, dt);
    assert(2 * (-5 * dt * dt) == -10 * dt * dt) by (nonlinear_arith);
}

} // verus!
