//! The integration step on concrete values, and the fixed-point muzzle
//! velocity formulas.

use tankrs::angle::Angle;
use tankrs::angle::HALF_PI_MRAD;
use tankrs::angle::PI_MRAD;
use tankrs::ballistics::Projectile;
use tankrs::ballistics::Vec2i;
use tankrs::kinds::BulletType;
use tankrs::trig::cos_mrad;
use tankrs::trig::muzzle_velocity;
use tankrs::trig::sin_mrad;

fn resting_shell(y: i64) -> Projectile {
    Projectile {
        pos: Vec2i { x: 0, y },
        vel: Vec2i { x: 0, y: 0 },
        owner: 0,
        kind: BulletType::RegularBullet,
    }
}

#[test]
fn one_tick_from_rest_under_gravity() {
    let mut p = resting_shell(100);
    p.step(0, 1);
    // velocity.y = v0 + g * dt, position.y = y0 + v0 * dt + g * dt^2 / 2.
    assert_eq!(p.vel.y, -10);
    assert_eq!(p.pos.y, 95);
    assert_eq!(p.vel.x, 0);
    assert_eq!(p.pos.x, 0);
}

#[test]
fn larger_step_squares_the_drop() {
    let mut p = resting_shell(1000);
    p.step(0, 10);
    assert_eq!(p.vel.y, -100);
    assert_eq!(p.pos.y, 1000 - 500);
}

#[test]
fn wind_accelerates_horizontally_without_drag() {
    let mut p = resting_shell(100);
    p.step(30, 2);
    // position.x = x0 + v0 * dt + (wind / 2) * dt^2; velocity.x = v0 + wind * dt.
    assert_eq!(p.pos.x, 60);
    assert_eq!(p.vel.x, 60);
    let mut q = resting_shell(100);
    q.step(-30, 2);
    assert_eq!(q.pos.x, -60);
    assert_eq!(q.vel.x, -60);
}

#[test]
fn successive_ticks_accumulate_velocity() {
    let mut p = resting_shell(10_000);
    p.step(0, 1);
    p.step(0, 1);
    // Second tick starts at vel -10: pos -= 10 + 5.
    assert_eq!(p.vel.y, -20);
    assert_eq!(p.pos.y, 10_000 - 5 - 15);
}

#[test]
fn trig_is_exact_at_the_quarter_turns() {
    assert_eq!(sin_mrad(0), 0);
    assert_eq!(sin_mrad(HALF_PI_MRAD), 1000);
    assert_eq!(sin_mrad(PI_MRAD), 0);
    assert_eq!(cos_mrad(0), 1000);
    assert_eq!(cos_mrad(HALF_PI_MRAD), 0);
    assert_eq!(cos_mrad(PI_MRAD), -1000);
}

#[test]
fn muzzle_velocity_straight_up() {
    let aim = Angle::new(HALF_PI_MRAD).unwrap();
    let (vx, vy) = muzzle_velocity(&aim, 100);
    assert_eq!(vx, 0);
    assert_eq!(vy, 100);
}

#[test]
fn muzzle_velocity_flat_shots() {
    // Angle 0 points along positive cosine; the x component is negated.
    let right_to_left = Angle::new(0).unwrap();
    let (vx, vy) = muzzle_velocity(&right_to_left, 100);
    assert_eq!(vx, -100);
    assert_eq!(vy, 0);
    let left_to_right = Angle::new(PI_MRAD).unwrap();
    let (vx2, vy2) = muzzle_velocity(&left_to_right, 100);
    assert_eq!(vx2, 100);
    assert_eq!(vy2, 0);
}

#[test]
fn zero_power_means_zero_velocity() {
    let aim = Angle::new(777).unwrap();
    let (vx, vy) = muzzle_velocity(&aim, 0);
    assert_eq!(vx, 0);
    assert_eq!(vy, 0);
}

#[test]
fn angle_setter_rejects_out_of_domain() {
    let mut a = Angle::default();
    assert_eq!(a.get(), HALF_PI_MRAD);
    assert!(!a.set(PI_MRAD + 1));
    assert_eq!(a.get(), HALF_PI_MRAD);
    assert!(a.set(100));
    assert_eq!(a.get(), 100);
    assert!(Angle::new(PI_MRAD + 1).is_none());
}
