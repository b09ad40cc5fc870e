//! Terrain laws on concrete states: the height floor, damage
//! monotonicity, and the exact damage formula.

use tankrs::terrain::Terrain;
use tankrs::terrain::MAX_X;
use tankrs::terrain::MIN_FLOOR;
use tankrs::terrain::MIN_X;

#[test]
fn height_of_fresh_terrain() {
    let t = Terrain::new(100);
    // period = 2 * 100 + 300 = 500; at the left edge the wave is 0.
    assert_eq!(t.height_at(MIN_X), 60);
    // 100 cells in, the wave has climbed by 200.
    assert_eq!(t.height_at(MIN_X + 100), 260);
    // Past the half-period the wave descends: t = 300, wave = 2 * (500 - 300).
    assert_eq!(t.height_at(MIN_X + 300), 460);
}

#[test]
fn out_of_domain_x_sees_the_edge_cell() {
    let t = Terrain::new(100);
    assert_eq!(t.height_at(MIN_X - 500), t.height_at(MIN_X));
    assert_eq!(t.height_at(MAX_X + 500), t.height_at(MAX_X));
}

#[test]
fn height_never_drops_below_the_floor() {
    let mut t = Terrain::new(150);
    // Hammer one spot far beyond any base height.
    for _ in 0..200 {
        t.apply_damage(0, 100);
    }
    for x in [MIN_X, -100, -50, 0, 50, 100, MAX_X] {
        assert!(t.height_at(x) >= MIN_FLOOR);
    }
    assert_eq!(t.height_at(0), MIN_FLOOR);
}

#[test]
fn damage_is_exactly_two_radius_inside_the_span() {
    let mut t = Terrain::new(100);
    let before_inside = t.height_at(2);
    let before_left_out = t.height_at(-5);
    let before_right_edge = t.height_at(5);
    t.apply_damage(0, 10);
    // Cells in [-5, 5) each lose exactly 2 * 10 of height (well above floor).
    assert_eq!(t.height_at(2), before_inside - 20);
    assert_eq!(t.height_at(-5), before_left_out - 20);
    // The half-open span excludes its right endpoint.
    assert_eq!(t.height_at(5), before_right_edge);
}

#[test]
fn doubling_the_radius_doubles_span_and_per_cell_damage() {
    let mut a = Terrain::new(100);
    a.apply_damage(0, 10);
    let mut b = Terrain::new(100);
    b.apply_damage(0, 20);
    // Same seed, so identical base: compare drops.
    let fresh = Terrain::new(100);
    assert_eq!(fresh.height_at(0) - a.height_at(0), 20);
    assert_eq!(fresh.height_at(0) - b.height_at(0), 40);
    // x = 7 is outside radius 10's span [-5, 5) but inside radius 20's [-10, 10).
    assert_eq!(a.height_at(7), fresh.height_at(7));
    assert_eq!(fresh.height_at(7) - b.height_at(7), 40);
}

#[test]
fn damage_never_decreases() {
    let mut t = Terrain::new(75);
    let mut last: Vec<u32> = (MIN_X..=MAX_X).map(|x| t.height_at(x)).collect();
    for hit in 0..20 {
        t.apply_damage(hit * 90 - 900, 30);
        let now: Vec<u32> = (MIN_X..=MAX_X).map(|x| t.height_at(x)).collect();
        for (h_now, h_last) in now.iter().zip(last.iter()) {
            assert!(h_now <= h_last);
        }
        last = now;
    }
}

#[test]
fn out_of_bounds_span_is_silently_clipped() {
    let mut t = Terrain::new(100);
    let before = t.height_at(MIN_X);
    t.apply_damage(MIN_X - 3, 10);
    // Cells [-965, -955) exist only from -960 on; those take damage, the rest
    // of the span is ignored without error.
    assert_eq!(t.height_at(MIN_X), before - 20);
    t.apply_damage(MIN_X - 500, 10);
    assert_eq!(t.height_at(MIN_X), before - 20);
}

#[test]
fn reset_clears_all_damage() {
    let mut t = Terrain::new(100);
    t.apply_damage(0, 100);
    t.reset(100);
    let fresh = Terrain::new(100);
    for x in [MIN_X, -10, 0, 10, MAX_X] {
        assert_eq!(t.height_at(x), fresh.height_at(x));
    }
}
