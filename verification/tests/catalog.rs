//! The projectile catalog: indices, costs, caps, and ammunition counts.

use tankrs::kinds::BulletCount;
use tankrs::kinds::BulletType;
use tankrs::kinds::NUM_BULLET_TYPES;

#[test]
fn kind_indices_round_trip() {
    let all = BulletType::all_types();
    assert_eq!(all.len() as u32, NUM_BULLET_TYPES);
    for (i, t) in all.iter().enumerate() {
        assert_eq!(t.get_int_value(), i as u32);
        assert_eq!(BulletType::get_from_int(i as u32), *t);
    }
}

#[test]
fn kind_cycling_wraps_without_panicking() {
    assert_eq!(BulletType::RegularBullet.next_wrapping(), BulletType::FireBullet);
    assert_eq!(BulletType::FireBullet.next_wrapping(), BulletType::Cluster);
    assert_eq!(BulletType::Cluster.next_wrapping(), BulletType::Nuke);
    assert_eq!(BulletType::Nuke.next_wrapping(), BulletType::RegularBullet);
}

#[test]
fn catalog_stats() {
    assert_eq!(BulletType::RegularBullet.get_cost(), 0);
    assert_eq!(BulletType::FireBullet.get_cost(), 10);
    assert_eq!(BulletType::Nuke.get_cost(), 100);
    assert_eq!(BulletType::RegularBullet.get_max_count(), u32::MAX);
    assert_eq!(BulletType::FireBullet.get_max_count(), 20);
    assert_eq!(BulletType::Nuke.get_max_count(), 3);
    assert!(BulletType::Nuke.get_radius() > BulletType::RegularBullet.get_radius());
}

#[test]
fn count_increment_and_decrement() {
    assert_eq!(BulletCount::Count(3).increment(), BulletCount::Count(4));
    assert_eq!(BulletCount::Count(4).decrement(), BulletCount::Count(3));
    assert_eq!(BulletCount::Unlimited.increment(), BulletCount::Unlimited);
    assert_eq!(BulletCount::Unlimited.decrement(), BulletCount::Unlimited);
}

#[test]
fn count_availability() {
    assert!(BulletCount::Unlimited.available());
    assert!(BulletCount::Count(1).available());
    assert!(!BulletCount::Count(0).available());
}
