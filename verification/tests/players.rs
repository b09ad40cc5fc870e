//! The player and inventory model: purchases, selection, fuel, carry-over.

use tankrs::kinds::BulletCount;
use tankrs::kinds::BulletType;
use tankrs::player::Player;

#[test]
fn buying_at_exact_cost_succeeds() {
    let mut p = Player::from_previous_or_initial(0, None);
    p.money = 100;
    assert!(p.buy(BulletType::Nuke));
    assert_eq!(p.money, 0);
    assert_eq!(p.inventory.get(BulletType::Nuke), BulletCount::Count(1));
}

#[test]
fn buying_with_insufficient_money_is_a_no_op() {
    let mut p = Player::from_previous_or_initial(0, None);
    p.money = 50;
    assert!(!p.buy(BulletType::Nuke));
    assert_eq!(p.money, 50);
    assert_eq!(p.inventory.get(BulletType::Nuke), BulletCount::Count(0));
}

#[test]
fn buying_at_the_cap_is_a_no_op() {
    let mut p = Player::from_previous_or_initial(0, None);
    p.money = 1000;
    for _ in 0..3 {
        assert!(p.buy(BulletType::Nuke));
    }
    assert_eq!(p.money, 700);
    assert_eq!(p.inventory.get(BulletType::Nuke), BulletCount::Count(3));
    assert!(!p.buy(BulletType::Nuke));
    assert_eq!(p.money, 700);
    assert_eq!(p.inventory.get(BulletType::Nuke), BulletCount::Count(3));
}

#[test]
fn unlimited_stock_cannot_be_bought() {
    let mut p = Player::from_previous_or_initial(0, None);
    p.money = 1000;
    assert!(!p.buy(BulletType::RegularBullet));
    assert_eq!(p.money, 1000);
    assert_eq!(p.inventory.get(BulletType::RegularBullet), BulletCount::Unlimited);
}

#[test]
fn selecting_requires_holding_the_kind() {
    let mut p = Player::from_previous_or_initial(0, None);
    assert_eq!(p.selected_bullet, BulletType::RegularBullet);
    p.select(BulletType::Nuke);
    assert_eq!(p.selected_bullet, BulletType::RegularBullet);
    p.select(BulletType::FireBullet);
    assert_eq!(p.selected_bullet, BulletType::FireBullet);
}

#[test]
fn driving_floors_fuel_at_zero() {
    let mut p = Player::from_previous_or_initial(0, None);
    assert_eq!(p.fuel, 1000);
    assert_eq!(p.drive(10), 990);
    assert_eq!(p.drive(980), 10);
    assert_eq!(p.drive(25), 0);
    assert_eq!(p.drive(10), 0);
}

#[test]
fn respawn_carries_money_and_inventory_but_not_health_or_fuel() {
    let mut first = Player::from_previous_or_initial(0, None);
    first.money = 300;
    first.buy(BulletType::FireBullet);
    first.health = 7;
    first.fuel = 3;
    let carried = (first.money, first.inventory.duplicate());
    let p = Player::from_previous_or_initial(0, Some(&carried));
    assert_eq!(p.money, 290);
    assert_eq!(p.inventory.get(BulletType::FireBullet), BulletCount::Count(11));
    assert_eq!(p.health, 100);
    assert_eq!(p.fuel, 1000);
    assert!(p.alive);
}
