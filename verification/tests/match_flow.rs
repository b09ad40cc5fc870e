//! The turn and phase machine on concrete worlds: rotation, the shop, the
//! start menu, and the movement and firing gates.

use tankrs::kinds::BulletCount;
use tankrs::kinds::BulletType;
use tankrs::messages::BattleMessage;
use tankrs::messages::GameMode;
use tankrs::messages::ShopMessage;
use tankrs::messages::StartMenuMessage;
use tankrs::world::World;

fn started_world(count: u32) -> World {
    let mut w = World::new();
    assert!(w.handle_startmenu_message(&StartMenuMessage::ChoosePlayerCount(count)));
    assert!(w.handle_startmenu_message(&StartMenuMessage::Start));
    w
}

#[test]
fn new_world_waits_in_the_start_menu() {
    let w = World::new();
    assert_eq!(w.mode, GameMode::StartMenu);
    assert_eq!(w.player_count, 2);
    assert_eq!(w.in_flight, 0);
}

#[test]
fn player_count_is_validated_in_the_menu() {
    let mut w = World::new();
    assert!(!w.handle_startmenu_message(&StartMenuMessage::ChoosePlayerCount(0)));
    assert_eq!(w.player_count, 2);
    assert!(!w.handle_startmenu_message(&StartMenuMessage::ChoosePlayerCount(25)));
    assert_eq!(w.player_count, 2);
    assert!(w.handle_startmenu_message(&StartMenuMessage::ChoosePlayerCount(5)));
    assert_eq!(w.player_count, 5);
}

#[test]
fn starting_builds_a_full_living_roster() {
    let w = started_world(3);
    assert_eq!(w.mode, GameMode::Battle);
    assert_eq!(w.players.len(), 3);
    for (i, p) in w.players.iter().enumerate() {
        assert_eq!(p.player_number, i as u32);
        assert!(p.alive);
        assert_eq!(p.health, 100);
        assert_eq!(p.fuel, 1000);
        assert_eq!(p.money, 0);
    }
    assert_eq!(w.active_player, 0);
}

#[test]
fn rotation_skips_eliminated_players() {
    // Players {0 alive, 1 dead, 2 alive}: incrementing from 0 yields 2.
    let mut w = started_world(3);
    w.players[1].alive = false;
    w.increment_player();
    assert_eq!(w.active_player, 2);
    // And from 2 it wraps straight back to 0.
    w.increment_player();
    assert_eq!(w.active_player, 0);
}

#[test]
fn rotation_with_everyone_dead_stays_put() {
    let mut w = started_world(2);
    w.players[0].alive = false;
    w.players[1].alive = false;
    w.active_player = 1;
    w.increment_player();
    assert_eq!(w.active_player, 1);
}

#[test]
fn movement_burns_fuel_and_degrades() {
    let mut w = started_world(2);
    let x0 = w.players[0].x;
    w.handle_battle_message(&BattleMessage::MoveRight);
    // Fuel 1000 -> 990; distance is a tenth of the remaining fuel.
    assert_eq!(w.players[0].fuel, 990);
    assert_eq!(w.players[0].x, x0 + 9);
    w.handle_battle_message(&BattleMessage::MoveLeft);
    assert_eq!(w.players[0].fuel, 980);
    assert_eq!(w.players[0].x, x0 + 9 - 9);
    // A drained tank no longer moves.
    w.players[0].fuel = 10;
    w.handle_battle_message(&BattleMessage::MoveRight);
    assert_eq!(w.players[0].fuel, 0);
    assert_eq!(w.players[0].x, x0);
}

#[test]
fn setters_reject_out_of_domain_values() {
    let mut w = started_world(2);
    w.handle_battle_message(&BattleMessage::SetAngle(200));
    assert_eq!(w.players[0].aim.get(), 200);
    w.handle_battle_message(&BattleMessage::SetAngle(4000));
    assert_eq!(w.players[0].aim.get(), 200);
    w.handle_battle_message(&BattleMessage::SetVelocity(55));
    assert_eq!(w.players[0].fire_power, 55);
    w.handle_battle_message(&BattleMessage::SetVelocity(101));
    assert_eq!(w.players[0].fire_power, 55);
}

#[test]
fn firing_with_empty_stock_is_a_no_op() {
    let mut w = started_world(2);
    // Cluster stock starts at zero and cannot be selected, so force it.
    w.players[0].selected_bullet = BulletType::Cluster;
    w.handle_battle_message(&BattleMessage::Fire);
    assert_eq!(w.in_flight, 0);
    assert!(!w.fired_this_turn);
    assert_eq!(w.projectiles.len(), 0);
}

#[test]
fn intents_are_ignored_while_shells_fly() {
    let mut w = started_world(2);
    w.handle_battle_message(&BattleMessage::Fire);
    assert_eq!(w.in_flight, 1);
    let x0 = w.players[0].x;
    let fuel0 = w.players[0].fuel;
    w.handle_battle_message(&BattleMessage::MoveRight);
    assert_eq!(w.players[0].x, x0);
    assert_eq!(w.players[0].fuel, fuel0);
    w.handle_battle_message(&BattleMessage::Fire);
    assert_eq!(w.in_flight, 1);
    w.handle_battle_message(&BattleMessage::SetVelocity(99));
    assert_eq!(w.players[0].fire_power, 10);
}

#[test]
fn shop_purchase_gates_on_money_and_cap() {
    let mut w = started_world(2);
    w.set_phase(GameMode::Shop);
    w.players[0].money = 50;
    // Cost 100 against money 50: both money and count stay unchanged.
    w.handle_shop_message(&ShopMessage::BuyItem(BulletType::Nuke));
    assert_eq!(w.players[0].money, 50);
    assert_eq!(w.players[0].inventory.get(BulletType::Nuke), BulletCount::Count(0));
    // With money it works.
    w.players[0].money = 250;
    w.handle_shop_message(&ShopMessage::BuyItem(BulletType::Nuke));
    assert_eq!(w.players[0].money, 150);
    assert_eq!(w.players[0].inventory.get(BulletType::Nuke), BulletCount::Count(1));
}

#[test]
fn shop_turns_rotate_and_then_battle_resumes() {
    let mut w = started_world(2);
    w.set_phase(GameMode::Shop);
    assert_eq!(w.active_player, 0);
    w.handle_shop_message(&ShopMessage::EndTurn);
    assert_eq!(w.mode, GameMode::Shop);
    assert_eq!(w.active_player, 1);
    // The last seat confirming sends the match back to battle, reset.
    w.players[0].money = 77;
    w.handle_shop_message(&ShopMessage::EndTurn);
    assert_eq!(w.mode, GameMode::Battle);
    assert_eq!(w.active_player, 0);
    assert_eq!(w.players[0].money, 77);
    assert_eq!(w.players[0].health, 100);
}

#[test]
fn reset_carries_money_and_inventory_forward() {
    let mut w = started_world(2);
    w.players[0].money = 500;
    w.players[1].money = 250;
    w.players[1].health = 3;
    w.players[1].fuel = 1;
    w.reset();
    assert_eq!(w.players[0].money, 500);
    assert_eq!(w.players[1].money, 250);
    assert_eq!(w.players[1].health, 100);
    assert_eq!(w.players[1].fuel, 1000);
    assert!(w.players[1].alive);
    assert_eq!(w.in_flight, 0);
    assert_eq!(w.projectiles.len(), 0);
}

#[test]
fn ticks_outside_battle_do_nothing() {
    let mut w = World::new();
    let r = w.tick(1);
    assert_eq!(w.mode, GameMode::StartMenu);
    assert!(r.kills.is_empty());
    assert!(!r.turn_ended);
    assert!(!r.phase_changed);
}

#[test]
fn rolled_winds_are_bounded_and_even() {
    for _ in 0..25 {
        let w = World::new();
        assert!(w.wind >= -30 && w.wind <= 30);
        assert_eq!(w.wind.rem_euclid(2), 0);
        let mut w2 = w;
        w2.reset();
        assert!(w2.wind >= -30 && w2.wind <= 30);
        assert_eq!(w2.wind.rem_euclid(2), 0);
    }
}
