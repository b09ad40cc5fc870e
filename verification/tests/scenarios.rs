//! End-to-end battle scenarios: end-of-turn gating, the vertical shot that
//! must land, the cluster fan-out, and the battle-to-shop transition.

use tankrs::ballistics::Projectile;
use tankrs::ballistics::Vec2i;
use tankrs::kinds::BulletCount;
use tankrs::kinds::BulletType;
use tankrs::messages::BattleMessage;
use tankrs::messages::GameMode;
use tankrs::messages::StartMenuMessage;
use tankrs::world::World;

fn started_calm_world() -> World {
    let mut w = World::new();
    assert!(w.handle_startmenu_message(&StartMenuMessage::ChoosePlayerCount(2)));
    assert!(w.handle_startmenu_message(&StartMenuMessage::Start));
    // Pin the wind for a deterministic trajectory.
    w.wind = 0;
    w
}

#[test]
fn firing_decrements_stock_and_turn_waits_for_the_shell() {
    let mut w = started_calm_world();
    w.handle_battle_message(&BattleMessage::SelectBullet(BulletType::FireBullet));
    w.handle_battle_message(&BattleMessage::SetVelocity(0));
    w.handle_battle_message(&BattleMessage::Fire);
    assert_eq!(w.players[0].inventory.get(BulletType::FireBullet), BulletCount::Count(9));
    assert_eq!(w.in_flight, 1);
    assert!(w.fired_this_turn);
    // The turn must not advance while the counter is positive, and must
    // advance exactly once it returns to zero.
    let mut ended = false;
    for _ in 0..200 {
        let r = w.tick(1);
        if r.turn_ended {
            ended = true;
            break;
        }
        assert_eq!(w.active_player, 0);
        assert!(w.in_flight > 0);
    }
    assert!(ended);
    assert_eq!(w.in_flight, 0);
    assert_eq!(w.active_player, 1);
    assert!(!w.fired_this_turn);
}

#[test]
fn ticks_without_a_fire_never_end_the_turn() {
    let mut w = started_calm_world();
    for _ in 0..50 {
        let r = w.tick(1);
        assert!(!r.turn_ended);
        assert_eq!(w.active_player, 0);
    }
}

#[test]
fn vertical_zero_power_shot_lands_and_ends_the_turn() {
    // Straight up at zero velocity: the shell falls back by the firer and
    // must collide with the terrain rather than loop forever.
    let mut w = started_calm_world();
    w.handle_battle_message(&BattleMessage::SetAngle(1571));
    w.handle_battle_message(&BattleMessage::SetVelocity(0));
    w.handle_battle_message(&BattleMessage::Fire);
    assert_eq!(w.in_flight, 1);
    let mut ended = false;
    let mut ground_hit = false;
    for _ in 0..100 {
        let r = w.tick(1);
        ground_hit = ground_hit || r.terrain_changed;
        if r.turn_ended {
            ended = true;
            break;
        }
    }
    assert!(ended);
    assert!(ground_hit);
    assert_eq!(w.projectiles.len(), 0);
    assert_eq!(w.active_player, 1);
    // Nobody was harmed by the shooter's own shell.
    assert_eq!(w.players[0].health, 100);
    assert_eq!(w.players[1].health, 100);
    assert_eq!(w.mode, GameMode::Battle);
}

#[test]
fn cluster_impact_fans_out_exactly_five_submunitions() {
    let mut w = started_calm_world();
    w.players[0].inventory.set_count(BulletType::Cluster, BulletCount::Count(1));
    w.handle_battle_message(&BattleMessage::SelectBullet(BulletType::Cluster));
    w.handle_battle_message(&BattleMessage::SetAngle(1571));
    w.handle_battle_message(&BattleMessage::SetVelocity(0));
    w.handle_battle_message(&BattleMessage::Fire);
    assert_eq!(w.players[0].inventory.get(BulletType::Cluster), BulletCount::Count(0));
    assert_eq!(w.in_flight, 1);
    // Tick until the parent strikes the ground; that very tick the five
    // submunitions must all be registered in flight.
    let mut impacted = false;
    for _ in 0..100 {
        let r = w.tick(1);
        if r.terrain_changed {
            impacted = true;
            break;
        }
    }
    assert!(impacted);
    assert_eq!(w.in_flight, 5);
    assert_eq!(w.projectiles.len(), 5);
    for sub in w.projectiles.iter() {
        assert_eq!(sub.kind, BulletType::RegularBullet);
        assert_eq!(sub.owner, 0);
    }
    // Each submunition resolves independently; the counter drains back to
    // zero with no leak and no double-decrement, and only then the turn ends.
    let mut ended = false;
    for _ in 0..500 {
        let r = w.tick(1);
        if r.turn_ended {
            ended = true;
            break;
        }
        assert!(w.in_flight > 0);
    }
    assert!(ended);
    assert_eq!(w.in_flight, 0);
    assert_eq!(w.projectiles.len(), 0);
    assert_eq!(w.active_player, 1);
}

#[test]
fn battle_leaves_for_the_shop_exactly_when_one_player_remains() {
    let mut w = started_calm_world();
    // With both players alive and healthy a tick changes no phase.
    let r = w.tick(1);
    assert!(!r.phase_changed);
    assert_eq!(w.mode, GameMode::Battle);
    // Wound player 1 and drop a nuke just above their tank.
    w.players[1].health = 5;
    let tx = w.players[1].x as i64;
    let ty = w.players[1].y as i64;
    w.projectiles.push(Projectile {
        pos: Vec2i { x: tx, y: ty + 10 },
        vel: Vec2i { x: 0, y: 0 },
        owner: 0,
        kind: BulletType::Nuke,
    });
    w.in_flight = 1;
    let r = w.tick(1);
    // The hit drives health below zero: the player is eliminated, the kill
    // is credited, and living players drop from 2 to 1, which is exactly
    // when the match moves to the shop.
    assert_eq!(r.kills.len(), 1);
    assert_eq!(r.kills[0].killer, 0);
    assert_eq!(r.kills[0].killed, 1);
    assert!(r.phase_changed);
    assert_eq!(w.mode, GameMode::Shop);
    // The round reset revived everyone and carried the bounty forward.
    assert_eq!(w.players[0].money, 1000);
    assert!(w.players[1].alive);
    assert_eq!(w.players[1].health, 100);
    assert_eq!(w.active_player, 0);
    assert_eq!(w.in_flight, 0);
}

#[test]
fn own_shells_pass_through_the_firing_tank() {
    let mut w = started_calm_world();
    w.players[0].health = 5;
    let tx = w.players[0].x as i64;
    let ty = w.players[0].y as i64;
    // A shell owned by player 0 hovering over their own tank falls straight
    // through it and craters the ground instead.
    w.projectiles.push(Projectile {
        pos: Vec2i { x: tx, y: ty + 10 },
        vel: Vec2i { x: 0, y: 0 },
        owner: 0,
        kind: BulletType::Nuke,
    });
    w.in_flight = 1;
    let mut ground_hit = false;
    for _ in 0..20 {
        let r = w.tick(1);
        assert!(r.kills.is_empty());
        if r.terrain_changed {
            ground_hit = true;
            break;
        }
    }
    assert!(ground_hit);
    assert!(w.players[0].alive);
    assert_eq!(w.players[0].health, 5);
    assert_eq!(w.mode, GameMode::Battle);
}
