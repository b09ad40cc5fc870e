//! The narrow mutation channel into the engine: discrete intents produced
//! by input or UI, the phases of a match, and the events the engine
//! reports back for presentation.

use vstd::prelude::*;

use crate::kinds::BulletType;

verus! {

/// The phase a match is in.
#[derive(Clone, Copy, PartialEq, Eq, Structural, Debug)]
pub enum GameMode {
    Battle,
    Shop,
    StartMenu,
}

/// Intents available during battle.
#[derive(Clone, Copy, PartialEq, Eq, Structural, Debug)]
pub enum BattleMessage {
    Reset,
    MoveRight,
    MoveLeft,
    Fire,
    /// Launch power for the next shot, in tenths of a speed unit.
    SetVelocity(u32),
    /// Aim angle in milliradians.
    SetAngle(u32),
    SelectBullet(BulletType),
}

/// Intents available in the shop.
#[derive(Clone, Copy, PartialEq, Eq, Structural, Debug)]
pub enum ShopMessage {
    BuyItem(BulletType),
    EndTurn,
}

/// Intents available in the start menu.
#[derive(Clone, Copy, PartialEq, Eq, Structural, Debug)]
pub enum StartMenuMessage {
    ChoosePlayerCount(u32),
    Start,
}

/// Any intent, tagged by the phase it belongs to.
#[derive(Clone, Copy, PartialEq, Eq, Structural, Debug)]
pub enum UiMessage {
    StartMenuMessage(StartMenuMessage),
    BattleMessage(BattleMessage),
    ShopMessage(ShopMessage),
    SetSceneMessage(GameMode),
}

/// One player eliminated another (or themselves).
#[derive(Clone, Copy, PartialEq, Eq, Structural, Debug)]
pub struct PlayerKillEvent {
    pub killer: u32,
    pub killed: u32,
}

/// What one simulation tick did, for presentation and turn bookkeeping.
#[derive(Clone, Debug)]
pub struct TickReport {
    /// Eliminations this tick, in resolution order.
    pub kills: Vec<PlayerKillEvent>,
    /// The ground was deformed: redraw it.
    pub terrain_changed: bool,
    /// The active player's turn ended this tick.
    pub turn_ended: bool,
    /// The match left battle for the shop this tick.
    pub phase_changed: bool,
}

/// Whether `kills` records player `i` being eliminated.
pub open spec fn killed_in(kills: Seq<PlayerKillEvent>, i: int) -> bool {
    exists|k: int| 0 <= k < kills.len() && kills[k].killed == i
}

} // verus!
