//! The record of one game session, and the clock arithmetic that its
//! cadences share.

use vstd::prelude::*;

use crate::components::{
    AvailableUpgrades, BoughtUpgrades, Defense, DefensePerSecond, EventMessage, EventText,
    GameRunning, GameState, Gold, GoldPerSecond, LastClick, LastEventCheck, LastTick, MaxDefense,
    SelectedUpgrade, Upgrades,
};

verus! {

/// The milliseconds from `earlier` to `now`; none if `now` is the earlier
/// of the two.
pub open spec fn elapsed(now: u64, earlier: u64) -> int {
    if now >= earlier {
        now - earlier
    } else {
        0
    }
}

/// The milliseconds from `earlier` to `now`; none if `now` is the earlier
/// of the two.
pub fn elapsed_since(now: u64, earlier: u64) -> (millis: u64)
    ensures
        millis == elapsed(now, earlier),
{
    if now >= earlier {
        now - earlier
    } else {
        0
    }
}

/// Everything that changes while a game is played. There is one session per
/// run; a restart makes it anew.
#[derive(Debug, PartialEq, Eq)]
pub struct GameSession {
    pub gold: Gold,
    pub gold_ps: GoldPerSecond,
    pub defense: Defense,
    pub max_defense: MaxDefense,
    pub defense_ps: DefensePerSecond,
    pub upgrades: Upgrades,
    pub last_tick: LastTick,
    pub last_event_check: LastEventCheck,
    pub last_click: LastClick,
    pub event_message: EventMessage,
    pub selected_upgrade: SelectedUpgrade,
    pub game_running: GameRunning,
    pub game_state: GameState,
    pub bought_upgrades: BoughtUpgrades,
}

impl GameSession {
    /// The session as a game begins at `now`: 200 gold, 100 of 100 defense,
    /// no income, nothing bought, the first upgrade selected, no message,
    /// every timer at `now`.
    pub open spec fn fresh(now: u64) -> GameSession {
        GameSession {
            gold: Gold(200),
            gold_ps: GoldPerSecond(0),
            defense: Defense(100),
            max_defense: MaxDefense(100),
            defense_ps: DefensePerSecond(0),
            upgrades: Upgrades::standard(),
            last_tick: LastTick(now),
            last_event_check: LastEventCheck(now),
            last_click: LastClick(now),
            event_message: EventMessage { message: EventText::Empty, timestamp: now },
            selected_upgrade: SelectedUpgrade(AvailableUpgrades::Catapult),
            game_running: GameRunning(true),
            game_state: GameState::Playing,
            bought_upgrades: BoughtUpgrades::none(),
        }
    }

    /// The running flag is up exactly while the game is played.
    pub open spec fn consistent(&self) -> bool {
        self.game_running.0 == (self.game_state == GameState::Playing)
    }

    /// Begins a session at `now`.
    pub fn new(now: u64) -> (session: GameSession)
        ensures
            session == GameSession::fresh(now),
    {
        GameSession {
            gold: Gold(200),
            gold_ps: GoldPerSecond(0),
            defense: Defense(100),
            max_defense: MaxDefense(100),
            defense_ps: DefensePerSecond(0),
            upgrades: Upgrades::default(),
            last_tick: LastTick(now),
            last_event_check: LastEventCheck(now),
            last_click: LastClick(now),
            event_message: EventMessage { message: EventText::Empty, timestamp: now },
            selected_upgrade: SelectedUpgrade(AvailableUpgrades::Catapult),
            game_running: GameRunning(true),
            game_state: GameState::default(),
            bought_upgrades: BoughtUpgrades::default(),
        }
    }
}

} // verus!
