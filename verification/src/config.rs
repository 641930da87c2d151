//! The immutable parameters of a session: prices, bonuses, level tables,
//! cooldowns and the odds of the random events.
//!
//! Durations are whole milliseconds. Multipliers and probabilities are exact
//! ratios. A configuration is usable once it is well formed (`Config::wf`),
//! which `Config::is_valid` decides.

use vstd::prelude::*;

use crate::ratio::{Multiplier, Probability};

verus! {

#[derive(Debug)]
pub struct Config {
    pub upgrades: ConfigUpgrades,
    pub events: Events,
    pub trade: Trade,
    pub trade_hall: TradeHallConfig,
    pub midas_hand: MidasHandConfig,
    pub click: ClickConfig,
}

/// The five upgrades of constant price.
#[derive(Debug)]
pub struct ConfigUpgrades {
    pub catapult: UpgradeConfig,
    pub archer: UpgradeConfig,
    pub warrior: UpgradeConfig,
    pub officer: UpgradeConfig,
    pub oil: UpgradeConfig,
}

/// One upgrade of constant price: what it costs, the defense it adds when
/// bought, and the defense it yields per second and purchase.
#[derive(Debug)]
pub struct UpgradeConfig {
    pub cost: u64,
    pub defense: u64,
    pub defense_per_second: u64,
    pub name: String,
}

#[derive(Debug)]
pub struct TradeHallConfig {
    pub base_cost: u64,
    pub base_gold_per_second: u64,
    pub levels: Vec<TradeHallLevel>,
}

/// One row of the trade hall's table: the price of reaching the level and
/// the income at it, both as factors of the base values.
#[derive(Clone, Copy, Debug)]
pub struct TradeHallLevel {
    pub cost_multiplier: Multiplier,
    pub gold_multiplier: Multiplier,
}

#[derive(Debug)]
pub struct MidasHandConfig {
    pub required_trade_hall_level: u32,
    pub base_cost: u64,
    /// Milliseconds taken off the click cooldown per level.
    pub cooldown_reduction_ms: u64,
    pub levels: Vec<MidasHandLevel>,
}

#[derive(Clone, Copy, Debug)]
pub struct MidasHandLevel {
    pub cost_multiplier: Multiplier,
}

#[derive(Clone, Copy, Debug)]
pub struct ClickConfig {
    /// Milliseconds between two clicks that earn gold.
    pub base_cooldown_ms: u64,
}

#[derive(Debug)]
pub struct Events {
    pub bandit_raid: EventConfig,
    pub siege_catapults: EventConfig,
    pub sabotage: EventConfig,
    /// Milliseconds between two event resolutions.
    pub cooldown_ms: u64,
}

/// An attack: the inclusive range of the defense it destroys, the
/// probability of its trial, and the text shown for it.
#[derive(Debug)]
pub struct EventConfig {
    pub min_damage: u64,
    pub max_damage: u64,
    pub probability: Probability,
    pub message: String,
}

#[derive(Debug)]
pub struct Trade {
    pub offer: TradeConfig,
}

/// A trade offer: the inclusive range of the gold it brings, the probability
/// of its trial, and the text shown for it.
#[derive(Debug)]
pub struct TradeConfig {
    pub min_gain: u64,
    pub max_gain: u64,
    pub probability: Probability,
    pub message: String,
}

impl EventConfig {
    /// The damage range is not empty and the probability is one.
    pub open spec fn wf(&self) -> bool {
        self.min_damage <= self.max_damage && self.probability.wf()
    }

    pub fn is_valid(&self) -> (valid: bool)
        ensures
            valid == self.wf(),
    {
        self.min_damage <= self.max_damage && self.probability.is_valid()
    }
}

impl TradeConfig {
    /// The gain range is not empty and the probability is one.
    pub open spec fn wf(&self) -> bool {
        self.min_gain <= self.max_gain && self.probability.wf()
    }

    pub fn is_valid(&self) -> (valid: bool)
        ensures
            valid == self.wf(),
    {
        self.min_gain <= self.max_gain && self.probability.is_valid()
    }
}

impl Events {
    pub open spec fn wf(&self) -> bool {
        self.bandit_raid.wf() && self.siege_catapults.wf() && self.sabotage.wf()
    }

    pub fn is_valid(&self) -> (valid: bool)
        ensures
            valid == self.wf(),
    {
        self.bandit_raid.is_valid() && self.siege_catapults.is_valid() && self.sabotage.is_valid()
    }
}

impl TradeHallLevel {
    /// Both factors are well formed, and the price and the income that they
    /// give from the base values fit in a `u64`.
    pub open spec fn wf(&self, base_cost: u64, base_gold_per_second: u64) -> bool {
        &&& self.cost_multiplier.wf()
        &&& self.cost_multiplier.fits(base_cost)
        &&& self.gold_multiplier.wf()
        &&& self.gold_multiplier.fits(base_gold_per_second)
    }

    pub fn is_valid(&self, base_cost: u64, base_gold_per_second: u64) -> (valid: bool)
        ensures
            valid == self.wf(base_cost, base_gold_per_second),
    {
        self.cost_multiplier.is_valid_for(base_cost) && self.gold_multiplier.is_valid_for(
            base_gold_per_second,
        )
    }
}

impl TradeHallConfig {
    /// Every row of the table is well formed for the base values.
    pub open spec fn wf(&self) -> bool {
        forall|i: int|
            0 <= i < self.levels@.len() ==> (#[trigger] self.levels@[i]).wf(
                self.base_cost,
                self.base_gold_per_second,
            )
    }

    /// The price of the next level at `level`: the base cost scaled by the
    /// row of that level, rounded down, and 0 past the end of the table.
    pub open spec fn cost_at(&self, level: u32) -> int {
        if level >= self.levels@.len() {
            0
        } else {
            self.levels@[level as int].cost_multiplier.scaled(self.base_cost)
        }
    }

    /// The income per second at `level`: nothing at level 0, else the base
    /// income scaled by the row of the level reached, rounded down. A level
    /// past the end of the table has no row, and yields nothing.
    pub open spec fn gold_per_second_at(&self, level: u32) -> int {
        if level == 0 || level > self.levels@.len() {
            0
        } else {
            self.levels@[level - 1].gold_multiplier.scaled(self.base_gold_per_second)
        }
    }

    pub fn is_valid(&self) -> (valid: bool)
        ensures
            valid == self.wf(),
    {
        let mut i: usize = 0;
        while i < self.levels.len()
            invariant
                i <= self.levels@.len(),
                forall|j: int|
                    0 <= j < i ==> (#[trigger] self.levels@[j]).wf(
                        self.base_cost,
                        self.base_gold_per_second,
                    ),
            decreases self.levels@.len() - i,
        {
            if !self.levels[i].is_valid(self.base_cost, self.base_gold_per_second) {
                return false;
            }
            i += 1;
        }
        true
    }

    pub fn level_cost(&self, level: u32) -> (cost: u64)
        requires
            self.wf(),
        ensures
            cost == self.cost_at(level),
    {
        if level as usize >= self.levels.len() {
            return 0;
        }
        self.levels[level as usize].cost_multiplier.scale(self.base_cost)
    }

    pub fn level_gold_per_second(&self, level: u32) -> (gold: u64)
        requires
            self.wf(),
        ensures
            gold == self.gold_per_second_at(level),
    {
        if level == 0 || level as usize > self.levels.len() {
            return 0;
        }
        self.levels[(level - 1) as usize].gold_multiplier.scale(self.base_gold_per_second)
    }
}

impl MidasHandLevel {
    /// The factor is well formed, and the price that it gives from the base
    /// cost fits in a `u64`.
    pub open spec fn wf(&self, base_cost: u64) -> bool {
        self.cost_multiplier.wf() && self.cost_multiplier.fits(base_cost)
    }

    pub fn is_valid(&self, base_cost: u64) -> (valid: bool)
        ensures
            valid == self.wf(base_cost),
    {
        self.cost_multiplier.is_valid_for(base_cost)
    }
}

impl MidasHandConfig {
    /// Every row of the table is well formed for the base cost.
    pub open spec fn wf(&self) -> bool {
        forall|i: int|
            0 <= i < self.levels@.len() ==> (#[trigger] self.levels@[i]).wf(self.base_cost)
    }

    /// The price of the next level at `level`: the base cost scaled by the
    /// row of that level, rounded down, and 0 past the end of the table.
    pub open spec fn cost_at(&self, level: u32) -> int {
        if level >= self.levels@.len() {
            0
        } else {
            self.levels@[level as int].cost_multiplier.scaled(self.base_cost)
        }
    }

    /// The milliseconds that `level` takes off the click cooldown: the
    /// reduction per level times the level, as long as the level has a row
    /// in the table, else nothing.
    pub open spec fn cooldown_reduction_at(&self, level: u32) -> int {
        if 0 < level <= self.levels@.len() {
            level * self.cooldown_reduction_ms
        } else {
            0
        }
    }

    /// The upgrade is shown as locked until the trade hall has reached the
    /// required level.
    pub open spec fn locked_at(&self, trade_hall_level: u32) -> bool {
        trade_hall_level < self.required_trade_hall_level
    }

    pub fn is_valid(&self) -> (valid: bool)
        ensures
            valid == self.wf(),
    {
        let mut i: usize = 0;
        while i < self.levels.len()
            invariant
                i <= self.levels@.len(),
                forall|j: int| 0 <= j < i ==> (#[trigger] self.levels@[j]).wf(self.base_cost),
            decreases self.levels@.len() - i,
        {
            if !self.levels[i].is_valid(self.base_cost) {
                return false;
            }
            i += 1;
        }
        true
    }

    pub fn level_cost(&self, level: u32) -> (cost: u64)
        requires
            self.wf(),
        ensures
            cost == self.cost_at(level),
    {
        if level as usize >= self.levels.len() {
            return 0;
        }
        self.levels[level as usize].cost_multiplier.scale(self.base_cost)
    }

    pub fn midas_locked(&self, trade_hall_level: u32) -> (locked: bool)
        ensures
            locked == self.locked_at(trade_hall_level),
    {
        trade_hall_level < self.required_trade_hall_level
    }
}

impl Config {
    /// The configuration can be played with: the level tables are well
    /// formed, every event has a range that is not empty and a probability
    /// in `[0, 1]`.
    pub open spec fn wf(&self) -> bool {
        &&& self.events.wf()
        &&& self.trade.offer.wf()
        &&& self.trade_hall.wf()
        &&& self.midas_hand.wf()
    }

    /// Decides whether the configuration is well formed.
    pub fn is_valid(&self) -> (valid: bool)
        ensures
            valid == self.wf(),
    {
        self.events.is_valid() && self.trade.offer.is_valid() && self.trade_hall.is_valid()
            && self.midas_hand.is_valid()
    }
}

} // verus!
