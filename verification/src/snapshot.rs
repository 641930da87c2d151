//! The read-only picture of a session that is handed to the presentation.

use vstd::prelude::*;

use crate::components::{
    AvailableUpgrades, Defense, DefensePerSecond, EventMessage, Gold, GoldPerSecond, LastClick,
};
use crate::config::Config;
use crate::game::{calculate_click_cooldown, calculate_next_event_cooldown};
use crate::session::{elapsed, elapsed_since, GameSession};

verus! {

/// The resource totals and rates.
#[derive(Clone, Copy, Debug, PartialEq, Eq, Structural)]
pub struct StatsData {
    pub gold: Gold,
    pub gold_ps: GoldPerSecond,
    pub defense: Defense,
    pub dps: DefensePerSecond,
}

/// What the two countdowns are computed from: the last click that earned
/// gold, the click cooldown, and the milliseconds to the next event check
/// as of the time of the snapshot.
#[derive(Clone, Copy, Debug, PartialEq, Eq, Structural)]
pub struct TimingData {
    pub last_click: LastClick,
    pub click_cooldown: i128,
    pub next_event_cooldown: i128,
}

impl TimingData {
    /// What is left of the click cooldown at `now`: the cooldown less the
    /// time since the last click, and 0 once that time has passed.
    pub open spec fn remaining_at(&self, now: u64) -> int {
        let left = self.click_cooldown - elapsed(now, self.last_click.0);
        if left > 0 {
            left
        } else {
            0
        }
    }

    /// What is left of the click cooldown at `now`.
    pub fn cooldown_remaining(&self, now: u64) -> (remaining: i128)
        ensures
            remaining == self.remaining_at(now),
    {
        let passed: i128 = elapsed_since(now, self.last_click.0) as i128;
        if passed >= self.click_cooldown {
            0
        } else {
            self.click_cooldown - passed
        }
    }
}

/// One line of the upgrade list.
#[derive(Clone, Copy, Debug, PartialEq, Eq, Structural)]
pub struct UpgradeEntry {
    pub upgrade: AvailableUpgrades,
    /// What the next purchase costs.
    pub cost: u64,
    pub level: u32,
    /// Shown as locked: the hand of Midas, until the trade hall has
    /// reached the level that it requires.
    pub locked: bool,
    pub selected: bool,
}

#[derive(Debug)]
pub struct Snapshot<'a> {
    pub stats: StatsData,
    pub timing: TimingData,
    /// One entry for each listed upgrade, in the order of the list.
    pub upgrades: Vec<UpgradeEntry>,
    pub event: &'a EventMessage,
}

impl GameSession {
    /// The line of the upgrade list for `upgrade`.
    pub open spec fn entry(&self, config: &Config, upgrade: AvailableUpgrades) -> UpgradeEntry {
        UpgradeEntry {
            upgrade,
            cost: upgrade.cost_at(config, self.bought_upgrades@[upgrade]) as u64,
            level: self.bought_upgrades@[upgrade],
            locked: upgrade == AvailableUpgrades::MidasHand && config.midas_hand.locked_at(
                self.bought_upgrades@[AvailableUpgrades::TradeHall],
            ),
            selected: upgrade == self.selected_upgrade.0,
        }
    }

    /// The resource totals and rates of the session.
    pub open spec fn stats(&self) -> StatsData {
        StatsData {
            gold: self.gold,
            gold_ps: self.gold_ps,
            defense: self.defense,
            dps: self.defense_ps,
        }
    }

    /// The timing of the session as of `now`.
    pub open spec fn timing(&self, config: &Config, now: u64) -> TimingData {
        TimingData {
            last_click: self.last_click,
            click_cooldown: self.click_cooldown(config) as i128,
            next_event_cooldown: config.next_event_in(self.last_event_check.0, now) as i128,
        }
    }

    /// Takes the picture of the session at `now`.
    pub fn snapshot<'a>(&'a self, config: &Config, now: u64) -> (snapshot: Snapshot<'a>)
        requires
            config.wf(),
        ensures
            snapshot.stats == self.stats(),
            snapshot.timing == self.timing(config, now),
            snapshot.upgrades@ == Seq::new(7, |i: int| self.entry(config, self.upgrades.0@[i])),
            *snapshot.event == self.event_message,
    {
        let midas_level: u32 = self.bought_upgrades.get_count(&AvailableUpgrades::MidasHand);
        let trade_hall_level: u32 = self.bought_upgrades.get_count(&AvailableUpgrades::TradeHall);
        let mut upgrades: Vec<UpgradeEntry> = Vec::new();
        let mut i: usize = 0;
        while i < 7
            invariant
                i <= 7,
                config.wf(),
                trade_hall_level == self.bought_upgrades@[AvailableUpgrades::TradeHall],
                upgrades@ == Seq::new(i as nat, |j: int| self.entry(config, self.upgrades.0@[j])),
            decreases 7 - i,
        {
            let upgrade = self.upgrades.0[i];
            let locked = match upgrade {
                AvailableUpgrades::MidasHand => config.midas_hand.midas_locked(trade_hall_level),
                _ => false,
            };
            upgrades.push(
                UpgradeEntry {
                    upgrade,
                    cost: upgrade.cost(config, &self.bought_upgrades),
                    level: self.bought_upgrades.get_count(&upgrade),
                    locked,
                    selected: upgrade == self.selected_upgrade.0,
                },
            );
            i += 1;
        }
        Snapshot {
            stats: StatsData {
                gold: self.gold,
                gold_ps: self.gold_ps,
                defense: self.defense,
                dps: self.defense_ps,
            },
            timing: TimingData {
                last_click: self.last_click,
                click_cooldown: calculate_click_cooldown(midas_level, config),
                next_event_cooldown: calculate_next_event_cooldown(
                    self.last_event_check.0,
                    config,
                    now,
                ),
            },
            upgrades,
            event: &self.event_message,
        }
    }
}

} // verus!
