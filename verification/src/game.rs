//! The rules that turn levels into rates and cooldowns, and the resolver of
//! random events.
//!
//! An event is resolved by up to four independent trials, held in the fixed
//! order bandit raid, siege catapults, sabotage, trade offer. The first
//! trial that succeeds names the event, and no trial is held after it; if
//! none succeeds, nothing happens.

use rand::rngs::StdRng;
use vstd::prelude::*;

use crate::components::{AvailableUpgrades, BoughtUpgrades};
use crate::config::Config;
use crate::random::{random_range_inclusive, random_ratio};

verus! {

#[derive(Debug, PartialEq, Eq)]
pub enum GameEvent {
    BanditRaid { defense_loss: u64, message: String },
    SiegeCatapults { defense_loss: u64, message: String },
    Sabotage { defense_loss: u64, message: String },
    TradeOffer { gold_gain: u64, message: String },
    Nothing,
}

/// What an event check can come to, in the order of the trials.
#[derive(Clone, Copy, Debug, PartialEq, Eq, Structural)]
pub enum EventKind {
    BanditRaid,
    SiegeCatapults,
    Sabotage,
    TradeOffer,
    Nothing,
}

/// The outcomes of the four trials of one event check. A trial that was not
/// held counts as failed.
#[derive(Clone, Copy, Debug, PartialEq, Eq, Structural)]
pub struct Trials {
    pub bandit_raid: bool,
    pub siege_catapults: bool,
    pub sabotage: bool,
    pub trade_offer: bool,
}

impl Trials {
    /// The event named by the first trial that succeeded.
    pub open spec fn first_success(self) -> EventKind {
        if self.bandit_raid {
            EventKind::BanditRaid
        } else if self.siege_catapults {
            EventKind::SiegeCatapults
        } else if self.sabotage {
            EventKind::Sabotage
        } else if self.trade_offer {
            EventKind::TradeOffer
        } else {
            EventKind::Nothing
        }
    }
}

impl GameEvent {
    pub open spec fn kind(self) -> EventKind {
        match self {
            GameEvent::BanditRaid { .. } => EventKind::BanditRaid,
            GameEvent::SiegeCatapults { .. } => EventKind::SiegeCatapults,
            GameEvent::Sabotage { .. } => EventKind::Sabotage,
            GameEvent::TradeOffer { .. } => EventKind::TradeOffer,
            GameEvent::Nothing => EventKind::Nothing,
        }
    }

    /// The defense lost or the gold gained; 0 where nothing happens.
    pub open spec fn amount(self) -> u64 {
        match self {
            GameEvent::BanditRaid { defense_loss, .. } => defense_loss,
            GameEvent::SiegeCatapults { defense_loss, .. } => defense_loss,
            GameEvent::Sabotage { defense_loss, .. } => defense_loss,
            GameEvent::TradeOffer { gold_gain, .. } => gold_gain,
            GameEvent::Nothing => 0,
        }
    }
}

impl Config {
    /// The event of the given kind and amount, with the configured text.
    pub open spec fn event(&self, kind: EventKind, amount: u64) -> GameEvent {
        match kind {
            EventKind::BanditRaid => GameEvent::BanditRaid {
                defense_loss: amount,
                message: self.events.bandit_raid.message,
            },
            EventKind::SiegeCatapults => GameEvent::SiegeCatapults {
                defense_loss: amount,
                message: self.events.siege_catapults.message,
            },
            EventKind::Sabotage => GameEvent::Sabotage {
                defense_loss: amount,
                message: self.events.sabotage.message,
            },
            EventKind::TradeOffer => GameEvent::TradeOffer {
                gold_gain: amount,
                message: self.trade.offer.message,
            },
            EventKind::Nothing => GameEvent::Nothing,
        }
    }

    /// The least amount that an event of the given kind can have.
    pub open spec fn min_amount(&self, kind: EventKind) -> u64 {
        match kind {
            EventKind::BanditRaid => self.events.bandit_raid.min_damage,
            EventKind::SiegeCatapults => self.events.siege_catapults.min_damage,
            EventKind::Sabotage => self.events.sabotage.min_damage,
            EventKind::TradeOffer => self.trade.offer.min_gain,
            EventKind::Nothing => 0,
        }
    }

    /// The greatest amount that an event of the given kind can have.
    pub open spec fn max_amount(&self, kind: EventKind) -> u64 {
        match kind {
            EventKind::BanditRaid => self.events.bandit_raid.max_damage,
            EventKind::SiegeCatapults => self.events.siege_catapults.max_damage,
            EventKind::Sabotage => self.events.sabotage.max_damage,
            EventKind::TradeOffer => self.trade.offer.max_gain,
            EventKind::Nothing => 0,
        }
    }

    /// What is known of the trials of one event check, whatever the random
    /// source gave: a trial is held only while none before it succeeded, a
    /// trial of probability 0 fails, and a trial of probability 1 that is
    /// held succeeds.
    pub open spec fn may_roll(&self, trials: Trials) -> bool {
        let bandit_raid = self.events.bandit_raid.probability;
        let siege_catapults = self.events.siege_catapults.probability;
        let sabotage = self.events.sabotage.probability;
        let trade_offer = self.trade.offer.probability;
        let held_siege = !trials.bandit_raid;
        let held_sabotage = held_siege && !trials.siege_catapults;
        let held_trade = held_sabotage && !trials.sabotage;
        &&& trials.bandit_raid ==> !bandit_raid.is_never()
        &&& bandit_raid.is_always() ==> trials.bandit_raid
        &&& trials.siege_catapults ==> held_siege && !siege_catapults.is_never()
        &&& held_siege && siege_catapults.is_always() ==> trials.siege_catapults
        &&& trials.sabotage ==> held_sabotage && !sabotage.is_never()
        &&& held_sabotage && sabotage.is_always() ==> trials.sabotage
        &&& trials.trade_offer ==> held_trade && !trade_offer.is_never()
        &&& held_trade && trade_offer.is_always() ==> trials.trade_offer
    }

    /// The events that an event check can come to: there are trials that the
    /// configuration allows and an amount in the range of the kind that they
    /// name, and the event is the one of that kind and amount.
    pub open spec fn may_yield(&self, event: GameEvent) -> bool {
        exists|trials: Trials|
            {
                &&& #[trigger] self.may_roll(trials)
                &&& event.kind() == trials.first_success()
                &&& self.min_amount(event.kind()) <= event.amount() <= self.max_amount(
                    event.kind(),
                )
                &&& event == self.event(event.kind(), event.amount())
            }
    }

    /// An event check can come to a trade offer: the trial of the offer can
    /// succeed, and no trial before it is bound to.
    pub open spec fn spec_may_trade(&self) -> bool {
        &&& !self.trade.offer.probability.is_never()
        &&& !self.events.bandit_raid.probability.is_always()
        &&& !self.events.siege_catapults.probability.is_always()
        &&& !self.events.sabotage.probability.is_always()
    }

    /// Decides whether an event check can come to a trade offer.
    #[verifier::when_used_as_spec(spec_may_trade)]
    pub fn may_trade(&self) -> (possible: bool)
        ensures
            possible == self.spec_may_trade(),
    {
        let bandit_raid = &self.events.bandit_raid.probability;
        let siege_catapults = &self.events.siege_catapults.probability;
        let sabotage = &self.events.sabotage.probability;
        self.trade.offer.probability.numerator != 0 && bandit_raid.numerator
            != bandit_raid.denominator && siege_catapults.numerator != siege_catapults.denominator
            && sabotage.numerator != sabotage.denominator
    }

    /// The defense gained per second with `level` officers.
    pub open spec fn defense_per_second_at(&self, level: u32) -> int {
        self.upgrades.officer.defense_per_second * level
    }

    /// The milliseconds that have to pass between two clicks that earn gold,
    /// with the hand of Midas at `level`. The value is not clamped: where
    /// the reduction exceeds the base cooldown it is negative, and every
    /// click earns.
    pub open spec fn click_cooldown_at(&self, level: u32) -> int {
        self.click.base_cooldown_ms - self.midas_hand.cooldown_reduction_at(level)
    }

    /// The milliseconds from `now` to the next event check, negative when
    /// the check is overdue.
    pub open spec fn next_event_in(&self, last_event_check: u64, now: u64) -> int {
        last_event_check + self.events.cooldown_ms - now
    }
}

/// Names the event of an event check from the outcomes of its trials: the
/// first success in the order bandit raid, siege catapults, sabotage, trade
/// offer, and nothing without a success.
pub fn select_event(trials: Trials) -> (kind: EventKind)
    ensures
        kind == trials.first_success(),
{
    if trials.bandit_raid {
        EventKind::BanditRaid
    } else if trials.siege_catapults {
        EventKind::SiegeCatapults
    } else if trials.sabotage {
        EventKind::Sabotage
    } else if trials.trade_offer {
        EventKind::TradeOffer
    } else {
        EventKind::Nothing
    }
}

/// An earlier trial that succeeds decides the event whatever the later ones
/// did, and a later trial decides it only if every earlier one failed.
pub proof fn lemma_selection_respects_priority(trials: Trials)
    ensures
        trials.bandit_raid ==> trials.first_success() == EventKind::BanditRaid,
        trials.first_success() == EventKind::SiegeCatapults <==> !trials.bandit_raid
            && trials.siege_catapults,
        trials.first_success() == EventKind::Sabotage <==> !trials.bandit_raid
            && !trials.siege_catapults && trials.sabotage,
        trials.first_success() == EventKind::TradeOffer <==> !trials.bandit_raid
            && !trials.siege_catapults && !trials.sabotage && trials.trade_offer,
        trials.first_success() == EventKind::Nothing <==> !trials.bandit_raid
            && !trials.siege_catapults && !trials.sabotage && !trials.trade_offer,
{
}

/// Builds the event of the given kind and amount, with the configured text.
pub fn make_event(kind: EventKind, amount: u64, config: &Config) -> (event: GameEvent)
    ensures
        event == config.event(kind, amount),
{
    match kind {
        EventKind::BanditRaid => GameEvent::BanditRaid {
            defense_loss: amount,
            message: config.events.bandit_raid.message.clone(),
        },
        EventKind::SiegeCatapults => GameEvent::SiegeCatapults {
            defense_loss: amount,
            message: config.events.siege_catapults.message.clone(),
        },
        EventKind::Sabotage => GameEvent::Sabotage {
            defense_loss: amount,
            message: config.events.sabotage.message.clone(),
        },
        EventKind::TradeOffer => GameEvent::TradeOffer {
            gold_gain: amount,
            message: config.trade.offer.message.clone(),
        },
        EventKind::Nothing => GameEvent::Nothing,
    }
}

/// Holds the trials of one event check, in their order, up to the first
/// success.
pub fn roll_trials(config: &Config, rng: &mut StdRng) -> (trials: Trials)
    requires
        config.wf(),
    ensures
        config.may_roll(trials),
{
    let mut trials = Trials {
        bandit_raid: false,
        siege_catapults: false,
        sabotage: false,
        trade_offer: false,
    };
    let bandit_raid = &config.events.bandit_raid.probability;
    let siege_catapults = &config.events.siege_catapults.probability;
    let sabotage = &config.events.sabotage.probability;
    let trade_offer = &config.trade.offer.probability;
    if random_ratio(rng, bandit_raid.numerator, bandit_raid.denominator) {
        trials.bandit_raid = true;
    } else if random_ratio(rng, siege_catapults.numerator, siege_catapults.denominator) {
        trials.siege_catapults = true;
    } else if random_ratio(rng, sabotage.numerator, sabotage.denominator) {
        trials.sabotage = true;
    } else if random_ratio(rng, trade_offer.numerator, trade_offer.denominator) {
        trials.trade_offer = true;
    }
    trials
}

/// Draws the amount of an event of the given kind from its configured
/// range; 0 where nothing happens.
pub fn roll_amount(config: &Config, kind: EventKind, rng: &mut StdRng) -> (amount: u64)
    requires
        config.wf(),
    ensures
        config.min_amount(kind) <= amount <= config.max_amount(kind),
{
    match kind {
        EventKind::BanditRaid => random_range_inclusive(
            rng,
            config.events.bandit_raid.min_damage,
            config.events.bandit_raid.max_damage,
        ),
        EventKind::SiegeCatapults => random_range_inclusive(
            rng,
            config.events.siege_catapults.min_damage,
            config.events.siege_catapults.max_damage,
        ),
        EventKind::Sabotage => random_range_inclusive(
            rng,
            config.events.sabotage.min_damage,
            config.events.sabotage.max_damage,
        ),
        EventKind::TradeOffer => random_range_inclusive(
            rng,
            config.trade.offer.min_gain,
            config.trade.offer.max_gain,
        ),
        EventKind::Nothing => 0,
    }
}

/// Resolves one event check: holds the trials, and draws the amount of the
/// event that they name.
pub fn generate_random_event(config: &Config, rng: &mut StdRng) -> (event: GameEvent)
    requires
        config.wf(),
    ensures
        config.may_yield(event),
{
    let trials = roll_trials(config, rng);
    let kind = select_event(trials);
    let amount: u64 = roll_amount(config, kind, rng);
    make_event(kind, amount, config)
}

/// The defense gained per second: the officer's yield times the number of
/// officers.
pub fn calculate_defense_per_second(bought_upgrades: &BoughtUpgrades, config: &Config) -> (rate:
    u64)
    requires
        config.defense_per_second_at(bought_upgrades@[AvailableUpgrades::Officer]) <= u64::MAX,
    ensures
        rate == config.defense_per_second_at(bought_upgrades@[AvailableUpgrades::Officer]),
{
    let level: u32 = bought_upgrades.get_count(&AvailableUpgrades::Officer);
    if level == 0 {
        return 0;
    }
    config.upgrades.officer.defense_per_second * (level as u64)
}

/// The gold gained per second: what the trade hall yields at its level.
pub fn calculate_gold_per_second(bought_upgrades: &BoughtUpgrades, config: &Config) -> (rate: u64)
    requires
        config.wf(),
    ensures
        rate == config.trade_hall.gold_per_second_at(bought_upgrades@[AvailableUpgrades::TradeHall]),
{
    let level: u32 = bought_upgrades.get_count(&AvailableUpgrades::TradeHall);
    config.trade_hall.level_gold_per_second(level)
}

/// The click cooldown in milliseconds, with the hand of Midas at
/// `midas_level`.
pub fn calculate_click_cooldown(midas_level: u32, config: &Config) -> (cooldown: i128)
    ensures
        cooldown == config.click_cooldown_at(midas_level),
{
    let base_cooldown: i128 = config.click.base_cooldown_ms as i128;
    let reduction: i128 = if midas_level > 0 {
        let level_index: usize = (midas_level - 1) as usize;
        if level_index < config.midas_hand.levels.len() {
            assert(midas_level as int * config.midas_hand.cooldown_reduction_ms as int
                <= 0xffff_ffff * 0xffff_ffff_ffff_ffff) by (nonlinear_arith)
                requires
                    0 <= midas_level as int <= 0xffff_ffff,
                    0 <= config.midas_hand.cooldown_reduction_ms as int <= 0xffff_ffff_ffff_ffff,
            ;
            (midas_level as i128) * (config.midas_hand.cooldown_reduction_ms as i128)
        } else {
            0
        }
    } else {
        0
    };
    base_cooldown - reduction
}

pub fn can_afford_upgrade(gold: u64, cost: u64) -> (affordable: bool)
    ensures
        affordable == (gold >= cost),
{
    gold >= cost
}

/// The milliseconds from `now` to the next event check, negative when the
/// check is overdue.
pub fn calculate_next_event_cooldown(last_event_check: u64, config: &Config, now: u64) -> (remaining:
    i128)
    ensures
        remaining == config.next_event_in(last_event_check, now),
{
    (last_event_check as i128) + (config.events.cooldown_ms as i128) - (now as i128)
}

} // verus!
