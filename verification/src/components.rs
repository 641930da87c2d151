//! The pieces of a session's state: resources, upgrade levels, timers, the
//! message line and the lifecycle state.
//!
//! A timer is a reading of the caller's monotonic clock, in milliseconds.

use vstd::prelude::*;

use crate::config::Config;

verus! {

#[derive(Clone, Copy, Debug, PartialEq, Eq, Structural)]
pub struct Gold(pub u64);

#[derive(Clone, Copy, Debug, PartialEq, Eq, Structural)]
pub struct GoldPerSecond(pub u64);

#[derive(Clone, Copy, Debug, PartialEq, Eq, Structural)]
pub struct Defense(pub u64);

#[derive(Clone, Copy, Debug, PartialEq, Eq, Structural)]
pub struct DefensePerSecond(pub u64);

/// The defense a castle starts with; shown beside the current one.
#[derive(Clone, Copy, Debug, PartialEq, Eq, Structural)]
pub struct MaxDefense(pub u64);

/// The upgrades on offer. The first five have a constant price and can be
/// bought any number of times; the trade hall and the hand of Midas are
/// priced by level.
#[derive(Clone, Copy, Debug, PartialEq, Eq, Hash, Structural)]
pub enum AvailableUpgrades {
    Catapult,
    Archer,
    Warrior,
    Officer,
    OilReserve,
    TradeHall,
    MidasHand,
}

impl AvailableUpgrades {
    /// The price of the next purchase of this upgrade at `level`: the
    /// configured constant for the five flat upgrades, the level table's
    /// price for the other two.
    pub open spec fn cost_at(self, config: &Config, level: u32) -> int {
        match self {
            AvailableUpgrades::Catapult => config.upgrades.catapult.cost as int,
            AvailableUpgrades::Archer => config.upgrades.archer.cost as int,
            AvailableUpgrades::Warrior => config.upgrades.warrior.cost as int,
            AvailableUpgrades::Officer => config.upgrades.officer.cost as int,
            AvailableUpgrades::OilReserve => config.upgrades.oil.cost as int,
            AvailableUpgrades::TradeHall => config.trade_hall.cost_at(level),
            AvailableUpgrades::MidasHand => config.midas_hand.cost_at(level),
        }
    }

    /// The defense that one purchase of this upgrade adds at once: the
    /// configured bonus of a flat upgrade, nothing for a leveled one.
    pub open spec fn defense_bonus(self, config: &Config) -> u64 {
        match self {
            AvailableUpgrades::Catapult => config.upgrades.catapult.defense,
            AvailableUpgrades::Archer => config.upgrades.archer.defense,
            AvailableUpgrades::Warrior => config.upgrades.warrior.defense,
            AvailableUpgrades::Officer => config.upgrades.officer.defense,
            AvailableUpgrades::OilReserve => config.upgrades.oil.defense,
            AvailableUpgrades::TradeHall => 0,
            AvailableUpgrades::MidasHand => 0,
        }
    }

    /// The defense that one purchase of this upgrade adds at once.
    pub fn effect_on_defense(&self, config: &Config) -> (bonus: u64)
        ensures
            bonus == self.defense_bonus(config),
    {
        match self {
            AvailableUpgrades::Catapult => config.upgrades.catapult.defense,
            AvailableUpgrades::Archer => config.upgrades.archer.defense,
            AvailableUpgrades::Warrior => config.upgrades.warrior.defense,
            AvailableUpgrades::Officer => config.upgrades.officer.defense,
            AvailableUpgrades::OilReserve => config.upgrades.oil.defense,
            AvailableUpgrades::TradeHall => 0,
            AvailableUpgrades::MidasHand => 0,
        }
    }

    /// What the next purchase of this upgrade costs, given what was bought
    /// so far.
    pub fn cost(&self, config: &Config, bought_upgrades: &BoughtUpgrades) -> (cost: u64)
        requires
            config.wf(),
        ensures
            cost == self.cost_at(config, bought_upgrades@[*self]),
    {
        match self {
            AvailableUpgrades::Catapult => config.upgrades.catapult.cost,
            AvailableUpgrades::Archer => config.upgrades.archer.cost,
            AvailableUpgrades::Warrior => config.upgrades.warrior.cost,
            AvailableUpgrades::Officer => config.upgrades.officer.cost,
            AvailableUpgrades::OilReserve => config.upgrades.oil.cost,
            AvailableUpgrades::TradeHall => {
                let level: u32 = bought_upgrades.get_count(self);
                config.trade_hall.level_cost(level)
            },
            AvailableUpgrades::MidasHand => {
                let level: u32 = bought_upgrades.get_count(self);
                config.midas_hand.level_cost(level)
            },
        }
    }
}

#[derive(Clone, Copy, Debug, PartialEq, Eq, Structural)]
pub struct SelectedUpgrade(pub AvailableUpgrades);

/// How often each upgrade was bought: its level. Every upgrade has a count,
/// which starts at 0 and only grows.
#[derive(Clone, Copy, Debug, PartialEq, Eq, Structural)]
pub struct BoughtUpgrades {
    pub catapult: u32,
    pub archer: u32,
    pub warrior: u32,
    pub officer: u32,
    pub oil_reserve: u32,
    pub trade_hall: u32,
    pub midas_hand: u32,
}

impl View for BoughtUpgrades {
    type V = Map<AvailableUpgrades, u32>;

    /// The level of every upgrade.
    open spec fn view(&self) -> Map<AvailableUpgrades, u32> {
        Map::total(
            |upgrade: AvailableUpgrades|
                match upgrade {
                    AvailableUpgrades::Catapult => self.catapult,
                    AvailableUpgrades::Archer => self.archer,
                    AvailableUpgrades::Warrior => self.warrior,
                    AvailableUpgrades::Officer => self.officer,
                    AvailableUpgrades::OilReserve => self.oil_reserve,
                    AvailableUpgrades::TradeHall => self.trade_hall,
                    AvailableUpgrades::MidasHand => self.midas_hand,
                },
        )
    }
}

impl BoughtUpgrades {
    /// These levels with the one of `upgrade` replaced by `level`.
    pub open spec fn with_level(self, upgrade: AvailableUpgrades, level: u32) -> BoughtUpgrades {
        match upgrade {
            AvailableUpgrades::Catapult => BoughtUpgrades { catapult: level, ..self },
            AvailableUpgrades::Archer => BoughtUpgrades { archer: level, ..self },
            AvailableUpgrades::Warrior => BoughtUpgrades { warrior: level, ..self },
            AvailableUpgrades::Officer => BoughtUpgrades { officer: level, ..self },
            AvailableUpgrades::OilReserve => BoughtUpgrades { oil_reserve: level, ..self },
            AvailableUpgrades::TradeHall => BoughtUpgrades { trade_hall: level, ..self },
            AvailableUpgrades::MidasHand => BoughtUpgrades { midas_hand: level, ..self },
        }
    }

    /// These levels after one more purchase of `upgrade`.
    pub open spec fn incremented(self, upgrade: AvailableUpgrades) -> BoughtUpgrades {
        self.with_level(upgrade, (self@[upgrade] + 1) as u32)
    }

    /// Replacing one level changes the view at that upgrade and nowhere else.
    pub proof fn lemma_with_level(self, upgrade: AvailableUpgrades, level: u32)
        ensures
            self.with_level(upgrade, level)@ == self@.insert(upgrade, level),
    {
        assert(self.with_level(upgrade, level)@ =~= self@.insert(upgrade, level));
    }

    pub fn get_count(&self, upgrade: &AvailableUpgrades) -> (count: u32)
        ensures
            count == self@[*upgrade],
    {
        match upgrade {
            AvailableUpgrades::Catapult => self.catapult,
            AvailableUpgrades::Archer => self.archer,
            AvailableUpgrades::Warrior => self.warrior,
            AvailableUpgrades::Officer => self.officer,
            AvailableUpgrades::OilReserve => self.oil_reserve,
            AvailableUpgrades::TradeHall => self.trade_hall,
            AvailableUpgrades::MidasHand => self.midas_hand,
        }
    }

    pub fn increment(&mut self, upgrade: &AvailableUpgrades)
        requires
            old(self)@[*upgrade] < u32::MAX,
        ensures
            *final(self) == old(self).incremented(*upgrade),
            final(self)@ == old(self)@.insert(*upgrade, (old(self)@[*upgrade] + 1) as u32),
    {
        proof {
            self.lemma_with_level(*upgrade, (self@[*upgrade] + 1) as u32);
        }
        match upgrade {
            AvailableUpgrades::Catapult => {
                self.catapult = self.catapult + 1;
            },
            AvailableUpgrades::Archer => {
                self.archer = self.archer + 1;
            },
            AvailableUpgrades::Warrior => {
                self.warrior = self.warrior + 1;
            },
            AvailableUpgrades::Officer => {
                self.officer = self.officer + 1;
            },
            AvailableUpgrades::OilReserve => {
                self.oil_reserve = self.oil_reserve + 1;
            },
            AvailableUpgrades::TradeHall => {
                self.trade_hall = self.trade_hall + 1;
            },
            AvailableUpgrades::MidasHand => {
                self.midas_hand = self.midas_hand + 1;
            },
        }
    }
}

impl Default for BoughtUpgrades {
    /// Nothing bought yet.
    fn default() -> (bought: BoughtUpgrades)
        ensures
            bought == BoughtUpgrades::none(),
    {
        BoughtUpgrades {
            catapult: 0,
            archer: 0,
            warrior: 0,
            officer: 0,
            oil_reserve: 0,
            trade_hall: 0,
            midas_hand: 0,
        }
    }
}

impl BoughtUpgrades {
    /// Every level at 0.
    pub open spec fn none() -> BoughtUpgrades {
        BoughtUpgrades {
            catapult: 0,
            archer: 0,
            warrior: 0,
            officer: 0,
            oil_reserve: 0,
            trade_hall: 0,
            midas_hand: 0,
        }
    }
}

#[derive(Clone, Copy, Debug, PartialEq, Eq, Structural)]
pub struct LastTick(pub u64);

#[derive(Clone, Copy, Debug, PartialEq, Eq, Structural)]
pub struct LastEventCheck(pub u64);

#[derive(Clone, Copy, Debug, PartialEq, Eq, Structural)]
pub struct LastClick(pub u64);

/// What the message line says. The words of the sentence are the
/// presentation's; this is the sentence's kind, with the event's own text
/// and the amount that go into it.
#[derive(Debug, PartialEq, Eq)]
pub enum EventText {
    /// No message is shown.
    Empty,
    /// An attack destroyed `amount` of defense.
    DefenseLoss { message: String, amount: u64 },
    /// An attack broke through what defense was left.
    CastleFall { message: String },
    /// A trade brought `amount` of gold.
    TradeGain { message: String, amount: u64 },
    /// The event check passed without an event.
    Nothing,
}

#[derive(Debug, PartialEq, Eq)]
pub struct EventMessage {
    pub message: EventText,
    pub timestamp: u64,
}

#[derive(Clone, Copy, Debug, PartialEq, Eq, Structural)]
pub struct GameRunning(pub bool);

#[derive(Clone, Copy, Debug, PartialEq, Eq, Structural)]
pub enum GameState {
    Playing,
    GameOver,
    Exiting,
}

impl Default for GameState {
    fn default() -> (state: GameState)
        ensures
            state == GameState::Playing,
    {
        GameState::Playing
    }
}

/// The upgrades in the order in which they are listed and walked through.
#[derive(Clone, Copy, Debug, PartialEq, Eq)]
pub struct Upgrades(pub [AvailableUpgrades; 7]);

impl Default for Upgrades {
    /// The catalog in its fixed order.
    fn default() -> (upgrades: Upgrades)
        ensures
            upgrades == Upgrades::standard(),
    {
        Upgrades(
            [
                AvailableUpgrades::Catapult,
                AvailableUpgrades::Archer,
                AvailableUpgrades::Warrior,
                AvailableUpgrades::Officer,
                AvailableUpgrades::OilReserve,
                AvailableUpgrades::TradeHall,
                AvailableUpgrades::MidasHand,
            ],
        )
    }
}

impl Upgrades {
    /// The fixed order of the seven upgrades.
    pub open spec fn catalog() -> Seq<AvailableUpgrades> {
        seq![
            AvailableUpgrades::Catapult,
            AvailableUpgrades::Archer,
            AvailableUpgrades::Warrior,
            AvailableUpgrades::Officer,
            AvailableUpgrades::OilReserve,
            AvailableUpgrades::TradeHall,
            AvailableUpgrades::MidasHand,
        ]
    }

    /// The list that holds the catalog.
    pub open spec fn standard() -> Upgrades {
        Upgrades(
            [
                AvailableUpgrades::Catapult,
                AvailableUpgrades::Archer,
                AvailableUpgrades::Warrior,
                AvailableUpgrades::Officer,
                AvailableUpgrades::OilReserve,
                AvailableUpgrades::TradeHall,
                AvailableUpgrades::MidasHand,
            ],
        )
    }

    /// The standard list holds the seven upgrades in the catalog's order.
    pub proof fn lemma_standard_is_catalog()
        ensures
            Upgrades::standard().0@ == Upgrades::catalog(),
    {
        assert(Upgrades::standard().0@ =~= Upgrades::catalog());
    }

    /// The first place at or after `start` where `upgrade` is listed.
    pub open spec fn position_from(&self, upgrade: AvailableUpgrades, start: int) -> Option<int>
        decreases 7 - start,
    {
        if start < 0 || start >= 7 {
            None
        } else if self.0@[start] == upgrade {
            Some(start)
        } else {
            self.position_from(upgrade, start + 1)
        }
    }

    /// The first place where `upgrade` is listed.
    pub open spec fn position_of(&self, upgrade: AvailableUpgrades) -> Option<int> {
        self.position_from(upgrade, 0)
    }

    /// Finds the first place where `upgrade` is listed.
    pub fn position(&self, upgrade: &AvailableUpgrades) -> (found: Option<usize>)
        ensures
            match found {
                Some(i) => self.position_of(*upgrade) == Some(i as int) && i < 7,
                None => self.position_of(*upgrade).is_none(),
            },
    {
        let mut i: usize = 0;
        while i < 7
            invariant
                i <= 7,
                self.position_of(*upgrade) == self.position_from(*upgrade, i as int),
            decreases 7 - i,
        {
            if self.0[i] == *upgrade {
                return Some(i);
            }
            i += 1;
        }
        None
    }

    /// Adds to `defense` the bonus that a purchase of `purchased` brings.
    pub fn apply_defense(
        &self,
        purchased: &AvailableUpgrades,
        defense: &mut Defense,
        config: &Config,
    )
        requires
            old(defense).0 + purchased.defense_bonus(config) <= u64::MAX,
        ensures
            final(defense).0 == old(defense).0 + purchased.defense_bonus(config),
    {
        defense.0 = defense.0 + purchased.effect_on_defense(config);
    }
}

} // verus!
