//! The three systems that change a session while it is played: the
//! per-second accrual, the event check, and the purchase of the selected
//! upgrade.
//!
//! Each system is described by a function from the session before to the
//! session after, and does exactly that. Resources are `u64`: a system asks
//! in its `requires` that what it adds fits, and a check of the same name
//! without `spec_` decides that at run time.

use rand::rngs::StdRng;
use vstd::prelude::*;

use crate::components::{
    AvailableUpgrades, Defense, DefensePerSecond, EventMessage, EventText, GameRunning, GameState,
    Gold, GoldPerSecond, LastEventCheck, LastTick,
};
use crate::config::Config;
use crate::game::{
    calculate_defense_per_second, calculate_gold_per_second, can_afford_upgrade,
    generate_random_event, EventKind, GameEvent,
};
use crate::session::{elapsed, elapsed_since, GameSession};

verus! {

impl GameSession {
    /// A second or more has passed since the last accrual.
    pub open spec fn tick_due(&self, now: u64) -> bool {
        elapsed(now, self.last_tick.0) >= 1000
    }

    /// The defense that the officers bought so far yield per second.
    pub open spec fn defense_rate(&self, config: &Config) -> int {
        config.defense_per_second_at(self.bought_upgrades@[AvailableUpgrades::Officer])
    }

    /// The gold that the trade hall yields per second at its level.
    pub open spec fn gold_rate(&self, config: &Config) -> int {
        config.trade_hall.gold_per_second_at(self.bought_upgrades@[AvailableUpgrades::TradeHall])
    }

    /// Where an accrual is due at `now`, defense and gold stay within `u64`.
    pub open spec fn spec_tick_fits(&self, config: &Config, now: u64) -> bool {
        self.tick_due(now) ==> {
            &&& self.defense.0 + self.defense_rate(config) <= u64::MAX
            &&& self.gold.0 + self.gold_rate(config) <= u64::MAX
        }
    }

    /// The session after the accrual at `now`. Where a second or more has
    /// passed since the last one, the rates are set from the levels, defense
    /// and gold grow by one second's worth, whatever time has passed, and
    /// the accrual is dated `now`. Else nothing changes.
    pub open spec fn after_tick(self, config: &Config, now: u64) -> GameSession {
        if self.tick_due(now) {
            GameSession {
                defense: Defense((self.defense.0 + self.defense_rate(config)) as u64),
                defense_ps: DefensePerSecond(self.defense_rate(config) as u64),
                gold_ps: GoldPerSecond(self.gold_rate(config) as u64),
                gold: Gold((self.gold.0 + self.gold_rate(config)) as u64),
                last_tick: LastTick(now),
                ..self
            }
        } else {
            self
        }
    }

    /// Decides whether the accrual at `now` stays within `u64`.
    #[verifier::when_used_as_spec(spec_tick_fits)]
    pub fn tick_fits(&self, config: &Config, now: u64) -> (fits: bool)
        requires
            config.wf(),
        ensures
            fits == self.spec_tick_fits(config, now),
    {
        if elapsed_since(now, self.last_tick.0) < 1000 {
            return true;
        }
        let officers: u32 = self.bought_upgrades.get_count(&AvailableUpgrades::Officer);
        let per_officer: u64 = config.upgrades.officer.defense_per_second;
        assert(per_officer as int * officers as int <= 0xffff_ffff_ffff_ffff * 0xffff_ffff)
            by (nonlinear_arith)
            requires
                0 <= per_officer as int <= 0xffff_ffff_ffff_ffff,
                0 <= officers as int <= 0xffff_ffff,
        ;
        let defense_rate: u128 = (per_officer as u128) * (officers as u128);
        let gold_rate: u64 = calculate_gold_per_second(&self.bought_upgrades, config);
        (self.defense.0 as u128) + defense_rate <= u64::MAX as u128 && (self.gold.0 as u128) + (
        gold_rate as u128) <= u64::MAX as u128
    }

    /// The time at which the next event check is due.
    pub open spec fn next_event_at(&self, config: &Config) -> int {
        self.last_event_check.0 + config.events.cooldown_ms
    }

    /// The message is taken down a second before the next event check.
    pub open spec fn message_expired(&self, config: &Config, now: u64) -> bool {
        now >= self.next_event_at(config) - 1000
    }

    /// The event cooldown has passed.
    pub open spec fn event_due(&self, config: &Config, now: u64) -> bool {
        now >= self.next_event_at(config)
    }

    /// The session with the message taken down, if its time is over.
    pub open spec fn after_expiry(self, config: &Config, now: u64) -> GameSession {
        if self.message_expired(config, now) {
            GameSession {
                event_message: EventMessage {
                    message: EventText::Empty,
                    timestamp: self.event_message.timestamp,
                },
                ..self
            }
        } else {
            self
        }
    }

    /// The gold of a trade offer fits on top of the gold held.
    pub open spec fn event_fits(&self, event: GameEvent) -> bool {
        event matches GameEvent::TradeOffer { gold_gain, .. } ==> self.gold.0 + gold_gain
            <= u64::MAX
    }

    /// Where an event check is due at `now` and can come to a trade offer,
    /// the greatest gain that the offer can bring fits on top of the gold
    /// held.
    pub open spec fn spec_events_fit(&self, config: &Config, now: u64) -> bool {
        self.event_due(config, now) && config.may_trade() ==> self.gold.0
            + config.trade.offer.max_gain <= u64::MAX
    }

    /// The session after an attack that destroys `loss` of defense. Where
    /// the defense covers the loss it is reduced by it. Where it does not,
    /// the castle falls: the defense is 0 and the game is over.
    pub open spec fn after_defense_loss(self, loss: u64, message: String, now: u64) -> GameSession {
        if self.defense.0 >= loss {
            GameSession {
                defense: Defense((self.defense.0 - loss) as u64),
                event_message: EventMessage {
                    message: EventText::DefenseLoss { message, amount: loss },
                    timestamp: now,
                },
                last_event_check: LastEventCheck(now),
                ..self
            }
        } else {
            GameSession {
                defense: Defense(0),
                event_message: EventMessage {
                    message: EventText::CastleFall { message },
                    timestamp: now,
                },
                game_running: GameRunning(false),
                game_state: GameState::GameOver,
                last_event_check: LastEventCheck(now),
                ..self
            }
        }
    }

    /// The session after `event` was resolved at `now`: its effect on
    /// defense or gold, its message in place of any other, and the event
    /// cooldown started anew.
    pub open spec fn after_event(self, event: GameEvent, now: u64) -> GameSession {
        match event {
            GameEvent::BanditRaid { defense_loss, message } => self.after_defense_loss(
                defense_loss,
                message,
                now,
            ),
            GameEvent::SiegeCatapults { defense_loss, message } => self.after_defense_loss(
                defense_loss,
                message,
                now,
            ),
            GameEvent::Sabotage { defense_loss, message } => self.after_defense_loss(
                defense_loss,
                message,
                now,
            ),
            GameEvent::TradeOffer { gold_gain, message } => GameSession {
                gold: Gold((self.gold.0 + gold_gain) as u64),
                event_message: EventMessage {
                    message: EventText::TradeGain { message, amount: gold_gain },
                    timestamp: now,
                },
                last_event_check: LastEventCheck(now),
                ..self
            },
            GameEvent::Nothing => GameSession {
                event_message: EventMessage { message: EventText::Nothing, timestamp: now },
                last_event_check: LastEventCheck(now),
                ..self
            },
        }
    }

    /// Decides whether the event check at `now` stays within `u64`.
    #[verifier::when_used_as_spec(spec_events_fit)]
    pub fn events_fit(&self, config: &Config, now: u64) -> (fits: bool)
        ensures
            fits == self.spec_events_fit(config, now),
    {
        let next_event_at: u128 = (self.last_event_check.0 as u128) + (config.events.cooldown_ms
            as u128);
        (now as u128) < next_event_at || !config.may_trade() || config.trade.offer.max_gain
            <= u64::MAX - self.gold.0
    }

    /// What the next purchase of the selected upgrade costs.
    pub open spec fn purchase_cost(&self, config: &Config) -> int {
        self.selected_upgrade.0.cost_at(config, self.bought_upgrades@[self.selected_upgrade.0])
    }

    /// The gold held pays for the selected upgrade.
    pub open spec fn purchase_affordable(&self, config: &Config) -> bool {
        self.gold.0 >= self.purchase_cost(config)
    }

    /// Where the selected upgrade can be paid for, its level can still be
    /// counted and its bonus fits on top of the defense.
    pub open spec fn spec_purchase_fits(&self, config: &Config) -> bool {
        self.purchase_affordable(config) ==> {
            &&& self.bought_upgrades@[self.selected_upgrade.0] < u32::MAX
            &&& self.defense.0 + self.selected_upgrade.0.defense_bonus(config) <= u64::MAX
        }
    }

    /// The session after the attempt to buy the selected upgrade. Where the
    /// gold pays for it, the price is taken, the level of the upgrade grows
    /// by one and its bonus is added to the defense. Else nothing changes.
    pub open spec fn after_purchase(self, config: &Config) -> GameSession {
        if self.purchase_affordable(config) {
            GameSession {
                gold: Gold((self.gold.0 - self.purchase_cost(config)) as u64),
                bought_upgrades: self.bought_upgrades.incremented(self.selected_upgrade.0),
                defense: Defense(
                    (self.defense.0 + self.selected_upgrade.0.defense_bonus(config)) as u64,
                ),
                ..self
            }
        } else {
            self
        }
    }

    /// Decides whether the purchase of the selected upgrade stays within
    /// the counters.
    #[verifier::when_used_as_spec(spec_purchase_fits)]
    pub fn purchase_fits(&self, config: &Config) -> (fits: bool)
        requires
            config.wf(),
        ensures
            fits == self.spec_purchase_fits(config),
    {
        let selected = self.selected_upgrade.0;
        let cost: u64 = selected.cost(config, &self.bought_upgrades);
        if !can_afford_upgrade(self.gold.0, cost) {
            return true;
        }
        let bonus: u64 = selected.effect_on_defense(config);
        self.bought_upgrades.get_count(&selected) < u32::MAX && bonus <= u64::MAX - self.defense.0
    }
}

/// The per-second accrual: once a second or more has passed since the last
/// one, sets the rates from the levels and adds one second's worth of
/// defense and gold.
pub fn update_per_second_system(session: &mut GameSession, config: &Config, now: u64)
    requires
        config.wf(),
        old(session).tick_fits(config, now),
    ensures
        *final(session) == old(session).after_tick(config, now),
{
    if elapsed_since(now, session.last_tick.0) >= 1000 {
        let defense_rate: u64 = calculate_defense_per_second(&session.bought_upgrades, config);
        let gold_rate: u64 = calculate_gold_per_second(&session.bought_upgrades, config);
        session.defense.0 = session.defense.0 + defense_rate;
        session.defense_ps.0 = defense_rate;
        session.gold_ps.0 = gold_rate;
        session.gold.0 = session.gold.0 + gold_rate;
        session.last_tick.0 = now;
    }
}

/// Applies a resolved event to the session.
pub fn apply_event(session: &mut GameSession, event: GameEvent, now: u64)
    requires
        old(session).event_fits(event),
    ensures
        *final(session) == old(session).after_event(event, now),
{
    match event {
        GameEvent::BanditRaid { defense_loss, message }
        | GameEvent::SiegeCatapults { defense_loss, message }
        | GameEvent::Sabotage { defense_loss, message } => {
            if session.defense.0 >= defense_loss {
                session.defense.0 = session.defense.0 - defense_loss;
                session.event_message.message = EventText::DefenseLoss {
                    message,
                    amount: defense_loss,
                };
            } else {
                session.defense.0 = 0;
                session.event_message.message = EventText::CastleFall { message };
                session.game_running.0 = false;
                session.game_state = GameState::GameOver;
            }
        },
        GameEvent::TradeOffer { gold_gain, message } => {
            session.gold.0 = session.gold.0 + gold_gain;
            session.event_message.message = EventText::TradeGain { message, amount: gold_gain };
        },
        GameEvent::Nothing => {
            session.event_message.message = EventText::Nothing;
        },
    }
    session.event_message.timestamp = now;
    session.last_event_check.0 = now;
}

/// The event check: takes the message down a second before the next event
/// is due, and once the event cooldown has passed resolves an event and
/// applies it.
pub fn handle_events_system(
    session: &mut GameSession,
    config: &Config,
    now: u64,
    rng: &mut StdRng,
)
    requires
        config.wf(),
        old(session).events_fit(config, now),
    ensures
        !old(session).event_due(config, now) ==> *final(session) == old(session).after_expiry(
            config,
            now,
        ),
        old(session).event_due(config, now) ==> exists|event: GameEvent|
            config.may_yield(event) && *final(session) == #[trigger] old(session).after_event(
                event,
                now,
            ),
{
    let next_event_at: u128 = (session.last_event_check.0 as u128) + (config.events.cooldown_ms
        as u128);
    if (now as u128) + 1000 >= next_event_at {
        session.event_message.message = EventText::Empty;
    }
    if (now as u128) >= next_event_at {
        let event = generate_random_event(config, rng);
        let ghost resolved = event;
        apply_event(session, event, now);
        assert(*session == old(session).after_event(resolved, now));
    }
}

/// The purchase of the selected upgrade, if the gold pays for it.
pub fn handle_upgrade_system(session: &mut GameSession, config: &Config)
    requires
        config.wf(),
        old(session).purchase_fits(config),
    ensures
        *final(session) == old(session).after_purchase(config),
{
    let selected = session.selected_upgrade.0;
    let cost: u64 = selected.cost(config, &session.bought_upgrades);
    if !can_afford_upgrade(session.gold.0, cost) {
        return;
    }
    session.gold.0 = session.gold.0 - cost;
    session.bought_upgrades.increment(&selected);
    let upgrades = session.upgrades;
    upgrades.apply_defense(&selected, &mut session.defense, config);
}

impl GameSession {
    /// While the game is played, the accrual at `now` fits, and so does
    /// the event check that follows it.
    pub open spec fn spec_schedule_fits(&self, config: &Config, now: u64) -> bool {
        self.game_state == GameState::Playing ==> {
            &&& self.spec_tick_fits(config, now)
            &&& self.after_tick(config, now).spec_events_fit(config, now)
        }
    }

    /// Decides whether the accrual and the event check at `now` stay
    /// within `u64`.
    #[verifier::when_used_as_spec(spec_schedule_fits)]
    pub fn schedule_fits(&self, config: &Config, now: u64) -> (fits: bool)
        requires
            config.wf(),
        ensures
            fits == self.spec_schedule_fits(config, now),
    {
        if self.game_state != GameState::Playing {
            return true;
        }
        if !self.tick_fits(config, now) {
            return false;
        }
        let gold: u64 = if elapsed_since(now, self.last_tick.0) >= 1000 {
            self.gold.0 + calculate_gold_per_second(&self.bought_upgrades, config)
        } else {
            self.gold.0
        };
        let next_event_at: u128 = (self.last_event_check.0 as u128) + (config.events.cooldown_ms
            as u128);
        (now as u128) < next_event_at || !config.may_trade() || config.trade.offer.max_gain
            <= u64::MAX - gold
    }

    /// The session after one accrual at each of `times`, in their order.
    pub open spec fn after_ticks(self, config: &Config, times: Seq<u64>) -> GameSession
        decreases times.len(),
    {
        if times.len() == 0 {
            self
        } else {
            self.after_tick(config, times[0]).after_ticks(config, times.drop_first())
        }
    }

    /// Each accrual of the run at `times` fits.
    pub open spec fn ticks_fit(self, config: &Config, times: Seq<u64>) -> bool
        decreases times.len(),
    {
        times.len() == 0 || {
            &&& self.spec_tick_fits(config, times[0])
            &&& self.after_tick(config, times[0]).ticks_fit(config, times.drop_first())
        }
    }
}

/// What runs on every turn of the loop while the game is played: the
/// accrual, then the event check. In any other state nothing changes.
pub fn run_schedule(session: &mut GameSession, config: &Config, now: u64, rng: &mut StdRng)
    requires
        config.wf(),
        old(session).schedule_fits(config, now),
    ensures
        old(session).game_state != GameState::Playing ==> *final(session) == *old(session),
        old(session).game_state == GameState::Playing && !old(session).event_due(config, now)
            ==> *final(session) == old(session).after_tick(config, now).after_expiry(config, now),
        old(session).game_state == GameState::Playing && old(session).event_due(config, now)
            ==> exists|event: GameEvent|
            config.may_yield(event) && *final(session) == #[trigger] old(session).after_tick(
                config,
                now,
            ).after_event(event, now),
{
    if session.game_state != GameState::Playing {
        return;
    }
    update_per_second_system(session, config, now);
    handle_events_system(session, config, now, rng);
}

/// No accrual takes gold or defense away, and none changes a level, the
/// selection or the lifecycle state.
pub proof fn lemma_tick_never_decreases(session: GameSession, config: &Config, now: u64)
    requires
        config.wf(),
        session.spec_tick_fits(config, now),
    ensures
        session.after_tick(config, now).gold.0 >= session.gold.0,
        session.after_tick(config, now).defense.0 >= session.defense.0,
        session.after_tick(config, now).bought_upgrades == session.bought_upgrades,
        session.after_tick(config, now).selected_upgrade == session.selected_upgrade,
        session.after_tick(config, now).game_state == session.game_state,
{
    let officers = session.bought_upgrades@[AvailableUpgrades::Officer];
    let per_officer = config.upgrades.officer.defense_per_second;
    assert(per_officer * officers >= 0) by (nonlinear_arith)
        requires
            per_officer >= 0,
            officers >= 0,
    ;
    let level = session.bought_upgrades@[AvailableUpgrades::TradeHall];
    if 0 < level <= config.trade_hall.levels@.len() {
        let row = config.trade_hall.levels@[level - 1];
        assert(row.wf(config.trade_hall.base_cost, config.trade_hall.base_gold_per_second));
        row.gold_multiplier.lemma_scaled_is_not_negative(config.trade_hall.base_gold_per_second);
    }
}

/// Over any run of accruals, with no event and no purchase between them,
/// gold and defense never decrease.
pub proof fn lemma_ticks_never_decrease(session: GameSession, config: &Config, times: Seq<u64>)
    requires
        config.wf(),
        session.ticks_fit(config, times),
    ensures
        session.after_ticks(config, times).gold.0 >= session.gold.0,
        session.after_ticks(config, times).defense.0 >= session.defense.0,
    decreases times.len(),
{
    if times.len() > 0 {
        lemma_tick_never_decreases(session, config, times[0]);
        lemma_ticks_never_decrease(
            session.after_tick(config, times[0]),
            config,
            times.drop_first(),
        );
    }
}

/// A purchase that the gold does not pay for changes neither the gold nor
/// any level. One that it pays for takes exactly the price and raises the
/// level of the selected upgrade by exactly one, and no other level.
pub proof fn lemma_purchase(session: GameSession, config: &Config)
    requires
        config.wf(),
        session.purchase_affordable(config) ==> session.bought_upgrades@[session.selected_upgrade.0]
            < u32::MAX,
    ensures
        session.gold.0 < session.purchase_cost(config) ==> {
            &&& session.after_purchase(config).gold == session.gold
            &&& session.after_purchase(config).bought_upgrades == session.bought_upgrades
        },
        session.gold.0 >= session.purchase_cost(config) ==> {
            &&& session.after_purchase(config).gold.0 == session.gold.0 - session.purchase_cost(
                config,
            )
            &&& session.after_purchase(config).bought_upgrades@[session.selected_upgrade.0]
                == session.bought_upgrades@[session.selected_upgrade.0] + 1
            &&& forall|other: AvailableUpgrades|
                other != session.selected_upgrade.0 ==> session.after_purchase(
                    config,
                ).bought_upgrades@[other] == session.bought_upgrades@[other]
        },
{
    let selected = session.selected_upgrade.0;
    let level = session.bought_upgrades@[selected];
    session.bought_upgrades.lemma_with_level(selected, (level + 1) as u32);
    lemma_cost_is_a_price(selected, config, level);
}

/// Every price is a `u64`.
pub proof fn lemma_cost_is_a_price(upgrade: AvailableUpgrades, config: &Config, level: u32)
    requires
        config.wf(),
    ensures
        0 <= upgrade.cost_at(config, level) <= u64::MAX,
{
    if upgrade == AvailableUpgrades::TradeHall && level < config.trade_hall.levels@.len() {
        let row = config.trade_hall.levels@[level as int];
        assert(row.wf(config.trade_hall.base_cost, config.trade_hall.base_gold_per_second));
        row.cost_multiplier.lemma_scaled_is_not_negative(config.trade_hall.base_cost);
    }
    if upgrade == AvailableUpgrades::MidasHand && level < config.midas_hand.levels@.len() {
        let row = config.midas_hand.levels@[level as int];
        assert(row.wf(config.midas_hand.base_cost));
        row.cost_multiplier.lemma_scaled_is_not_negative(config.midas_hand.base_cost);
    }
}

/// An attack that destroys more than the defense held leaves no defense
/// and ends the game. One that the defense covers takes exactly its loss
/// and leaves the lifecycle state as it was.
pub proof fn lemma_defense_loss(session: GameSession, event: GameEvent, now: u64)
    requires
        event.kind() != EventKind::TradeOffer,
        event.kind() != EventKind::Nothing,
    ensures
        event.amount() > session.defense.0 ==> {
            &&& session.after_event(event, now).defense.0 == 0
            &&& session.after_event(event, now).game_state == GameState::GameOver
        },
        event.amount() <= session.defense.0 ==> {
            &&& session.after_event(event, now).defense.0 == session.defense.0 - event.amount()
            &&& session.after_event(event, now).game_state == session.game_state
        },
{
}

/// The running flag is up exactly while the game is played: no accrual,
/// no taking down of the message and no event changes that.
pub proof fn lemma_systems_keep_the_running_flag(
    session: GameSession,
    config: &Config,
    event: GameEvent,
    now: u64,
)
    requires
        session.consistent(),
    ensures
        session.after_tick(config, now).consistent(),
        session.after_expiry(config, now).consistent(),
        session.after_event(event, now).consistent(),
        session.after_purchase(config).consistent(),
{
}

} // verus!
