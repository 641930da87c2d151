use castle_clicker::components::{
    AvailableUpgrades, Defense, EventMessage, EventText, GameRunning, GameState, Gold,
};
use castle_clicker::config::{
    ClickConfig, Config, ConfigUpgrades, EventConfig, Events, MidasHandConfig, Trade, TradeConfig,
    TradeHallConfig, TradeHallLevel, UpgradeConfig,
};
use castle_clicker::game::{
    generate_random_event, make_event, roll_amount, roll_trials, select_event, EventKind,
    GameEvent, Trials,
};
use castle_clicker::ratio::{Multiplier, Probability};
use castle_clicker::session::GameSession;
use castle_clicker::systems::{apply_event, handle_events_system, run_schedule};
use rand::rngs::StdRng;
use rand::SeedableRng;

const NEVER: Probability = Probability { numerator: 0, denominator: 1 };
const ALWAYS: Probability = Probability { numerator: 1, denominator: 1 };
const HALF: Probability = Probability { numerator: 1, denominator: 2 };

fn plain_upgrade(name: &str) -> UpgradeConfig {
    UpgradeConfig { cost: 10, defense: 1, defense_per_second: 1, name: name.to_string() }
}

/// A configuration whose four trials have the given probabilities, in the
/// order of the trials.
fn events_config(probabilities: [Probability; 4]) -> Config {
    Config {
        upgrades: ConfigUpgrades {
            catapult: plain_upgrade("Catapult"),
            archer: plain_upgrade("Archer"),
            warrior: plain_upgrade("Warrior"),
            officer: plain_upgrade("Officer"),
            oil: plain_upgrade("Oil"),
        },
        events: Events {
            bandit_raid: EventConfig {
                min_damage: 10,
                max_damage: 20,
                probability: probabilities[0],
                message: "Bandits raid the village".to_string(),
            },
            siege_catapults: EventConfig {
                min_damage: 30,
                max_damage: 40,
                probability: probabilities[1],
                message: "Catapults open fire".to_string(),
            },
            sabotage: EventConfig {
                min_damage: 5,
                max_damage: 5,
                probability: probabilities[2],
                message: "A saboteur strikes".to_string(),
            },
            cooldown_ms: 10_000,
        },
        trade: Trade {
            offer: TradeConfig {
                min_gain: 50,
                max_gain: 60,
                probability: probabilities[3],
                message: "Merchants arrive".to_string(),
            },
        },
        trade_hall: TradeHallConfig {
            base_cost: 100,
            base_gold_per_second: 10,
            levels: vec![TradeHallLevel {
                cost_multiplier: Multiplier { numerator: 1, denominator: 1 },
                gold_multiplier: Multiplier { numerator: 1, denominator: 1 },
            }],
        },
        midas_hand: MidasHandConfig {
            required_trade_hall_level: 1,
            base_cost: 500,
            cooldown_reduction_ms: 100,
            levels: vec![],
        },
        click: ClickConfig { base_cooldown_ms: 500 },
    }
}

fn trials(outcomes: [bool; 4]) -> Trials {
    Trials {
        bandit_raid: outcomes[0],
        siege_catapults: outcomes[1],
        sabotage: outcomes[2],
        trade_offer: outcomes[3],
    }
}

fn kind_of(event: &GameEvent) -> EventKind {
    match event {
        GameEvent::BanditRaid { .. } => EventKind::BanditRaid,
        GameEvent::SiegeCatapults { .. } => EventKind::SiegeCatapults,
        GameEvent::Sabotage { .. } => EventKind::Sabotage,
        GameEvent::TradeOffer { .. } => EventKind::TradeOffer,
        GameEvent::Nothing => EventKind::Nothing,
    }
}

#[test]
fn the_first_success_names_the_event() {
    assert_eq!(select_event(trials([true, false, false, false])), EventKind::BanditRaid);
    assert_eq!(select_event(trials([false, true, false, false])), EventKind::SiegeCatapults);
    assert_eq!(select_event(trials([false, false, true, false])), EventKind::Sabotage);
    assert_eq!(select_event(trials([false, false, false, true])), EventKind::TradeOffer);
    assert_eq!(select_event(trials([false, false, false, false])), EventKind::Nothing);
}

#[test]
fn an_earlier_success_beats_every_later_one() {
    let order = [
        EventKind::BanditRaid,
        EventKind::SiegeCatapults,
        EventKind::Sabotage,
        EventKind::TradeOffer,
    ];
    for outcomes in 0u8..16 {
        let held = [
            outcomes & 1 != 0,
            outcomes & 2 != 0,
            outcomes & 4 != 0,
            outcomes & 8 != 0,
        ];
        let expected = match held.iter().position(|&success| success) {
            Some(first) => order[first],
            None => EventKind::Nothing,
        };
        assert_eq!(select_event(trials(held)), expected);
    }
}

#[test]
fn selection_is_a_function_of_the_trials() {
    for _ in 0..3 {
        assert_eq!(select_event(trials([false, true, true, true])), EventKind::SiegeCatapults);
        assert_eq!(select_event(trials([true, true, true, true])), EventKind::BanditRaid);
    }
}

#[test]
fn an_event_carries_the_configured_text_and_the_amount() {
    let config = events_config([HALF; 4]);
    assert_eq!(
        make_event(EventKind::BanditRaid, 17, &config),
        GameEvent::BanditRaid { defense_loss: 17, message: "Bandits raid the village".to_string() }
    );
    assert_eq!(
        make_event(EventKind::SiegeCatapults, 33, &config),
        GameEvent::SiegeCatapults { defense_loss: 33, message: "Catapults open fire".to_string() }
    );
    assert_eq!(
        make_event(EventKind::Sabotage, 5, &config),
        GameEvent::Sabotage { defense_loss: 5, message: "A saboteur strikes".to_string() }
    );
    assert_eq!(
        make_event(EventKind::TradeOffer, 55, &config),
        GameEvent::TradeOffer { gold_gain: 55, message: "Merchants arrive".to_string() }
    );
    assert_eq!(make_event(EventKind::Nothing, 99, &config), GameEvent::Nothing);
}

#[test]
fn a_certain_trial_always_succeeds_and_an_impossible_one_never() {
    let mut rng = StdRng::seed_from_u64(11);
    let certain = events_config([ALWAYS, ALWAYS, ALWAYS, ALWAYS]);
    let impossible = events_config([NEVER, NEVER, NEVER, NEVER]);
    for _ in 0..200 {
        assert_eq!(roll_trials(&certain, &mut rng), trials([true, false, false, false]));
        assert_eq!(roll_trials(&impossible, &mut rng), trials([false, false, false, false]));
    }
}

#[test]
fn no_trial_is_held_after_a_success() {
    let config = events_config([HALF; 4]);
    let mut rng = StdRng::seed_from_u64(5);
    let mut seen = [0u32; 5];
    for _ in 0..2_000 {
        let rolled = roll_trials(&config, &mut rng);
        let successes = [rolled.bandit_raid, rolled.siege_catapults, rolled.sabotage, rolled.trade_offer]
            .iter()
            .filter(|&&success| success)
            .count();
        assert!(successes <= 1);
        seen[match select_event(rolled) {
            EventKind::BanditRaid => 0,
            EventKind::SiegeCatapults => 1,
            EventKind::Sabotage => 2,
            EventKind::TradeOffer => 3,
            EventKind::Nothing => 4,
        }] += 1;
    }
    // With even odds every outcome turns up, and an earlier trial more
    // often than a later one.
    assert!(seen.iter().all(|&count| count > 0));
    assert!(seen[0] > seen[1] && seen[1] > seen[2] && seen[2] > seen[3]);
}

#[test]
fn the_resolver_follows_the_order_of_the_trials() {
    let mut rng = StdRng::seed_from_u64(3);
    let cases = [
        ([ALWAYS, ALWAYS, ALWAYS, ALWAYS], EventKind::BanditRaid),
        ([NEVER, ALWAYS, ALWAYS, ALWAYS], EventKind::SiegeCatapults),
        ([NEVER, NEVER, ALWAYS, ALWAYS], EventKind::Sabotage),
        ([NEVER, NEVER, NEVER, ALWAYS], EventKind::TradeOffer),
        ([NEVER, NEVER, NEVER, NEVER], EventKind::Nothing),
        ([ALWAYS, NEVER, NEVER, NEVER], EventKind::BanditRaid),
    ];
    for (probabilities, expected) in cases {
        let config = events_config(probabilities);
        for _ in 0..50 {
            assert_eq!(kind_of(&generate_random_event(&config, &mut rng)), expected);
        }
    }
}

#[test]
fn the_same_seed_gives_the_same_events() {
    let config = events_config([
        Probability { numerator: 1, denominator: 10 },
        Probability { numerator: 1, denominator: 5 },
        Probability { numerator: 3, denominator: 10 },
        HALF,
    ]);
    let mut first = StdRng::seed_from_u64(2024);
    let mut second = StdRng::seed_from_u64(2024);
    for _ in 0..500 {
        assert_eq!(
            generate_random_event(&config, &mut first),
            generate_random_event(&config, &mut second)
        );
    }
}

#[test]
fn amounts_stay_within_the_configured_range() {
    let config = events_config([HALF; 4]);
    let mut rng = StdRng::seed_from_u64(77);
    let mut lowest = u64::MAX;
    let mut highest = 0;
    for _ in 0..2_000 {
        match generate_random_event(&config, &mut rng) {
            GameEvent::BanditRaid { defense_loss, message } => {
                assert!((10..=20).contains(&defense_loss));
                assert_eq!(message, "Bandits raid the village");
                lowest = lowest.min(defense_loss);
                highest = highest.max(defense_loss);
            }
            GameEvent::SiegeCatapults { defense_loss, message } => {
                assert!((30..=40).contains(&defense_loss));
                assert_eq!(message, "Catapults open fire");
            }
            GameEvent::Sabotage { defense_loss, message } => {
                assert_eq!(defense_loss, 5);
                assert_eq!(message, "A saboteur strikes");
            }
            GameEvent::TradeOffer { gold_gain, message } => {
                assert!((50..=60).contains(&gold_gain));
                assert_eq!(message, "Merchants arrive");
            }
            GameEvent::Nothing => {}
        }
    }
    // The range is inclusive at both ends.
    assert_eq!((lowest, highest), (10, 20));
}

#[test]
fn the_amount_is_drawn_from_the_range_of_the_kind() {
    let config = events_config([HALF; 4]);
    let mut rng = StdRng::seed_from_u64(1);
    for _ in 0..200 {
        assert!((10..=20).contains(&roll_amount(&config, EventKind::BanditRaid, &mut rng)));
        assert!((30..=40).contains(&roll_amount(&config, EventKind::SiegeCatapults, &mut rng)));
        assert_eq!(roll_amount(&config, EventKind::Sabotage, &mut rng), 5);
        assert!((50..=60).contains(&roll_amount(&config, EventKind::TradeOffer, &mut rng)));
        assert_eq!(roll_amount(&config, EventKind::Nothing, &mut rng), 0);
    }
}

#[test]
fn a_range_may_span_all_of_u64() {
    let mut config = events_config([ALWAYS, NEVER, NEVER, NEVER]);
    config.events.bandit_raid.min_damage = 0;
    config.events.bandit_raid.max_damage = u64::MAX;
    let mut rng = StdRng::seed_from_u64(9);
    for _ in 0..20 {
        assert_eq!(kind_of(&generate_random_event(&config, &mut rng)), EventKind::BanditRaid);
    }
}

#[test]
fn a_raid_beyond_the_defense_fells_the_castle() {
    let mut session = GameSession::new(0);
    assert_eq!(session.defense, Defense(100));
    apply_event(
        &mut session,
        GameEvent::BanditRaid { defense_loss: 150, message: "Bandits".to_string() },
        7_000,
    );
    assert_eq!(session.defense, Defense(0));
    assert_eq!(session.game_state, GameState::GameOver);
    assert_eq!(session.game_running, GameRunning(false));
    assert_eq!(
        session.event_message,
        EventMessage { message: EventText::CastleFall { message: "Bandits".to_string() }, timestamp: 7_000 }
    );
    assert_eq!(session.last_event_check.0, 7_000);
    assert_eq!(session.gold, Gold(200));
}

#[test]
fn a_loss_that_the_defense_covers_is_taken_off() {
    for (index, loss) in [0u64, 1, 40, 99].into_iter().enumerate() {
        let event = match index % 3 {
            0 => GameEvent::BanditRaid { defense_loss: loss, message: "attack".to_string() },
            1 => GameEvent::SiegeCatapults { defense_loss: loss, message: "attack".to_string() },
            _ => GameEvent::Sabotage { defense_loss: loss, message: "attack".to_string() },
        };
        let mut session = GameSession::new(0);
        apply_event(&mut session, event, 3_000);
        assert_eq!(session.defense, Defense(100 - loss));
        assert_eq!(session.game_state, GameState::Playing);
        assert_eq!(session.game_running, GameRunning(true));
        assert_eq!(
            session.event_message.message,
            EventText::DefenseLoss { message: "attack".to_string(), amount: loss }
        );
        assert_eq!(session.event_message.timestamp, 3_000);
    }
}

#[test]
fn a_loss_of_exactly_the_defense_leaves_the_game_running() {
    let mut session = GameSession::new(0);
    apply_event(
        &mut session,
        GameEvent::Sabotage { defense_loss: 100, message: "Sabotage".to_string() },
        1,
    );
    assert_eq!(session.defense, Defense(0));
    assert_eq!(session.game_state, GameState::Playing);
    assert_eq!(
        session.event_message.message,
        EventText::DefenseLoss { message: "Sabotage".to_string(), amount: 100 }
    );
    // With no defense left the least loss ends the game.
    apply_event(
        &mut session,
        GameEvent::Sabotage { defense_loss: 1, message: "Sabotage".to_string() },
        2,
    );
    assert_eq!(session.defense, Defense(0));
    assert_eq!(session.game_state, GameState::GameOver);
}

#[test]
fn every_kind_of_attack_can_end_the_game() {
    let attacks = [
        GameEvent::BanditRaid { defense_loss: 101, message: "a".to_string() },
        GameEvent::SiegeCatapults { defense_loss: 101, message: "b".to_string() },
        GameEvent::Sabotage { defense_loss: u64::MAX, message: "c".to_string() },
    ];
    for attack in attacks {
        let mut session = GameSession::new(0);
        apply_event(&mut session, attack, 10);
        assert_eq!(session.defense, Defense(0));
        assert_eq!(session.game_state, GameState::GameOver);
    }
}

#[test]
fn a_trade_offer_brings_gold() {
    let mut session = GameSession::new(0);
    apply_event(
        &mut session,
        GameEvent::TradeOffer { gold_gain: 55, message: "Merchants".to_string() },
        4_000,
    );
    assert_eq!(session.gold, Gold(255));
    assert_eq!(session.defense, Defense(100));
    assert_eq!(session.game_state, GameState::Playing);
    assert_eq!(
        session.event_message,
        EventMessage {
            message: EventText::TradeGain { message: "Merchants".to_string(), amount: 55 },
            timestamp: 4_000,
        }
    );
    assert_eq!(session.last_event_check.0, 4_000);
}

#[test]
fn an_uneventful_check_still_replaces_the_message() {
    let mut session = GameSession::new(0);
    apply_event(
        &mut session,
        GameEvent::TradeOffer { gold_gain: 1, message: "Merchants".to_string() },
        1_000,
    );
    apply_event(&mut session, GameEvent::Nothing, 2_000);
    assert_eq!(
        session.event_message,
        EventMessage { message: EventText::Nothing, timestamp: 2_000 }
    );
    assert_eq!(session.last_event_check.0, 2_000);
    assert_eq!(session.gold, Gold(201));
    assert_eq!(session.defense, Defense(100));
}

#[test]
fn an_event_changes_nothing_but_what_it_is_about() {
    let mut session = GameSession::new(500);
    apply_event(
        &mut session,
        GameEvent::BanditRaid { defense_loss: 30, message: "Bandits".to_string() },
        900,
    );
    let mut expected = GameSession::new(500);
    expected.defense = Defense(70);
    expected.event_message = EventMessage {
        message: EventText::DefenseLoss { message: "Bandits".to_string(), amount: 30 },
        timestamp: 900,
    };
    expected.last_event_check.0 = 900;
    assert_eq!(session, expected);
}

#[test]
fn no_event_is_resolved_before_the_cooldown_has_passed() {
    let config = events_config([ALWAYS, NEVER, NEVER, NEVER]);
    let mut rng = StdRng::seed_from_u64(1);
    let mut session = GameSession::new(1_000);
    handle_events_system(&mut session, &config, 9_999, &mut rng);
    assert_eq!(session, GameSession::new(1_000));
    handle_events_system(&mut session, &config, 10_999, &mut rng);
    assert_eq!(session.defense, Defense(100));
    assert_eq!(session.last_event_check.0, 1_000);
}

#[test]
fn an_event_is_resolved_once_the_cooldown_has_passed() {
    let config = events_config([NEVER, NEVER, ALWAYS, NEVER]);
    let mut rng = StdRng::seed_from_u64(1);
    let mut session = GameSession::new(1_000);
    handle_events_system(&mut session, &config, 11_000, &mut rng);
    assert_eq!(session.defense, Defense(95));
    assert_eq!(
        session.event_message,
        EventMessage {
            message: EventText::DefenseLoss { message: "A saboteur strikes".to_string(), amount: 5 },
            timestamp: 11_000,
        }
    );
    assert_eq!(session.last_event_check.0, 11_000);
    // The cooldown starts anew from the resolution.
    handle_events_system(&mut session, &config, 20_999, &mut rng);
    assert_eq!(session.defense, Defense(95));
    handle_events_system(&mut session, &config, 21_000, &mut rng);
    assert_eq!(session.defense, Defense(90));
}

#[test]
fn the_message_is_taken_down_a_second_before_the_next_event() {
    let config = events_config([NEVER, NEVER, ALWAYS, NEVER]);
    let mut rng = StdRng::seed_from_u64(1);
    let mut session = GameSession::new(0);
    handle_events_system(&mut session, &config, 10_000, &mut rng);
    assert_ne!(session.event_message.message, EventText::Empty);
    handle_events_system(&mut session, &config, 18_999, &mut rng);
    assert_eq!(
        session.event_message.message,
        EventText::DefenseLoss { message: "A saboteur strikes".to_string(), amount: 5 }
    );
    handle_events_system(&mut session, &config, 19_000, &mut rng);
    assert_eq!(session.event_message, EventMessage { message: EventText::Empty, timestamp: 10_000 });
    assert_eq!(session.defense, Defense(95));
    assert_eq!(session.last_event_check.0, 10_000);
}

#[test]
fn a_cooldown_under_a_second_never_shows_a_message_for_long() {
    let mut config = events_config([NEVER, NEVER, NEVER, NEVER]);
    config.events.cooldown_ms = 400;
    let mut rng = StdRng::seed_from_u64(1);
    let mut session = GameSession::new(0);
    handle_events_system(&mut session, &config, 400, &mut rng);
    assert_eq!(session.event_message.message, EventText::Nothing);
    handle_events_system(&mut session, &config, 401, &mut rng);
    assert_eq!(session.event_message, EventMessage { message: EventText::Empty, timestamp: 400 });
}

#[test]
fn the_event_check_ends_the_game_when_the_castle_falls() {
    let mut config = events_config([NEVER, ALWAYS, NEVER, NEVER]);
    config.events.siege_catapults.min_damage = 150;
    config.events.siege_catapults.max_damage = 150;
    let mut rng = StdRng::seed_from_u64(1);
    let mut session = GameSession::new(0);
    handle_events_system(&mut session, &config, 10_000, &mut rng);
    assert_eq!(session.defense, Defense(0));
    assert_eq!(session.game_state, GameState::GameOver);
    assert_eq!(
        session.event_message.message,
        EventText::CastleFall { message: "Catapults open fire".to_string() }
    );
}

#[test]
fn the_schedule_runs_the_accrual_and_then_the_event_check() {
    let mut config = events_config([NEVER, NEVER, NEVER, ALWAYS]);
    config.trade.offer.min_gain = 7;
    config.trade.offer.max_gain = 7;
    let mut rng = StdRng::seed_from_u64(1);
    let mut session = GameSession::new(0);
    session.bought_upgrades.increment(&AvailableUpgrades::TradeHall);
    session.bought_upgrades.increment(&AvailableUpgrades::Officer);
    assert!(session.schedule_fits(&config, 10_000));
    run_schedule(&mut session, &config, 10_000, &mut rng);
    assert_eq!(session.gold, Gold(200 + 10 + 7));
    assert_eq!(session.defense, Defense(101));
    assert_eq!(session.last_tick.0, 10_000);
    assert_eq!(session.last_event_check.0, 10_000);
    assert_eq!(
        session.event_message.message,
        EventText::TradeGain { message: "Merchants arrive".to_string(), amount: 7 }
    );
}

#[test]
fn the_schedule_is_suspended_once_the_game_is_over() {
    let config = events_config([ALWAYS, NEVER, NEVER, NEVER]);
    let mut rng = StdRng::seed_from_u64(1);
    for state in [GameState::GameOver, GameState::Exiting] {
        let mut session = GameSession::new(0);
        session.bought_upgrades.increment(&AvailableUpgrades::TradeHall);
        session.game_state = state;
        session.game_running = GameRunning(false);
        run_schedule(&mut session, &config, 60_000, &mut rng);
        let mut untouched = GameSession::new(0);
        untouched.bought_upgrades.increment(&AvailableUpgrades::TradeHall);
        untouched.game_state = state;
        untouched.game_running = GameRunning(false);
        assert_eq!(session, untouched);
    }
}

#[test]
fn the_event_check_asks_for_room_only_where_a_trade_can_come() {
    let mut session = GameSession::new(0);
    session.gold = Gold(u64::MAX - 59);
    let open = events_config([HALF, HALF, HALF, HALF]);
    assert!(!session.events_fit(&open, 10_000));
    assert!(session.events_fit(&open, 9_999));
    session.gold = Gold(u64::MAX - 60);
    assert!(session.events_fit(&open, 10_000));
    session.gold = Gold(u64::MAX);
    assert!(session.events_fit(&events_config([HALF, HALF, HALF, NEVER]), 10_000));
    assert!(session.events_fit(&events_config([HALF, ALWAYS, HALF, HALF]), 10_000));
    assert!(!session.events_fit(&events_config([NEVER, NEVER, NEVER, ALWAYS]), 10_000));
    assert!(open.may_trade());
    assert!(!events_config([ALWAYS, HALF, HALF, HALF]).may_trade());
    assert!(!events_config([HALF, HALF, ALWAYS, HALF]).may_trade());
    assert!(!events_config([HALF, HALF, HALF, NEVER]).may_trade());
}

#[test]
fn the_schedule_counts_the_accrual_in_before_the_trade() {
    let mut config = events_config([NEVER, NEVER, NEVER, ALWAYS]);
    config.trade.offer.min_gain = 7;
    config.trade.offer.max_gain = 7;
    let mut session = GameSession::new(0);
    session.bought_upgrades.increment(&AvailableUpgrades::TradeHall);
    session.gold = Gold(u64::MAX - 17);
    assert!(session.schedule_fits(&config, 10_000));
    session.gold = Gold(u64::MAX - 16);
    assert!(!session.schedule_fits(&config, 10_000));
    assert!(session.tick_fits(&config, 10_000));
    assert!(session.events_fit(&config, 10_000));
    session.game_state = GameState::GameOver;
    assert!(session.schedule_fits(&config, 10_000));
}
