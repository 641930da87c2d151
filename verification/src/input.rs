//! The player's side of a session: keys, the actions they stand for, and
//! the lifecycle state machine that the actions drive.
//!
//! While the game is played a key clicks for gold, moves the selection,
//! buys the selected upgrade or quits. Once the castle has fallen a key
//! restarts the game or quits. An action that does not apply in the
//! session's state changes nothing.

use vstd::prelude::*;

use crate::components::{
    AvailableUpgrades, EventText, GameRunning, GameState, Gold, LastClick, SelectedUpgrade,
    Upgrades,
};
use crate::config::Config;
use crate::game::calculate_click_cooldown;
use crate::session::{elapsed, elapsed_since, GameSession};
use crate::systems::handle_upgrade_system;

verus! {

/// A key, as far as the game tells keys apart.
#[derive(Clone, Copy, Debug, PartialEq, Eq, Structural)]
pub enum Key {
    Char(char),
    Esc,
    Up,
    Down,
    Enter,
    Other,
}

/// A key event: the key, and whether this is the key going down rather than
/// repeating or coming up.
#[derive(Clone, Copy, Debug, PartialEq, Eq, Structural)]
pub struct KeyEvent {
    pub key: Key,
    pub pressed: bool,
}

#[derive(Clone, Copy, Debug, PartialEq, Eq, Structural)]
pub enum Action {
    MoveUp,
    MoveDown,
    /// Buy the selected upgrade.
    Confirm,
    /// Click for gold.
    Click,
    Quit,
    Restart,
}

/// What a key means while the game is played: `q` and Esc quit, the space
/// bar going down clicks, the arrows and `k`, `j` move the selection, Enter
/// buys.
pub open spec fn playing_action(event: KeyEvent) -> Option<Action> {
    match event.key {
        Key::Char(c) => if c == 'q' {
            Some(Action::Quit)
        } else if c == ' ' && event.pressed {
            Some(Action::Click)
        } else if c == 'k' {
            Some(Action::MoveUp)
        } else if c == 'j' {
            Some(Action::MoveDown)
        } else {
            None
        },
        Key::Esc => Some(Action::Quit),
        Key::Up => Some(Action::MoveUp),
        Key::Down => Some(Action::MoveDown),
        Key::Enter => Some(Action::Confirm),
        Key::Other => None,
    }
}

/// What a key means once the game is over: Esc going down quits, Enter
/// going down restarts.
pub open spec fn game_over_action(event: KeyEvent) -> Option<Action> {
    if !event.pressed {
        None
    } else {
        match event.key {
            Key::Esc => Some(Action::Quit),
            Key::Enter => Some(Action::Restart),
            _ => None,
        }
    }
}

/// What a key means in the given state.
pub open spec fn action_for(state: GameState, event: KeyEvent) -> Option<Action> {
    match state {
        GameState::Playing => playing_action(event),
        GameState::GameOver => game_over_action(event),
        GameState::Exiting => None,
    }
}

/// Maps a key event to the action that it stands for in the given state.
pub fn key_action(state: GameState, event: KeyEvent) -> (action: Option<Action>)
    ensures
        action == action_for(state, event),
{
    match state {
        GameState::Playing => match event.key {
            Key::Char(c) => {
                if c == 'q' {
                    Some(Action::Quit)
                } else if c == ' ' && event.pressed {
                    Some(Action::Click)
                } else if c == 'k' {
                    Some(Action::MoveUp)
                } else if c == 'j' {
                    Some(Action::MoveDown)
                } else {
                    None
                }
            },
            Key::Esc => Some(Action::Quit),
            Key::Up => Some(Action::MoveUp),
            Key::Down => Some(Action::MoveDown),
            Key::Enter => Some(Action::Confirm),
            Key::Other => None,
        },
        GameState::GameOver => {
            if !event.pressed {
                None
            } else {
                match event.key {
                    Key::Esc => Some(Action::Quit),
                    Key::Enter => Some(Action::Restart),
                    _ => None,
                }
            }
        },
        GameState::Exiting => None,
    }
}

impl GameSession {
    /// The click cooldown at the level of the hand of Midas.
    pub open spec fn click_cooldown(&self, config: &Config) -> int {
        config.click_cooldown_at(self.bought_upgrades@[AvailableUpgrades::MidasHand])
    }

    /// The click cooldown has passed since the last click that earned gold.
    pub open spec fn click_ready(&self, config: &Config, now: u64) -> bool {
        elapsed(now, self.last_click.0) >= self.click_cooldown(config)
    }

    /// Where a click at `now` earns gold, there is room for it.
    pub open spec fn spec_click_fits(&self, config: &Config, now: u64) -> bool {
        self.click_ready(config, now) ==> self.gold.0 < u64::MAX
    }

    /// The session after a click at `now`: one more gold and the cooldown
    /// started anew, if the cooldown has passed; else nothing changes.
    pub open spec fn after_click(self, config: &Config, now: u64) -> GameSession {
        if self.click_ready(config, now) {
            GameSession { gold: Gold((self.gold.0 + 1) as u64), last_click: LastClick(now), ..self }
        } else {
            self
        }
    }

    /// The session with the selection moved one place up the list; at the
    /// top of the list nothing changes.
    pub open spec fn after_move_up(self) -> GameSession {
        match self.upgrades.position_of(self.selected_upgrade.0) {
            Some(i) if i > 0 => GameSession {
                selected_upgrade: SelectedUpgrade(self.upgrades.0@[i - 1]),
                ..self
            },
            _ => self,
        }
    }

    /// The session with the selection moved one place down the list; at
    /// the bottom of the list nothing changes.
    pub open spec fn after_move_down(self) -> GameSession {
        match self.upgrades.position_of(self.selected_upgrade.0) {
            Some(i) if i < 6 => GameSession {
                selected_upgrade: SelectedUpgrade(self.upgrades.0@[i + 1]),
                ..self
            },
            _ => self,
        }
    }

    /// The session after the player quit.
    pub open spec fn after_quit(self) -> GameSession {
        GameSession { game_running: GameRunning(false), game_state: GameState::Exiting, ..self }
    }

    /// Where `action` adds to a counter, the counter has room for it.
    pub open spec fn spec_action_fits(&self, config: &Config, action: Action, now: u64) -> bool {
        self.game_state == GameState::Playing ==> match action {
            Action::Click => self.spec_click_fits(config, now),
            Action::Confirm => self.spec_purchase_fits(config),
            _ => true,
        }
    }

    /// The session after `action` at `now`, once the game is over: a
    /// restart begins a fresh session, quitting ends this one, and nothing
    /// else applies.
    pub open spec fn after_game_over_action(self, action: Action, now: u64) -> GameSession {
        match action {
            Action::Quit => self.after_quit(),
            Action::Restart => GameSession::fresh(now),
            _ => self,
        }
    }

    /// The session after `action` at `now`. While the game is played every
    /// action but a restart applies. Once it is over only a restart and
    /// quitting apply. After the player quit nothing applies.
    pub open spec fn after_action(self, config: &Config, action: Action, now: u64) -> GameSession {
        match self.game_state {
            GameState::Playing => match action {
                Action::MoveUp => self.after_move_up(),
                Action::MoveDown => self.after_move_down(),
                Action::Confirm => self.after_purchase(config),
                Action::Click => self.after_click(config, now),
                Action::Quit => self.after_quit(),
                Action::Restart => self,
            },
            GameState::GameOver => self.after_game_over_action(action, now),
            GameState::Exiting => self,
        }
    }

    /// Where the key stands for an action in the session's state, the
    /// action fits.
    pub open spec fn spec_input_fits(&self, config: &Config, key: Option<KeyEvent>, now: u64) -> bool {
        key matches Some(event) ==> (action_for(self.game_state, event) matches Some(action)
            ==> self.spec_action_fits(config, action, now))
    }

    /// The session after the key, if any, was handled at `now`.
    pub open spec fn after_input(self, config: &Config, key: Option<KeyEvent>, now: u64) -> GameSession {
        match key {
            Some(event) => match action_for(self.game_state, event) {
                Some(action) => self.after_action(config, action, now),
                None => self,
            },
            None => self,
        }
    }

    /// The session after the key, if any, was handled at `now` by the
    /// handler of a game that is over: in any other state, and without a
    /// key that means something once the game is over, nothing changes.
    pub open spec fn after_game_over_input(self, key: Option<KeyEvent>, now: u64) -> GameSession {
        match key {
            Some(event) if self.game_state == GameState::GameOver => match game_over_action(
                event,
            ) {
                Some(action) => self.after_game_over_action(action, now),
                None => self,
            },
            _ => self,
        }
    }

    /// Decides whether a click at `now` stays within `u64`.
    #[verifier::when_used_as_spec(spec_click_fits)]
    pub fn click_fits(&self, config: &Config, now: u64) -> (fits: bool)
        ensures
            fits == self.spec_click_fits(config, now),
    {
        let midas_hand: u32 = self.bought_upgrades.get_count(&AvailableUpgrades::MidasHand);
        let cooldown: i128 = calculate_click_cooldown(midas_hand, config);
        (elapsed_since(now, self.last_click.0) as i128) < cooldown || self.gold.0 < u64::MAX
    }

    /// Decides whether `action` at `now` stays within the counters.
    #[verifier::when_used_as_spec(spec_action_fits)]
    pub fn action_fits(&self, config: &Config, action: Action, now: u64) -> (fits: bool)
        requires
            config.wf(),
        ensures
            fits == self.spec_action_fits(config, action, now),
    {
        match self.game_state {
            GameState::Playing => match action {
                Action::Click => self.click_fits(config, now),
                Action::Confirm => self.purchase_fits(config),
                _ => true,
            },
            _ => true,
        }
    }

    /// Decides whether handling the key at `now` stays within the counters.
    #[verifier::when_used_as_spec(spec_input_fits)]
    pub fn input_fits(&self, config: &Config, key: Option<KeyEvent>, now: u64) -> (fits: bool)
        requires
            config.wf(),
        ensures
            fits == self.spec_input_fits(config, key, now),
    {
        match key {
            Some(event) => match key_action(self.game_state, event) {
                Some(action) => self.action_fits(config, action, now),
                None => true,
            },
            None => true,
        }
    }
}

/// A click for gold: earns one gold if the click cooldown has passed since
/// the last click that earned.
pub fn click(session: &mut GameSession, config: &Config, now: u64)
    requires
        old(session).click_fits(config, now),
    ensures
        *final(session) == old(session).after_click(config, now),
{
    let midas_hand: u32 = session.bought_upgrades.get_count(&AvailableUpgrades::MidasHand);
    let cooldown: i128 = calculate_click_cooldown(midas_hand, config);
    if (elapsed_since(now, session.last_click.0) as i128) >= cooldown {
        session.gold.0 = session.gold.0 + 1;
        session.last_click.0 = now;
    }
}

/// Moves the selection one place up the list, unless it is at the top.
pub fn move_selection_up(session: &mut GameSession)
    ensures
        *final(session) == old(session).after_move_up(),
{
    match session.upgrades.position(&session.selected_upgrade.0) {
        Some(current_index) => {
            if current_index > 0 {
                session.selected_upgrade.0 = session.upgrades.0[current_index - 1];
            }
        },
        None => {},
    }
}

/// Moves the selection one place down the list, unless it is at the bottom.
pub fn move_selection_down(session: &mut GameSession)
    ensures
        *final(session) == old(session).after_move_down(),
{
    match session.upgrades.position(&session.selected_upgrade.0) {
        Some(current_index) => {
            if current_index < 6 {
                session.selected_upgrade.0 = session.upgrades.0[current_index + 1];
            }
        },
        None => {},
    }
}

/// Ends the session.
pub fn quit(session: &mut GameSession)
    ensures
        *final(session) == old(session).after_quit(),
{
    session.game_running.0 = false;
    session.game_state = GameState::Exiting;
}

/// Begins the game anew at `now`.
pub fn reset_game(session: &mut GameSession, now: u64)
    ensures
        *final(session) == GameSession::fresh(now),
{
    *session = GameSession::new(now);
}

/// Applies one action to the session, as far as it applies in the
/// session's state.
pub fn apply_action(session: &mut GameSession, config: &Config, action: Action, now: u64)
    requires
        config.wf(),
        old(session).action_fits(config, action, now),
    ensures
        *final(session) == old(session).after_action(config, action, now),
{
    match session.game_state {
        GameState::Playing => match action {
            Action::MoveUp => move_selection_up(session),
            Action::MoveDown => move_selection_down(session),
            Action::Confirm => handle_upgrade_system(session, config),
            Action::Click => click(session, config, now),
            Action::Quit => quit(session),
            Action::Restart => {},
        },
        GameState::GameOver => match action {
            Action::Quit => quit(session),
            Action::Restart => reset_game(session, now),
            _ => {},
        },
        GameState::Exiting => {},
    }
}

/// Handles the key, if there is one, while the game is played. In any
/// other state nothing changes.
pub fn handle_input(session: &mut GameSession, config: &Config, key: Option<KeyEvent>, now: u64)
    requires
        config.wf(),
        old(session).game_state == GameState::Playing ==> old(session).input_fits(config, key, now),
    ensures
        old(session).game_state == GameState::Playing ==> *final(session) == old(
            session,
        ).after_input(config, key, now),
        old(session).game_state != GameState::Playing ==> *final(session) == *old(session),
{
    if session.game_state != GameState::Playing {
        return;
    }
    if let Some(event) = key {
        if let Some(action) = key_action(GameState::Playing, event) {
            apply_action(session, config, action, now);
        }
    }
}

/// Handles the key, if there is one, once the game is over. In any other
/// state nothing changes.
pub fn handle_game_over_input(session: &mut GameSession, key: Option<KeyEvent>, now: u64)
    ensures
        *final(session) == old(session).after_game_over_input(key, now),
{
    if session.game_state != GameState::GameOver {
        return;
    }
    if let Some(event) = key {
        match key_action(GameState::GameOver, event) {
            Some(Action::Quit) => quit(session),
            Some(Action::Restart) => reset_game(session, now),
            _ => {},
        }
    }
}

/// A click before the cooldown has passed changes nothing, the gold least
/// of all. A click after it earns exactly one gold and starts the cooldown
/// anew.
pub proof fn lemma_click(session: GameSession, config: &Config, now: u64)
    requires
        session.spec_click_fits(config, now),
    ensures
        elapsed(now, session.last_click.0) < session.click_cooldown(config) ==> session.after_click(
            config,
            now,
        ) == session,
        elapsed(now, session.last_click.0) >= session.click_cooldown(config) ==> {
            &&& session.after_click(config, now).gold.0 == session.gold.0 + 1
            &&& session.after_click(config, now).last_click.0 == now
        },
{
}

/// A restart of a game that is over gives the session with which every
/// game begins: 200 gold, 100 of 100 defense, no income, every level at 0,
/// the first upgrade of the catalog selected, and the game played.
pub proof fn lemma_restart(session: GameSession, config: &Config, now: u64)
    requires
        session.game_state == GameState::GameOver,
    ensures
        ({
            let restarted = session.after_action(config, Action::Restart, now);
            &&& restarted.gold.0 == 200
            &&& restarted.defense.0 == 100
            &&& restarted.max_defense.0 == 100
            &&& restarted.defense_ps.0 == 0
            &&& restarted.gold_ps.0 == 0
            &&& forall|upgrade: AvailableUpgrades| restarted.bought_upgrades@[upgrade] == 0
            &&& restarted.upgrades.0@ == Upgrades::catalog()
            &&& restarted.selected_upgrade.0 == Upgrades::catalog()[0]
            &&& restarted.game_state == GameState::Playing
            &&& restarted.last_tick.0 == now
            &&& restarted.last_event_check.0 == now
            &&& restarted.last_click.0 == now
            &&& restarted.event_message.message == EventText::Empty
        }),
{
    Upgrades::lemma_standard_is_catalog();
}

/// The lifecycle has four transitions and no other: quitting a game that
/// is played or over, restarting one that is over, and the fall of the
/// castle, which no action brings about. A session that was quit stays so.
pub proof fn lemma_lifecycle(session: GameSession, config: &Config, action: Action, now: u64)
    ensures
        ({
            let before = session.game_state;
            let after = session.after_action(config, action, now).game_state;
            &&& before == GameState::Exiting ==> session.after_action(config, action, now)
                == session
            &&& after != before ==> {
                ||| before == GameState::Playing && action == Action::Quit && after
                    == GameState::Exiting
                ||| before == GameState::GameOver && action == Action::Quit && after
                    == GameState::Exiting
                ||| before == GameState::GameOver && action == Action::Restart && after
                    == GameState::Playing
            }
            &&& action == Action::Quit && before != GameState::Exiting ==> after
                == GameState::Exiting
        }),
{
}

/// While a game is over, only a restart or quitting changes the session.
pub proof fn lemma_game_over_is_suspended(
    session: GameSession,
    config: &Config,
    action: Action,
    now: u64,
)
    requires
        session.game_state == GameState::GameOver,
        action != Action::Restart,
        action != Action::Quit,
    ensures
        session.after_action(config, action, now) == session,
{
}

/// In the standard list the selection walks the catalog: up from the
/// first upgrade and down from the last nothing moves, and anywhere else
/// the selection moves to the neighbour.
pub proof fn lemma_navigation_walks_catalog(session: GameSession)
    requires
        session.upgrades == Upgrades::standard(),
    ensures
        ({
            let catalog = Upgrades::catalog();
            let selected = session.selected_upgrade.0;
            &&& exists|i: int|
                0 <= i < 7 && #[trigger] catalog[i] == selected
                    && session.upgrades.position_of(selected) == Some(i)
            &&& forall|i: int|
                0 < i < 7 && #[trigger] catalog[i] == selected
                    ==> session.after_move_up().selected_upgrade.0
                    == catalog[i - 1]
            &&& forall|i: int|
                0 <= i < 6 && #[trigger] catalog[i] == selected
                    ==> session.after_move_down().selected_upgrade.0 == catalog[i + 1]
            &&& selected == catalog[0] ==> session.after_move_up() == session
            &&& selected == catalog[6] ==> session.after_move_down() == session
        }),
{
    Upgrades::lemma_standard_is_catalog();
    reveal_with_fuel(Upgrades::position_from, 8);
    let selected = session.selected_upgrade.0;
    let i = session.upgrades.position_of(selected).unwrap();
    assert(0 <= i < 7 && Upgrades::catalog()[i] == selected);
}

/// The two key handlers are the state machine seen through the keys: each
/// does, in its own state, what the action of the key does.
pub proof fn lemma_handlers_apply_actions(
    session: GameSession,
    config: &Config,
    key: Option<KeyEvent>,
    now: u64,
)
    ensures
        session.game_state == GameState::GameOver ==> session.after_game_over_input(key, now)
            == session.after_input(config, key, now),
        session.game_state == GameState::Exiting ==> session.after_input(config, key, now)
            == session,
{
}

/// The running flag is up exactly while the game is played: a session
/// begins so, and no action changes that.
pub proof fn lemma_actions_keep_the_running_flag(
    session: GameSession,
    config: &Config,
    action: Action,
    now: u64,
)
    requires
        session.consistent(),
    ensures
        GameSession::fresh(now).consistent(),
        session.after_action(config, action, now).consistent(),
{
}

} // verus!
