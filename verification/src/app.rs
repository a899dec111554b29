//! The session: the state of one game and the resolvers that change it.

use rand::rngs::StdRng;
use vstd::prelude::*;
use crate::boss::{Boss, BossType};
use crate::chance::{mercy_succeeds, Rolls};
use crate::enemy::Enemy;
use crate::fixed::{round_whole, scale};
use crate::keys::{bound_intent, intent_for_key, KeyPress};
use crate::log::{lines, MessageLog, LOG_CAPACITY};
use crate::model::AppView;
use crate::narration;
use crate::player::Player;
use crate::state::{Control, FightOption, GameState, Intent, Places, ShopOption, StoryState};

verus! {

/// The state of one game. Only the resolvers below are meant to change it.
#[derive(Debug)]
pub struct App {
    pub game_state: GameState,
    /// The mode that an open inventory returns to.
    pub previous_game_state: Option<GameState>,
    pub story_state: StoryState,
    pub player: Player,
    pub enemy: Enemy,
    pub current_boss: Boss,
    /// Whether the battle at hand is fought against the boss.
    pub is_boss_battle: bool,
    /// The outcome of a mercy attempt that has not been acknowledged yet.
    pub mercy_outcome: Option<bool>,
    pub message_log: MessageLog,
    /// The lines that the boss speaks before the fight.
    pub boss_dialogue: Vec<String>,
    /// The number of lines that were read.
    pub boss_dialogue_index: usize,
}

impl View for App {
    type V = AppView;

    open spec fn view(&self) -> AppView {
        AppView {
            game_state: self.game_state,
            previous_game_state: self.previous_game_state,
            story_state: self.story_state,
            player: self.player@,
            enemy: self.enemy,
            current_boss: self.current_boss,
            is_boss_battle: self.is_boss_battle,
            mercy_outcome: self.mercy_outcome,
            message_log: self.message_log@,
            boss_dialogue: lines(self.boss_dialogue@),
            boss_dialogue_index: self.boss_dialogue_index,
        }
    }
}

impl Clone for App {
    /// A copy that holds the same.
    fn clone(&self) -> (copy: App)
        ensures
            copy@ == self@,
    {
        let copy = App {
            game_state: self.game_state,
            previous_game_state: self.previous_game_state,
            story_state: self.story_state,
            player: self.player.clone(),
            enemy: self.enemy,
            current_boss: self.current_boss,
            is_boss_battle: self.is_boss_battle,
            mercy_outcome: self.mercy_outcome,
            message_log: self.message_log.clone(),
            boss_dialogue: self.boss_dialogue.clone(),
            boss_dialogue_index: self.boss_dialogue_index,
        };
        copy
    }
}

impl App {
    /// Begins a new game: in the main menu, with the greeting in the log,
    /// and with neither a boss nor a living enemy at hand.
    pub fn new() -> (app: App)
        ensures
            app@ == AppView::fresh(),
    {
        let mut message_log = MessageLog::new();
        message_log.push(narration::welcome());
        let mut enemy = Enemy::new();
        enemy.is_alive = false;
        let app = App {
            game_state: GameState::MainMenu,
            previous_game_state: None,
            story_state: StoryState::First,
            player: Player::new(),
            enemy,
            current_boss: Boss::new(BossType::NoBoss),
            is_boss_battle: false,
            mercy_outcome: None,
            message_log,
            boss_dialogue: Vec::new(),
            boss_dialogue_index: 0,
        };
        assert(app@.boss_dialogue =~= Seq::<Seq<char>>::empty());
        app
    }

    /// Appends a message to the log, which keeps the most recent ones.
    pub fn add_message(&mut self, message: String)
        ensures
            final(self)@ == old(self)@.logged(message@),
            final(self)@.message_log.len() <= LOG_CAPACITY,
    {
        self.message_log.push(message);
    }

    /// Ends the game if the player has no health left.
    fn settle(&mut self)
        ensures
            final(self)@ == old(self)@.settled(),
    {
        if self.player.is_defeated() {
            self.game_state = GameState::GameOver;
        }
    }

    /// Resolves an attack of the player on the generic enemy.
    pub fn logic_attack(&mut self)
        ensures
            final(self)@ == old(self)@.after_attack(),
            final(self).enemy.health <= old(self).enemy.health,
    {
        let dealt = self.enemy.receive_attack(self.player.damage);
        self.add_message(narration::enemy_hit(round_whole(dealt)));
        if self.enemy.health == 0 {
            self.game_state = GameState::Story;
        } else {
            self.player.take_damage(self.enemy.damage);
            self.settle();
        }
    }

    /// Resolves a turn in which the player defends.
    pub fn logic_defend(&mut self)
        ensures
            final(self)@ == old(self)@.after_defend(),
    {
        let opposing = if self.is_boss_battle {
            self.current_boss.damage
        } else {
            self.enemy.damage
        };
        self.player.take_damage(scale(opposing, 500));
        self.settle();
    }

    /// Heals the player.
    pub fn logic_heal(&mut self)
        ensures
            final(self)@ == old(self)@.after_heal(),
    {
        self.player.heal();
    }

    /// Buys the shop's consumable.
    pub fn logic_buy(&mut self)
        ensures
            final(self)@ == old(self)@.after_buy(),
    {
        self.player.buy();
    }

    /// Sells the item that was added last, if there is one.
    pub fn logic_sell(&mut self)
        ensures
            final(self)@ == old(self)@.after_sell(),
    {
        self.player.sell();
    }

    /// Attempts mercy with the given roll and records the outcome. The mode
    /// is left as it is.
    pub fn logic_mercy(&mut self, roll: u32)
        ensures
            final(self)@ == old(self)@.after_mercy(roll),
            final(self).mercy_outcome == Some(roll <= 7),
    {
        self.mercy_outcome = Some(mercy_succeeds(roll));
    }

    /// Begins an encounter with the boss of an archetype.
    pub fn start_boss_battle(&mut self, boss_type: BossType)
        ensures
            final(self)@ == old(self)@.with_boss_battle(boss_type),
    {
        self.current_boss = Boss::new(boss_type);
        self.is_boss_battle = true;
        self.game_state = GameState::Battle;
        self.boss_dialogue_index = 0;
        self.boss_dialogue = boss_type.dialogue();
        self.add_message(narration::boss_battle(boss_type));
    }

    /// Begins the encounter with the boss that waits where the player is, if
    /// one does.
    pub fn check_for_boss_encounter(&mut self)
        ensures
            final(self)@ == old(self)@.after_encounter_check(),
    {
        let boss_type = self.player.place.boss();
        if boss_type != BossType::NoBoss {
            self.start_boss_battle(boss_type);
        }
    }

    /// Lands the attack of the player on the boss and lets the boss enter
    /// its next phase when that is due.
    fn strike_boss(&mut self)
        ensures
            final(self)@ == old(self)@.boss_struck(),
    {
        let dealt = self.current_boss.receive_attack(self.player.damage);
        self.add_message(narration::boss_hit(round_whole(dealt)));
        if self.current_boss.should_enter_next_phase() {
            self.current_boss.enter_next_phase();
            self.add_message(
                narration::phase_entered(self.current_boss.boss_type, self.current_boss.phase),
            );
        }
    }

    /// Resolves an attack of the player on the boss. `special` says whether
    /// a boss whose special attack is ready chooses it to strike back, and
    /// `variance` is the factor in permille of a normal counterattack.
    pub fn logic_boss_attack(&mut self, special: bool, variance: u32)
        ensures
            final(self)@ == old(self)@.after_boss_attack(special, variance),
            final(self).current_boss.boss_type == old(self).current_boss.boss_type,
            final(self).current_boss.phase >= old(self).current_boss.phase,
            final(self).player.health <= old(self).player.health,
            old(self).current_boss.boss_type != BossType::BabylonianSage
                ==> final(self).current_boss.current_health
                <= old(self).current_boss.current_health,
    {
        self.strike_boss();
        if self.current_boss.current_health == 0 {
            self.is_boss_battle = false;
            self.logic_boss_victory();
        } else {
            self.logic_boss_counterattack(special, variance);
        }
    }

    /// Resolves the turn of the boss.
    pub fn logic_boss_counterattack(&mut self, special: bool, variance: u32)
        ensures
            final(self)@ == old(self)@.after_boss_counterattack(special, variance),
            final(self).current_boss.boss_type == old(self).current_boss.boss_type,
            final(self).current_boss.phase == old(self).current_boss.phase,
            final(self).player.health <= old(self).player.health,
    {
        if self.current_boss.is_special_ready() && special {
            self.logic_boss_special_attack();
        } else {
            let dealt = scale(self.current_boss.damage, variance);
            self.player.take_damage(dealt);
            self.add_message(
                narration::boss_attack(self.current_boss.boss_type, round_whole(dealt)),
            );
        }
        self.settle();
    }

    /// Resolves the special attack of the boss.
    pub fn logic_boss_special_attack(&mut self)
        ensures
            final(self)@ == old(self)@.after_boss_special_attack(),
            final(self).current_boss.boss_type == old(self).current_boss.boss_type,
            final(self).current_boss.phase == old(self).current_boss.phase,
            final(self).player.health <= old(self).player.health,
    {
        let boss_type = self.current_boss.boss_type;
        let effect = self.current_boss.special_attack();
        self.player.take_damage(effect.damage);
        self.player.weaken(effect.attack_factor);
        match narration::special(boss_type, round_whole(effect.damage)) {
            Some(message) => self.add_message(message),
            None => {},
        }
    }

    /// Hands out the spoils of a victory over the boss and lets the story go on.
    pub fn logic_boss_victory(&mut self)
        ensures
            final(self)@ == old(self)@.after_boss_victory(),
            final(self).game_state == GameState::Story,
            final(self).current_boss == old(self).current_boss,
    {
        let boss_type = self.current_boss.boss_type;
        self.player.claim_reward(boss_type);
        match narration::victory(boss_type) {
            Some(message) => self.add_message(message),
            None => {},
        }
        self.game_state = GameState::Story;
    }

    /// Takes the player to a place and begins the encounter with the boss
    /// that waits there, if one does.
    fn arrive(&mut self, place: Places)
        ensures
            final(self)@ == old(self)@.arrived(place),
    {
        self.player.place = place;
        self.check_for_boss_encounter();
    }

    /// Reads the story on.
    pub fn continue_story(&mut self)
        ensures
            final(self)@ == old(self)@.story_continued(),
            final(self).story_state.rank() >= old(self).story_state.rank(),
    {
        match self.story_state {
            StoryState::First => {
                self.story_state = StoryState::Second;
                self.add_message(narration::story_second());
                self.arrive(Places::Samos);
            },
            StoryState::Second => {
                self.story_state = StoryState::Third;
                self.add_message(narration::story_third());
                self.arrive(Places::Babilonia);
            },
            StoryState::Third => {
                self.add_message(narration::story_complete());
                self.arrive(Places::Crotone);
            },
        }
    }

    /// Begins an ordinary battle against a new generic enemy.
    pub fn start_battle(&mut self)
        ensures
            final(self)@ == old(self)@.battle_started(),
    {
        self.game_state = GameState::Battle;
        self.enemy = Enemy::new();
        self.is_boss_battle = false;
        self.add_message(narration::battle_started());
    }

    /// Opens the inventory over the current mode, which is remembered.
    pub fn open_inventory(&mut self)
        ensures
            final(self)@ == old(self)@.inventory_opened(),
    {
        self.previous_game_state = Some(self.game_state);
        self.game_state = GameState::Inventory;
    }

    /// Closes the inventory and returns to the remembered mode, or to the
    /// main menu where none is remembered.
    pub fn close_inventory(&mut self)
        ensures
            final(self)@ == old(self)@.inventory_closed(),
    {
        self.game_state = match self.previous_game_state {
            Some(remembered) => remembered,
            None => GameState::MainMenu,
        };
        self.previous_game_state = None;
    }

    /// Whether the boss has lines left to speak.
    pub fn dialogue_pending(&self) -> (pending: bool)
        ensures
            pending == self@.dialogue_pending(),
    {
        self.is_boss_battle && self.boss_dialogue_index < self.boss_dialogue.len()
    }

    /// Reads the next line of the boss, if there is one.
    pub fn advance_dialogue(&mut self)
        ensures
            final(self)@ == old(self)@.dialogue_advanced(),
    {
        if self.is_boss_battle && self.boss_dialogue_index < self.boss_dialogue.len() {
            self.boss_dialogue_index += 1;
        }
    }

    /// Acknowledges the outcome of a mercy attempt and clears it.
    pub fn acknowledge_mercy(&mut self)
        ensures
            final(self)@ == old(self)@.mercy_acknowledged(),
            final(self).mercy_outcome is None,
    {
        match self.mercy_outcome {
            Some(true) => {
                self.game_state = GameState::Story;
            },
            Some(false) => {
                self.game_state = GameState::Battle;
            },
            None => {},
        }
        self.mercy_outcome = None;
    }

    /// Turns back from a mercy attempt to the battle.
    pub fn withdraw_mercy(&mut self)
        ensures
            final(self)@ == old(self)@.mercy_withdrawn(),
    {
        self.game_state = GameState::Battle;
        self.mercy_outcome = None;
    }

    /// Handles an intent in the main menu.
    fn intent_in_main_menu(&mut self, intent: Intent)
        ensures
            final(self)@ == old(self)@.in_main_menu(intent),
    {
        match intent {
            Intent::StartStory => {
                self.game_state = GameState::Story;
                self.add_message(narration::story_started());
            },
            Intent::EndGame => {
                self.game_state = GameState::GameOver;
            },
            Intent::OpenTest => {
                self.game_state = GameState::Test;
            },
            Intent::Heal => {
                self.game_state = GameState::Heal;
                self.add_message(narration::heal_entered());
            },
            Intent::OpenInventory => {
                self.open_inventory();
            },
            Intent::OpenShop => {
                self.game_state = GameState::Shop;
                self.add_message(narration::shop_entered());
            },
            _ => {},
        }
    }

    /// Handles an intent while the story is told.
    fn intent_in_story(&mut self, intent: Intent)
        ensures
            final(self)@ == old(self)@.in_story(intent),
    {
        match intent {
            Intent::Continue => {
                self.continue_story();
            },
            Intent::Heal => {
                self.game_state = GameState::Heal;
            },
            Intent::EndGame => {
                self.game_state = GameState::GameOver;
            },
            Intent::StartBattle => {
                self.start_battle();
            },
            Intent::OpenMenu => {
                self.game_state = GameState::MainMenu;
            },
            _ => {},
        }
    }

    /// Carries out the highlighted option of the battle menu.
    fn confirm_fight(&mut self, rolls: Rolls)
        ensures
            final(self)@ == old(self)@.fight_confirmed(rolls),
    {
        match self.player.selected_fight_option {
            FightOption::Attack => {
                if self.is_boss_battle {
                    self.logic_boss_attack(rolls.special, rolls.variance);
                } else {
                    self.logic_attack();
                }
            },
            FightOption::Defend => {
                self.logic_defend();
            },
            FightOption::Inventory => {
                self.open_inventory();
            },
            FightOption::Mercy => {
                self.game_state = GameState::Mercy;
                self.logic_mercy(rolls.mercy);
            },
        }
    }

    /// Handles an intent in battle.
    fn intent_in_battle(&mut self, intent: Intent, rolls: Rolls)
        ensures
            final(self)@ == old(self)@.in_battle(intent, rolls),
    {
        match intent {
            Intent::Navigate(direction) => {
                self.player.selected_fight_option = self.player.selected_fight_option.step(
                    direction,
                );
            },
            Intent::Confirm => {
                self.confirm_fight(rolls);
            },
            Intent::Continue => {
                self.advance_dialogue();
            },
            _ => {},
        }
    }

    /// Handles an intent in the shop.
    fn intent_in_shop(&mut self, intent: Intent)
        ensures
            final(self)@ == old(self)@.in_shop(intent),
    {
        match intent {
            Intent::Navigate(direction) => {
                self.player.selected_shop_option = self.player.selected_shop_option.step(
                    direction,
                );
            },
            Intent::Confirm => {
                match self.player.selected_shop_option {
                    ShopOption::Buy => {
                        self.logic_buy();
                    },
                    ShopOption::Sell => {
                        self.logic_sell();
                    },
                    ShopOption::Inventory => {
                        self.open_inventory();
                    },
                    ShopOption::Exit => {},
                }
            },
            Intent::OpenMenu => {
                self.game_state = GameState::MainMenu;
            },
            _ => {},
        }
    }

    /// Handles an intent, with the draws that the turn may consume. The
    /// session changes as the state machine says, and the result tells the
    /// run loop whether to go on. An intent that the current mode has no use
    /// for is ignored.
    pub fn apply_intent(&mut self, intent: Intent, rolls: Rolls) -> (control: Control)
        ensures
            final(self)@ == old(self)@.step(intent, rolls),
            control == old(self)@.control(intent),
            final(self)@.message_log.len() <= LOG_CAPACITY,
    {
        let control = if intent == Intent::Quit || (self.game_state == GameState::Shop && intent
            == Intent::Confirm && self.player.selected_shop_option == ShopOption::Exit) {
            Control::Stop
        } else {
            Control::Continue
        };
        if intent != Intent::Quit {
            match self.game_state {
                GameState::MainMenu => {
                    self.intent_in_main_menu(intent);
                },
                GameState::Story => {
                    self.intent_in_story(intent);
                },
                GameState::Battle => {
                    self.intent_in_battle(intent, rolls);
                },
                GameState::Shop => {
                    self.intent_in_shop(intent);
                },
                GameState::Inventory => {
                    if intent == Intent::Back {
                        self.close_inventory();
                    }
                },
                GameState::Mercy => {
                    if intent == Intent::Continue {
                        self.acknowledge_mercy();
                    } else if intent == Intent::Back {
                        self.withdraw_mercy();
                    }
                },
                GameState::Heal => {
                    if intent == Intent::OpenMenu {
                        self.game_state = GameState::MainMenu;
                    } else if intent == Intent::Heal {
                        self.logic_heal();
                    }
                },
                GameState::Minigame | GameState::Test => {
                    if intent == Intent::OpenMenu {
                        self.game_state = GameState::MainMenu;
                    }
                },
                GameState::GameOver => {},
            }
        }
        proof {
            use_type_invariant(&self.message_log);
        }
        control
    }

    /// Handles an intent, drawing from a random source what the turn
    /// consumes: the roll of a mercy attempt, or the choice and the variance
    /// of a boss that is attacked; for any other intent nothing is drawn.
    /// Whatever is drawn, the session changes as the state machine says for
    /// some draws within their ranges.
    pub fn submit_intent(&mut self, intent: Intent, rng: &mut StdRng) -> (control: Control)
        ensures
            exists|rolls: Rolls|
                rolls.in_range() && final(self)@ == #[trigger] old(self)@.step(intent, rolls),
            !old(self)@.draws_matter(intent) ==> final(self)@ == old(self)@.step(
                intent,
                Rolls::unused(),
            ),
            control == old(self)@.control(intent),
            final(self)@.message_log.len() <= LOG_CAPACITY,
    {
        let confirmed = self.game_state == GameState::Battle && intent == Intent::Confirm;
        let rolls = if confirmed && self.player.selected_fight_option == FightOption::Mercy {
            Rolls::draw_mercy(rng)
        } else if confirmed && self.player.selected_fight_option == FightOption::Attack
            && self.is_boss_battle {
            Rolls::draw_counterattack(rng)
        } else {
            Rolls::idle()
        };
        self.apply_intent(intent, rolls)
    }

    /// Handles a key press with given draws: the intent that the key is
    /// bound to in the current mode is handled, and a key that is bound to
    /// none changes nothing.
    pub fn press_key(&mut self, press: KeyPress, rolls: Rolls) -> (control: Control)
        ensures
            match bound_intent(old(self)@.game_state, old(self)@.dialogue_pending(), press) {
                Some(intent) => final(self)@ == old(self)@.step(intent, rolls)
                    && control == old(self)@.control(intent),
                None => final(self)@ == old(self)@ && control == Control::Continue,
            },
            final(self)@.message_log.len() <= LOG_CAPACITY,
    {
        proof {
            use_type_invariant(&self.message_log);
        }
        match intent_for_key(self.game_state, self.dialogue_pending(), press) {
            Some(intent) => self.apply_intent(intent, rolls),
            None => Control::Continue,
        }
    }

    /// Handles a key press, drawing from a random source what the turn may
    /// consume.
    pub fn on_key_event(&mut self, press: KeyPress, rng: &mut StdRng) -> (control: Control)
        ensures
            match bound_intent(old(self)@.game_state, old(self)@.dialogue_pending(), press) {
                Some(intent) => control == old(self)@.control(intent) && exists|rolls: Rolls|
                    rolls.in_range() && final(self)@ == #[trigger] old(self)@.step(
                        intent,
                        rolls,
                    ),
                None => final(self)@ == old(self)@ && control == Control::Continue,
            },
            final(self)@.message_log.len() <= LOG_CAPACITY,
    {
        proof {
            use_type_invariant(&self.message_log);
        }
        match intent_for_key(self.game_state, self.dialogue_pending(), press) {
            Some(intent) => self.submit_intent(intent, rng),
            None => Control::Continue,
        }
    }
}

} // verus!
