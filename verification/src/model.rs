//! The session as a mathematical state machine: what a session holds, and
//! what every resolver and every intent makes of it.

use vstd::prelude::*;
use crate::boss::{lemma_pressed, Boss, BossType};
use crate::chance::{mercy_granted, Rolls};
use crate::combat::effective;
use crate::enemy::Enemy;
use crate::fixed::{rounded, scaled};
use crate::log::{appended, LOG_CAPACITY};
use crate::narration::{
    battle_started_text, boss_attack_text, boss_battle_text, boss_hit_text, enemy_hit_text,
    heal_entered_text, phase_text, shop_entered_text, special_text, story_complete_text,
    story_second_text, story_started_text, story_third_text, victory_text, welcome_text,
};
use crate::player::PlayerView;
use crate::state::{Control, FightOption, GameState, Intent, Places, ShopOption, StoryState};

verus! {

/// What a session holds.
pub struct AppView {
    pub game_state: GameState,
    /// The mode that an open inventory returns to.
    pub previous_game_state: Option<GameState>,
    pub story_state: StoryState,
    pub player: PlayerView,
    pub enemy: Enemy,
    pub current_boss: Boss,
    /// Whether the battle at hand is fought against the boss.
    pub is_boss_battle: bool,
    /// The outcome of a mercy attempt that has not been acknowledged yet.
    pub mercy_outcome: Option<bool>,
    /// The texts of the message log, oldest first.
    pub message_log: Seq<Seq<char>>,
    /// The lines that the boss speaks before the fight.
    pub boss_dialogue: Seq<Seq<char>>,
    /// The number of lines that were read.
    pub boss_dialogue_index: usize,
}

impl AppView {
    /// The session of a new game: in the main menu, at the first chapter,
    /// greeted, and with neither a boss nor a living enemy at hand.
    pub open spec fn fresh() -> AppView {
        AppView {
            game_state: GameState::MainMenu,
            previous_game_state: None,
            story_state: StoryState::First,
            player: PlayerView::fresh(),
            enemy: Enemy { is_alive: false, ..Enemy::fresh() },
            current_boss: Boss::fresh(BossType::NoBoss),
            is_boss_battle: false,
            mercy_outcome: None,
            message_log: seq![welcome_text()],
            boss_dialogue: Seq::<Seq<char>>::empty(),
            boss_dialogue_index: 0,
        }
    }

    /// The session with a message appended to its log.
    pub open spec fn logged(self, message: Seq<char>) -> AppView {
        AppView { message_log: appended(self.message_log, message), ..self }
    }

    /// The session with a message appended to its log, if there is one.
    pub open spec fn told(self, message: Option<Seq<char>>) -> AppView {
        match message {
            Some(text) => self.logged(text),
            None => self,
        }
    }

    /// The session in another mode.
    pub open spec fn moved_to(self, game_state: GameState) -> AppView {
        AppView { game_state, ..self }
    }

    /// The session, over once the player has no health left.
    pub open spec fn settled(self) -> AppView {
        if self.player.health == 0 {
            self.moved_to(GameState::GameOver)
        } else {
            self
        }
    }

    /// The damage of whoever the player is up against.
    pub open spec fn opposing_damage(self) -> u64 {
        if self.is_boss_battle {
            self.current_boss.damage
        } else {
            self.enemy.damage
        }
    }

    /// The session after the player attacked the generic enemy. The attack
    /// is told with its rounded damage. An enemy without health is dead, and
    /// the story goes on; one that lives strikes back with its fixed damage.
    pub open spec fn after_attack(self) -> AppView {
        let enemy = self.enemy.attacked(self.player.damage);
        let dealt = effective(self.player.damage, self.enemy.defense);
        let struck = AppView { enemy, ..self }.logged(enemy_hit_text(rounded(dealt)));
        if enemy.health == 0 {
            struck.moved_to(GameState::Story)
        } else {
            AppView { player: self.player.hurt(self.enemy.damage), ..struck }.settled()
        }
    }

    /// The session after the player defended: half of the opposing damage
    /// comes through, for this turn only.
    pub open spec fn after_defend(self) -> AppView {
        AppView { player: self.player.hurt(scaled(self.opposing_damage(), 500)), ..self }.settled()
    }

    /// The session after the player healed.
    pub open spec fn after_heal(self) -> AppView {
        AppView { player: self.player.healed(), ..self }
    }

    /// The session after a purchase in the shop.
    pub open spec fn after_buy(self) -> AppView {
        AppView { player: self.player.bought(), ..self }
    }

    /// The session after a sale in the shop.
    pub open spec fn after_sell(self) -> AppView {
        AppView { player: self.player.sold(), ..self }
    }

    /// The session after a mercy attempt with the given roll: the outcome is
    /// recorded, the mode stays.
    pub open spec fn after_mercy(self, roll: u32) -> AppView {
        AppView { mercy_outcome: Some(mercy_granted(roll)), ..self }
    }

    /// The session after the outcome of a mercy attempt was acknowledged:
    /// the story goes on after a success, the battle after a failure, and the
    /// outcome is undetermined again.
    pub open spec fn mercy_acknowledged(self) -> AppView {
        let game_state = match self.mercy_outcome {
            Some(true) => GameState::Story,
            Some(false) => GameState::Battle,
            None => self.game_state,
        };
        AppView { game_state, mercy_outcome: None, ..self }
    }

    /// The session after the player turned back from a mercy attempt.
    pub open spec fn mercy_withdrawn(self) -> AppView {
        AppView { game_state: GameState::Battle, mercy_outcome: None, ..self }
    }

    /// The session as an encounter with the boss of an archetype begins.
    pub open spec fn with_boss_battle(self, boss_type: BossType) -> AppView {
        AppView {
            current_boss: Boss::fresh(boss_type),
            is_boss_battle: true,
            game_state: GameState::Battle,
            boss_dialogue_index: 0,
            boss_dialogue: boss_type.dialogue_text(),
            ..self
        }.logged(boss_battle_text(boss_type))
    }

    /// The session after the place of the player was searched for its boss:
    /// where one waits, the encounter with it begins.
    pub open spec fn after_encounter_check(self) -> AppView {
        let boss_type = self.player.place.resident();
        if boss_type != BossType::NoBoss {
            self.with_boss_battle(boss_type)
        } else {
            self
        }
    }

    /// The session after the attack of the player has landed on the boss:
    /// the attack is told with its rounded damage, and a boss whose health
    /// has fallen to the trigger of its next phase enters it, which is told too.
    pub open spec fn boss_struck(self) -> AppView {
        let dealt = effective(self.player.damage, self.current_boss.defense);
        let hit = self.current_boss.attacked(self.player.damage);
        let struck = AppView { current_boss: hit, ..self }.logged(boss_hit_text(rounded(dealt)));
        if hit.phase_due() {
            let next = hit.in_next_phase();
            AppView { current_boss: next, ..struck }.logged(phase_text(next.boss_type, next.phase))
        } else {
            struck
        }
    }

    /// The session after a victory over the boss: the player has the spoils,
    /// the victory is told, and the story goes on.
    pub open spec fn after_boss_victory(self) -> AppView {
        let boss_type = self.current_boss.boss_type;
        AppView { player: self.player.rewarded(boss_type), ..self }.told(
            victory_text(boss_type),
        ).moved_to(GameState::Story)
    }

    /// The session after the special attack of the boss. The defense of the
    /// player does not count against it.
    pub open spec fn after_boss_special_attack(self) -> AppView {
        let effect = self.current_boss.special_effect();
        AppView {
            current_boss: self.current_boss.after_special(),
            player: self.player.hurt(effect.damage).weakened(effect.attack_factor),
            ..self
        }.told(special_text(self.current_boss.boss_type, rounded(effect.damage)))
    }

    /// The session after the boss struck back. A boss whose special attack
    /// is ready uses it if it chooses to; otherwise it deals its damage
    /// scaled by `variance` permille, against which the defense of the player
    /// does not count. A player without health has lost.
    pub open spec fn after_boss_counterattack(self, special: bool, variance: u32) -> AppView {
        if self.current_boss.current_cooldown == 0 && special {
            self.after_boss_special_attack().settled()
        } else {
            let dealt = scaled(self.current_boss.damage, variance);
            AppView { player: self.player.hurt(dealt), ..self }.logged(
                boss_attack_text(self.current_boss.boss_type, rounded(dealt)),
            ).settled()
        }
    }

    /// The session after the player attacked the boss: the attack lands, a
    /// boss without health is defeated, and one that stands strikes back.
    pub open spec fn after_boss_attack(self, special: bool, variance: u32) -> AppView {
        let struck = self.boss_struck();
        if struck.current_boss.current_health == 0 {
            AppView { is_boss_battle: false, ..struck }.after_boss_victory()
        } else {
            struck.after_boss_counterattack(special, variance)
        }
    }

    /// The session with the player at a place, searched for its boss.
    pub open spec fn arrived(self, place: Places) -> AppView {
        AppView { player: PlayerView { place, ..self.player }, ..self }.after_encounter_check()
    }

    /// The session after the story was read on: the next chapter, told, takes
    /// the player to its place; after the last chapter only the place changes.
    pub open spec fn story_continued(self) -> AppView {
        match self.story_state {
            StoryState::First => AppView { story_state: StoryState::Second, ..self }.logged(
                story_second_text(),
            ).arrived(Places::Samos),
            StoryState::Second => AppView { story_state: StoryState::Third, ..self }.logged(
                story_third_text(),
            ).arrived(Places::Babilonia),
            StoryState::Third => self.logged(story_complete_text()).arrived(Places::Crotone),
        }
    }

    /// The session as an ordinary battle begins, against a new generic enemy.
    pub open spec fn battle_started(self) -> AppView {
        AppView {
            game_state: GameState::Battle,
            enemy: Enemy::fresh(),
            is_boss_battle: false,
            ..self
        }.logged(battle_started_text())
    }

    /// The session with the inventory open over the current mode.
    pub open spec fn inventory_opened(self) -> AppView {
        AppView {
            previous_game_state: Some(self.game_state),
            game_state: GameState::Inventory,
            ..self
        }
    }

    /// The session back in the mode that the inventory was opened from, or
    /// in the main menu where none is remembered.
    pub open spec fn inventory_closed(self) -> AppView {
        AppView {
            game_state: match self.previous_game_state {
                Some(remembered) => remembered,
                None => GameState::MainMenu,
            },
            previous_game_state: None,
            ..self
        }
    }

    /// Whether the boss has lines left to speak.
    pub open spec fn dialogue_pending(self) -> bool {
        self.is_boss_battle && self.boss_dialogue_index < self.boss_dialogue.len()
    }

    /// The session after the next line of the boss was read.
    pub open spec fn dialogue_advanced(self) -> AppView {
        if self.dialogue_pending() {
            AppView { boss_dialogue_index: (self.boss_dialogue_index + 1) as usize, ..self }
        } else {
            self
        }
    }

    /// The session after an intent in the main menu.
    pub open spec fn in_main_menu(self, intent: Intent) -> AppView {
        match intent {
            Intent::StartStory => self.moved_to(GameState::Story).logged(story_started_text()),
            Intent::EndGame => self.moved_to(GameState::GameOver),
            Intent::OpenTest => self.moved_to(GameState::Test),
            Intent::Heal => self.moved_to(GameState::Heal).logged(heal_entered_text()),
            Intent::OpenInventory => self.inventory_opened(),
            Intent::OpenShop => self.moved_to(GameState::Shop).logged(shop_entered_text()),
            _ => self,
        }
    }

    /// The session after an intent while the story is told.
    pub open spec fn in_story(self, intent: Intent) -> AppView {
        match intent {
            Intent::Continue => self.story_continued(),
            Intent::Heal => self.moved_to(GameState::Heal),
            Intent::EndGame => self.moved_to(GameState::GameOver),
            Intent::StartBattle => self.battle_started(),
            Intent::OpenMenu => self.moved_to(GameState::MainMenu),
            _ => self,
        }
    }

    /// The session after the highlighted option of the battle menu was
    /// carried out. A mercy attempt is made in the mercy mode, where its
    /// outcome waits to be acknowledged.
    pub open spec fn fight_confirmed(self, rolls: Rolls) -> AppView {
        match self.player.selected_fight_option {
            FightOption::Attack => if self.is_boss_battle {
                self.after_boss_attack(rolls.special, rolls.variance)
            } else {
                self.after_attack()
            },
            FightOption::Defend => self.after_defend(),
            FightOption::Inventory => self.inventory_opened(),
            FightOption::Mercy => self.moved_to(GameState::Mercy).after_mercy(rolls.mercy),
        }
    }

    /// The session after an intent in battle.
    pub open spec fn in_battle(self, intent: Intent, rolls: Rolls) -> AppView {
        match intent {
            Intent::Navigate(direction) => AppView {
                player: PlayerView {
                    selected_fight_option: self.player.selected_fight_option.neighbour(direction),
                    ..self.player
                },
                ..self
            },
            Intent::Confirm => self.fight_confirmed(rolls),
            Intent::Continue => self.dialogue_advanced(),
            _ => self,
        }
    }

    /// The session after the highlighted option of the shop menu was carried out.
    pub open spec fn shop_confirmed(self) -> AppView {
        match self.player.selected_shop_option {
            ShopOption::Buy => self.after_buy(),
            ShopOption::Sell => self.after_sell(),
            ShopOption::Inventory => self.inventory_opened(),
            ShopOption::Exit => self,
        }
    }

    /// The session after an intent in the shop.
    pub open spec fn in_shop(self, intent: Intent) -> AppView {
        match intent {
            Intent::Navigate(direction) => AppView {
                player: PlayerView {
                    selected_shop_option: self.player.selected_shop_option.neighbour(direction),
                    ..self.player
                },
                ..self
            },
            Intent::Confirm => self.shop_confirmed(),
            Intent::OpenMenu => self.moved_to(GameState::MainMenu),
            _ => self,
        }
    }

    /// The session after an intent. An intent that the current mode has no
    /// use for changes nothing, and neither does the intent to quit.
    pub open spec fn step(self, intent: Intent, rolls: Rolls) -> AppView {
        if intent == Intent::Quit {
            self
        } else {
            match self.game_state {
                GameState::MainMenu => self.in_main_menu(intent),
                GameState::Story => self.in_story(intent),
                GameState::Battle => self.in_battle(intent, rolls),
                GameState::Shop => self.in_shop(intent),
                GameState::Inventory => if intent == Intent::Back {
                    self.inventory_closed()
                } else {
                    self
                },
                GameState::Mercy => if intent == Intent::Continue {
                    self.mercy_acknowledged()
                } else if intent == Intent::Back {
                    self.mercy_withdrawn()
                } else {
                    self
                },
                GameState::Heal => if intent == Intent::OpenMenu {
                    self.moved_to(GameState::MainMenu)
                } else if intent == Intent::Heal {
                    self.after_heal()
                } else {
                    self
                },
                GameState::Minigame | GameState::Test => if intent == Intent::OpenMenu {
                    self.moved_to(GameState::MainMenu)
                } else {
                    self
                },
                GameState::GameOver => self,
            }
        }
    }

    /// Whether a confirmed battle option makes a mercy attempt.
    pub open spec fn attempts_mercy(self, intent: Intent) -> bool {
        &&& self.game_state == GameState::Battle
        &&& intent == Intent::Confirm
        &&& self.player.selected_fight_option == FightOption::Mercy
    }

    /// Whether a confirmed battle option attacks the boss.
    pub open spec fn attacks_boss(self, intent: Intent) -> bool {
        &&& self.game_state == GameState::Battle
        &&& intent == Intent::Confirm
        &&& self.player.selected_fight_option == FightOption::Attack
        &&& self.is_boss_battle
    }

    /// Whether the draws of a turn bear on what an intent does: they do when
    /// a mercy attempt or an attack on the boss is confirmed.
    pub open spec fn draws_matter(self, intent: Intent) -> bool {
        self.attempts_mercy(intent) || self.attacks_boss(intent)
    }

    /// The session after a sequence of intents, each with the draws of its turn.
    pub open spec fn run(self, turns: Seq<(Intent, Rolls)>) -> AppView
        decreases turns.len(),
    {
        if turns.len() == 0 {
            self
        } else {
            self.run(turns.drop_last()).step(turns.last().0, turns.last().1)
        }
    }

    /// What the run loop does after an intent: it stops on the intent to
    /// quit, in whatever mode, and when the exit of the shop is confirmed.
    pub open spec fn control(self, intent: Intent) -> Control {
        if intent == Intent::Quit || (self.game_state == GameState::Shop && intent
            == Intent::Confirm && self.player.selected_shop_option == ShopOption::Exit) {
            Control::Stop
        } else {
            Control::Continue
        }
    }
}

/// The attack of the player lands on the boss as `Boss::pressed` says.
pub proof fn lemma_boss_struck(session: AppView)
    ensures
        session.boss_struck().current_boss == session.current_boss.pressed(session.player.damage),
        session.boss_struck().player == session.player,
        session.boss_struck().game_state == session.game_state,
{
}

/// No intent lowers the phase of the boss or changes its archetype: the
/// phase number never decreases, whatever the player does and whatever is drawn.
pub proof fn lemma_step_keeps_phase(session: AppView, intent: Intent, rolls: Rolls)
    ensures
        session.step(intent, rolls).current_boss.phase >= session.current_boss.phase,
        session.step(intent, rolls).current_boss.boss_type == session.current_boss.boss_type,
        session.current_boss.wf() ==> session.step(intent, rolls).current_boss.wf(),
{
    lemma_boss_struck(session);
    lemma_pressed(session.current_boss, session.player.damage);
}

/// Across any sequence of intents the phase of the boss never decreases
/// and its archetype stays.
pub proof fn lemma_run_keeps_phase(session: AppView, turns: Seq<(Intent, Rolls)>)
    ensures
        session.run(turns).current_boss.phase >= session.current_boss.phase,
        session.run(turns).current_boss.boss_type == session.current_boss.boss_type,
        session.current_boss.wf() ==> session.run(turns).current_boss.wf(),
    decreases turns.len(),
{
    if turns.len() > 0 {
        lemma_run_keeps_phase(session, turns.drop_last());
        lemma_step_keeps_phase(session.run(turns.drop_last()), turns.last().0, turns.last().1);
    }
}

/// No intent lets the message log grow past its capacity.
pub proof fn lemma_step_keeps_log_bounded(session: AppView, intent: Intent, rolls: Rolls)
    requires
        session.message_log.len() <= LOG_CAPACITY,
    ensures
        session.step(intent, rolls).message_log.len() <= LOG_CAPACITY,
{
}

/// Across any sequence of intents the message log never holds more than
/// `LOG_CAPACITY` messages.
pub proof fn lemma_run_keeps_log_bounded(turns: Seq<(Intent, Rolls)>)
    ensures
        AppView::fresh().run(turns).message_log.len() <= LOG_CAPACITY,
    decreases turns.len(),
{
    if turns.len() > 0 {
        lemma_run_keeps_log_bounded(turns.drop_last());
        lemma_step_keeps_log_bounded(
            AppView::fresh().run(turns.drop_last()),
            turns.last().0,
            turns.last().1,
        );
    }
}

/// The story only moves forward: no intent takes it back to an earlier chapter.
pub proof fn lemma_story_never_goes_back(session: AppView, intent: Intent, rolls: Rolls)
    ensures
        session.step(intent, rolls).story_state.rank() >= session.story_state.rank(),
{
}

/// The intent to quit stops the run loop in every mode and changes nothing.
pub proof fn lemma_quit_stops(session: AppView, rolls: Rolls)
    ensures
        session.control(Intent::Quit) == Control::Stop,
        session.step(Intent::Quit, rolls) == session,
{
}

/// A game that is over stays over: no intent changes anything, and only
/// the intent to quit ends the run loop.
pub proof fn lemma_game_over_is_final(session: AppView, intent: Intent, rolls: Rolls)
    requires
        session.game_state == GameState::GameOver,
    ensures
        session.step(intent, rolls) == session,
        session.control(intent) == Control::Stop <==> intent == Intent::Quit,
{
}

/// The inventory is an overlay: closing it leads back to the mode that it
/// was opened from, whichever that was, and forgets that mode.
pub proof fn lemma_inventory_returns(session: AppView)
    ensures
        session.inventory_opened().game_state == GameState::Inventory,
        session.inventory_opened().inventory_closed().game_state == session.game_state,
        session.inventory_opened().inventory_closed().previous_game_state is None,
        session.inventory_opened().inventory_closed() == (AppView {
            previous_game_state: None,
            ..session
        }),
{
}

/// Selling takes the item that was added last: a sale right after a
/// purchase leaves the inventory as it was. A sale from an empty inventory
/// changes nothing.
pub proof fn lemma_sale_takes_latest(session: AppView)
    ensures
        session.after_buy().after_sell().player.inventory == session.player.inventory,
        session.player.inventory.len() == 0 ==> session.after_sell() == session,
        session.player.inventory.len() == 1 ==> session.after_sell().player.inventory.len() == 0
            && session.after_sell().after_sell() == session.after_sell(),
{
}

/// A mercy attempt is settled by its roll: acknowledged, it leads to the
/// story when the roll is at most seven and back to the battle otherwise,
/// and either way the outcome is undetermined again.
pub proof fn lemma_mercy_resolution(session: AppView, roll: u32)
    ensures
        session.moved_to(GameState::Mercy).after_mercy(roll).mercy_acknowledged().game_state
            == if roll <= 7 {
            GameState::Story
        } else {
            GameState::Battle
        },
        session.moved_to(GameState::Mercy).after_mercy(roll).mercy_acknowledged().mercy_outcome
            is None,
{
}

/// Where the draws of a turn do not bear on an intent, the session after
/// it is the same whatever was drawn. A mercy attempt depends on its roll
/// alone, and an attack on the boss on the other two draws alone.
pub proof fn lemma_idle_draws(session: AppView, intent: Intent, drawn: Rolls, other: Rolls)
    ensures
        !session.draws_matter(intent) ==> session.step(intent, drawn) == session.step(
            intent,
            other,
        ),
        session.attempts_mercy(intent) && drawn.mercy == other.mercy ==> session.step(
            intent,
            drawn,
        ) == session.step(intent, other),
        session.attacks_boss(intent) && drawn.special == other.special && drawn.variance
            == other.variance ==> session.step(intent, drawn) == session.step(intent, other),
{
}

} // verus!
