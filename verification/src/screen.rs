//! What a presentation layer needs to know to paint the session: which
//! screen is up, how a health bar is to look, what the boss is saying.

use vstd::prelude::*;
use crate::app::App;
use crate::fixed::UNIT;
use crate::log::lines;
use crate::model::AppView;
use crate::state::GameState;

verus! {

/// The screens that a session can show.
#[derive(Debug, Clone, Copy, PartialEq, Eq, Structural)]
pub enum Screen {
    MainMenu,
    Story,
    Battle,
    BossBattle,
    Shop,
    Inventory,
    Mercy,
    GameOver,
    Heal,
    Minigame,
    Test,
}

/// How alarming a share of health is.
#[derive(Debug, Clone, Copy, PartialEq, Eq, Structural)]
pub enum HealthTone {
    /// More than sixty percent.
    Sound,
    /// More than thirty percent, up to sixty.
    Hurt,
    /// Thirty percent or less.
    Critical,
}

/// The tone of a share of health given in thousandths of a percent.
pub open spec fn tone_of(share: u64) -> HealthTone {
    if share > 60 * UNIT {
        HealthTone::Sound
    } else if share > 30 * UNIT {
        HealthTone::Hurt
    } else {
        HealthTone::Critical
    }
}

/// The number of cells that a health bar fills in an area `width` cells
/// wide: the share of the width, rounded down, short of the width by four
/// cells at least.
pub open spec fn bar_length(share: u64, width: u16) -> int {
    let filled = width * share / 100_000;
    let room = if width >= 4 {
        width - 4
    } else {
        0
    };
    if filled > room {
        room
    } else {
        filled
    }
}

/// A share in whole percent, rounded down, held at 255.
pub open spec fn whole_percent(share: u64) -> int {
    if share / 1000 > 255 {
        255
    } else {
        share as int / 1000
    }
}

/// The screen that shows a session.
pub open spec fn screen_of(session: AppView) -> Screen {
    match session.game_state {
        GameState::MainMenu => Screen::MainMenu,
        GameState::Story => Screen::Story,
        GameState::Shop => Screen::Shop,
        GameState::Inventory => Screen::Inventory,
        GameState::Mercy => Screen::Mercy,
        GameState::GameOver => Screen::GameOver,
        GameState::Heal => Screen::Heal,
        GameState::Minigame => Screen::Minigame,
        GameState::Test => Screen::Test,
        GameState::Battle => if session.is_boss_battle {
            Screen::BossBattle
        } else {
            Screen::Battle
        },
    }
}

/// Tells how alarming a share of health is.
pub fn health_tone(share: u64) -> (tone: HealthTone)
    ensures
        tone == tone_of(share),
{
    if share > 60 * UNIT {
        HealthTone::Sound
    } else if share > 30 * UNIT {
        HealthTone::Hurt
    } else {
        HealthTone::Critical
    }
}

/// Computes the number of cells that a health bar fills.
pub fn bar_cells(share: u64, width: u16) -> (cells: u16)
    ensures
        cells == bar_length(share, width),
        cells <= width,
{
    assert(width * share <= 0xFFFF * 0xFFFF_FFFF_FFFF_FFFF) by (nonlinear_arith)
        requires
            0 <= width <= 0xFFFF,
            0 <= share <= 0xFFFF_FFFF_FFFF_FFFF,
    ;
    let filled: u128 = (width as u128) * (share as u128) / 100_000;
    let room: u16 = if width >= 4 {
        width - 4
    } else {
        0
    };
    if filled > room as u128 {
        room
    } else {
        filled as u16
    }
}

/// Rounds a share down to whole percent, held at 255.
pub fn percent_points(share: u64) -> (points: u8)
    ensures
        points == whole_percent(share),
{
    let whole: u64 = share / 1000;
    if whole > 255 {
        255
    } else {
        whole as u8
    }
}

/// What a presentation layer shows of the boss.
#[derive(Debug, Clone, Copy, PartialEq, Eq, Structural)]
pub struct BossStatus {
    /// The health of the boss in thousandths of a percent of its maximum.
    pub health_percentage: u64,
    pub phase: u32,
    /// The turns left until the special attack is ready.
    pub cooldown: u32,
    pub special_ready: bool,
    /// The number of lines of the boss that were read.
    pub dialogue_cursor: usize,
}

/// What a presentation layer shows of the boss of a session.
pub open spec fn boss_status_of(session: AppView) -> BossStatus {
    BossStatus {
        health_percentage: session.current_boss.health_percentage(),
        phase: session.current_boss.phase,
        cooldown: session.current_boss.current_cooldown,
        special_ready: session.current_boss.current_cooldown == 0,
        dialogue_cursor: session.boss_dialogue_index,
    }
}

impl App {
    /// The screen that shows the session.
    pub fn screen(&self) -> (screen: Screen)
        ensures
            screen == screen_of(self@),
    {
        match self.game_state {
            GameState::MainMenu => Screen::MainMenu,
            GameState::Story => Screen::Story,
            GameState::Shop => Screen::Shop,
            GameState::Inventory => Screen::Inventory,
            GameState::Mercy => Screen::Mercy,
            GameState::GameOver => Screen::GameOver,
            GameState::Heal => Screen::Heal,
            GameState::Minigame => Screen::Minigame,
            GameState::Test => Screen::Test,
            GameState::Battle => {
                if self.is_boss_battle {
                    Screen::BossBattle
                } else {
                    Screen::Battle
                }
            },
        }
    }

    /// What there is to show of the boss.
    pub fn boss_status(&self) -> (status: BossStatus)
        ensures
            status == boss_status_of(self@),
    {
        BossStatus {
            health_percentage: self.current_boss.get_health_percentage(),
            phase: self.current_boss.phase,
            cooldown: self.current_boss.current_cooldown,
            special_ready: self.current_boss.is_special_ready(),
            dialogue_cursor: self.boss_dialogue_index,
        }
    }

    /// The line that the boss is speaking, while it has lines left to speak.
    pub fn dialogue_line(&self) -> (line: Option<&String>)
        ensures
            match line {
                Some(spoken) => self@.boss_dialogue_index < self@.boss_dialogue.len() && spoken@
                    == self@.boss_dialogue[self@.boss_dialogue_index as int],
                None => self@.boss_dialogue_index >= self@.boss_dialogue.len(),
            },
    {
        if self.boss_dialogue_index < self.boss_dialogue.len() {
            Some(&self.boss_dialogue[self.boss_dialogue_index])
        } else {
            None
        }
    }
}

} // verus!
