//! Key bindings: which intent a key press stands for in each mode.

use vstd::prelude::*;
use crate::state::{Direction, GameState, Intent};

verus! {

/// A key of the keyboard, as far as the game tells keys apart.
#[derive(Debug, Clone, Copy, PartialEq, Eq, Structural)]
pub enum Key {
    Left,
    Right,
    Enter,
    Esc,
    Char(char),
    Other,
}

/// A key press. `control` says that the control key, and no other modifier,
/// was held with it.
#[derive(Debug, Clone, Copy, PartialEq, Eq, Structural)]
pub struct KeyPress {
    pub key: Key,
    pub control: bool,
}

/// Whether a key is the given letter, in upper or in lower case.
pub open spec fn is_letter(key: Key, upper: char, lower: char) -> bool {
    key == Key::Char(upper) || key == Key::Char(lower)
}

/// Whether a key is one of the two that confirm: enter and space.
pub open spec fn confirms(key: Key) -> bool {
    key == Key::Enter || key == Key::Char(' ')
}

/// Whether a key press quits in every mode: escape, a lower-case `q`, or
/// `c` with the control key.
pub open spec fn quits(press: KeyPress) -> bool {
    press.key == Key::Esc || press.key == Key::Char('q') || (press.control && is_letter(
        press.key,
        'C',
        'c',
    ))
}

/// The intent that a key press stands for in a mode, if it stands for any.
/// `dialogue_pending` says whether a boss has lines left to speak, which
/// space reads on before it confirms anything.
pub open spec fn bound_intent(game_state: GameState, dialogue_pending: bool, press: KeyPress)
    -> Option<Intent> {
    let key = press.key;
    if quits(press) {
        Some(Intent::Quit)
    } else {
        match game_state {
            GameState::Minigame | GameState::Test => if is_letter(key, 'M', 'm') {
                Some(Intent::OpenMenu)
            } else {
                None
            },
            GameState::Mercy => if confirms(key) {
                Some(Intent::Continue)
            } else if is_letter(key, 'B', 'b') {
                Some(Intent::Back)
            } else {
                None
            },
            GameState::GameOver => if is_letter(key, 'E', 'e') {
                Some(Intent::Quit)
            } else {
                None
            },
            GameState::Heal => if is_letter(key, 'M', 'm') {
                Some(Intent::OpenMenu)
            } else if is_letter(key, 'H', 'h') {
                Some(Intent::Heal)
            } else {
                None
            },
            GameState::MainMenu => if is_letter(key, 'S', 's') {
                Some(Intent::StartStory)
            } else if is_letter(key, 'E', 'e') {
                Some(Intent::EndGame)
            } else if is_letter(key, 'T', 't') {
                Some(Intent::OpenTest)
            } else if is_letter(key, 'H', 'h') {
                Some(Intent::Heal)
            } else if is_letter(key, 'I', 'i') {
                Some(Intent::OpenInventory)
            } else if is_letter(key, 'W', 'w') {
                Some(Intent::OpenShop)
            } else {
                None
            },
            GameState::Story => if is_letter(key, 'C', 'c') {
                Some(Intent::Continue)
            } else if is_letter(key, 'H', 'h') {
                Some(Intent::Heal)
            } else if is_letter(key, 'V', 'v') {
                Some(Intent::EndGame)
            } else if is_letter(key, 'B', 'b') {
                Some(Intent::StartBattle)
            } else if is_letter(key, 'M', 'm') {
                Some(Intent::OpenMenu)
            } else {
                None
            },
            GameState::Battle => if key == Key::Left {
                Some(Intent::Navigate(Direction::Left))
            } else if key == Key::Right {
                Some(Intent::Navigate(Direction::Right))
            } else if key == Key::Char(' ') && dialogue_pending {
                Some(Intent::Continue)
            } else if confirms(key) {
                Some(Intent::Confirm)
            } else {
                None
            },
            GameState::Shop => if key == Key::Left {
                Some(Intent::Navigate(Direction::Left))
            } else if key == Key::Right {
                Some(Intent::Navigate(Direction::Right))
            } else if confirms(key) {
                Some(Intent::Confirm)
            } else if is_letter(key, 'M', 'm') {
                Some(Intent::OpenMenu)
            } else {
                None
            },
            GameState::Inventory => if is_letter(key, 'B', 'b') {
                Some(Intent::Back)
            } else {
                None
            },
        }
    }
}

/// Tells whether a key is the given letter, in upper or in lower case.
fn letter(key: Key, upper: char, lower: char) -> (is: bool)
    ensures
        is == is_letter(key, upper, lower),
{
    match key {
        Key::Char(c) => c == upper || c == lower,
        _ => false,
    }
}

/// Tells whether a key confirms.
fn confirming(key: Key) -> (is: bool)
    ensures
        is == confirms(key),
{
    match key {
        Key::Enter => true,
        Key::Char(c) => c == ' ',
        _ => false,
    }
}

/// Tells whether a key press quits in every mode.
fn quitting(press: KeyPress) -> (is: bool)
    ensures
        is == quits(press),
{
    match press.key {
        Key::Esc => true,
        Key::Char(c) => c == 'q' || (press.control && (c == 'C' || c == 'c')),
        _ => false,
    }
}

/// An arrow key as a direction.
fn arrow(key: Key) -> (direction: Option<Direction>)
    ensures
        direction == if key == Key::Left {
            Some(Direction::Left)
        } else if key == Key::Right {
            Some(Direction::Right)
        } else {
            None
        },
{
    match key {
        Key::Left => Some(Direction::Left),
        Key::Right => Some(Direction::Right),
        _ => None,
    }
}

/// Finds the intent that a key press stands for in a mode.
pub fn intent_for_key(game_state: GameState, dialogue_pending: bool, press: KeyPress) -> (intent:
    Option<Intent>)
    ensures
        intent == bound_intent(game_state, dialogue_pending, press),
{
    let key = press.key;
    if quitting(press) {
        return Some(Intent::Quit);
    }
    match game_state {
        GameState::Minigame | GameState::Test => {
            if letter(key, 'M', 'm') {
                Some(Intent::OpenMenu)
            } else {
                None
            }
        },
        GameState::Mercy => {
            if confirming(key) {
                Some(Intent::Continue)
            } else if letter(key, 'B', 'b') {
                Some(Intent::Back)
            } else {
                None
            }
        },
        GameState::GameOver => {
            if letter(key, 'E', 'e') {
                Some(Intent::Quit)
            } else {
                None
            }
        },
        GameState::Heal => {
            if letter(key, 'M', 'm') {
                Some(Intent::OpenMenu)
            } else if letter(key, 'H', 'h') {
                Some(Intent::Heal)
            } else {
                None
            }
        },
        GameState::MainMenu => {
            if letter(key, 'S', 's') {
                Some(Intent::StartStory)
            } else if letter(key, 'E', 'e') {
                Some(Intent::EndGame)
            } else if letter(key, 'T', 't') {
                Some(Intent::OpenTest)
            } else if letter(key, 'H', 'h') {
                Some(Intent::Heal)
            } else if letter(key, 'I', 'i') {
                Some(Intent::OpenInventory)
            } else if letter(key, 'W', 'w') {
                Some(Intent::OpenShop)
            } else {
                None
            }
        },
        GameState::Story => {
            if letter(key, 'C', 'c') {
                Some(Intent::Continue)
            } else if letter(key, 'H', 'h') {
                Some(Intent::Heal)
            } else if letter(key, 'V', 'v') {
                Some(Intent::EndGame)
            } else if letter(key, 'B', 'b') {
                Some(Intent::StartBattle)
            } else if letter(key, 'M', 'm') {
                Some(Intent::OpenMenu)
            } else {
                None
            }
        },
        GameState::Battle => {
            match arrow(key) {
                Some(direction) => Some(Intent::Navigate(direction)),
                None => {
                    if letter(key, ' ', ' ') && dialogue_pending {
                        Some(Intent::Continue)
                    } else if confirming(key) {
                        Some(Intent::Confirm)
                    } else {
                        None
                    }
                },
            }
        },
        GameState::Shop => {
            match arrow(key) {
                Some(direction) => Some(Intent::Navigate(direction)),
                None => {
                    if confirming(key) {
                        Some(Intent::Confirm)
                    } else if letter(key, 'M', 'm') {
                        Some(Intent::OpenMenu)
                    } else {
                        None
                    }
                },
            }
        },
        GameState::Inventory => {
            if letter(key, 'B', 'b') {
                Some(Intent::Back)
            } else {
                None
            }
        },
    }
}

} // verus!
