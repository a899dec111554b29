//! The messages that gameplay writes into the log.

use vstd::prelude::*;
use crate::boss::BossType;
use crate::text::{decimal, decimal_text, join2, join3, join4};

verus! {

/// The greeting that opens the log of a new game.
pub open spec fn welcome_text() -> Seq<char> {
    "Benvenuto nel mondo di Pitagora!"@
}

/// Told when the story begins.
pub open spec fn story_started_text() -> Seq<char> {
    "Iniziata la storia di Pitagora!"@
}

/// Told when the healing place is entered from the main menu.
pub open spec fn heal_entered_text() -> Seq<char> {
    "Sei entrato nel centro di guarigione."@
}

/// Told when the shop is entered.
pub open spec fn shop_entered_text() -> Seq<char> {
    "Benvenuto nel negozio!"@
}

/// Told when an ordinary battle begins.
pub open spec fn battle_started_text() -> Seq<char> {
    "Una battaglia sta per iniziare!"@
}

/// Told as the story goes on to its second chapter.
pub open spec fn story_second_text() -> Seq<char> {
    "Continui il viaggio di Pitagora..."@
}

/// Told as the story goes on to its third chapter.
pub open spec fn story_third_text() -> Seq<char> {
    "Il destino di Pitagora si compie..."@
}

/// Told when the story is read on after its last chapter.
pub open spec fn story_complete_text() -> Seq<char> {
    "La storia è completa! Ora puoi esplorare liberamente."@
}

/// Told when an encounter with a boss begins.
pub open spec fn boss_battle_text(boss_type: BossType) -> Seq<char> {
    "Boss battle iniziata: "@ + boss_type.name_text() + "!"@
}

/// Told when the player hits a boss for `points` whole points.
pub open spec fn boss_hit_text(points: u64) -> Seq<char> {
    "Hai inflitto "@ + decimal_text(points as nat) + " danni al boss!"@
}

/// Told when the player hits a generic enemy for `points` whole points.
pub open spec fn enemy_hit_text(points: u64) -> Seq<char> {
    "Hai inflitto "@ + decimal_text(points as nat) + " danni al nemico!"@
}

/// Told when a boss enters a phase.
pub open spec fn phase_text(boss_type: BossType, phase: u32) -> Seq<char> {
    boss_type.name_text() + " entra nella fase "@ + decimal_text(phase as nat) + "!"@
}

/// Told when a boss hits the player with a normal attack for `points` whole points.
pub open spec fn boss_attack_text(boss_type: BossType, points: u64) -> Seq<char> {
    boss_type.name_text() + " ti attacca per "@ + decimal_text(points as nat) + " danni!"@
}

/// Told when a boss uses its special attack, which deals `points` whole
/// points of damage; `None` for the absent boss, of which nothing is told.
pub open spec fn special_text(boss_type: BossType, points: u64) -> Option<Seq<char>> {
    match boss_type {
        BossType::SamosGuardian => Some(
            boss_type.name_text() + " usa Scudo Geometrico! "@ + decimal_text(points as nat)
                + " danni!"@,
        ),
        BossType::TyrantOfTyre => Some(
            boss_type.name_text() + " scatena la sua Ira! "@ + decimal_text(points as nat)
                + " danni devastanti!"@,
        ),
        BossType::BabylonianSage => Some(
            boss_type.name_text() + " usa un Teorema Antico! Si rafforza!"@,
        ),
        BossType::FinalBoss => Some(
            boss_type.name_text() + " scatena il Caos Numerico! "@ + decimal_text(points as nat)
                + " danni! Sei indebolito!"@,
        ),
        BossType::NoBoss => None,
    }
}

/// Told when a boss is defeated; `None` for the absent boss.
pub open spec fn victory_text(boss_type: BossType) -> Option<Seq<char>> {
    match boss_type {
        BossType::SamosGuardian => Some("Hai sconfitto il Guardiano di Samos!"@),
        BossType::TyrantOfTyre => Some("Hai liberato Tiro dal tiranno!"@),
        BossType::BabylonianSage => Some("Hai ottenuto la saggezza babilonese!"@),
        BossType::FinalBoss => Some("Hai sconfitto il Caos! Sei un vero seguace di Pitagora!"@),
        BossType::NoBoss => None,
    }
}

/// Writes the greeting that opens the log of a new game.
pub fn welcome() -> (message: String)
    ensures
        message@ == welcome_text(),
{
    "Benvenuto nel mondo di Pitagora!".to_owned()
}

/// Writes what is told when the story begins.
pub fn story_started() -> (message: String)
    ensures
        message@ == story_started_text(),
{
    "Iniziata la storia di Pitagora!".to_owned()
}

/// Writes what is told when the healing place is entered from the main menu.
pub fn heal_entered() -> (message: String)
    ensures
        message@ == heal_entered_text(),
{
    "Sei entrato nel centro di guarigione.".to_owned()
}

/// Writes what is told when the shop is entered.
pub fn shop_entered() -> (message: String)
    ensures
        message@ == shop_entered_text(),
{
    "Benvenuto nel negozio!".to_owned()
}

/// Writes what is told when an ordinary battle begins.
pub fn battle_started() -> (message: String)
    ensures
        message@ == battle_started_text(),
{
    "Una battaglia sta per iniziare!".to_owned()
}

/// Writes what is told as the story goes on to its second chapter.
pub fn story_second() -> (message: String)
    ensures
        message@ == story_second_text(),
{
    "Continui il viaggio di Pitagora...".to_owned()
}

/// Writes what is told as the story goes on to its third chapter.
pub fn story_third() -> (message: String)
    ensures
        message@ == story_third_text(),
{
    "Il destino di Pitagora si compie...".to_owned()
}

/// Writes what is told when the story is read on after its last chapter.
pub fn story_complete() -> (message: String)
    ensures
        message@ == story_complete_text(),
{
    "La storia è completa! Ora puoi esplorare liberamente.".to_owned()
}

/// Writes what is told when an encounter with a boss begins.
pub fn boss_battle(boss_type: BossType) -> (message: String)
    ensures
        message@ == boss_battle_text(boss_type),
{
    join3("Boss battle iniziata: ", boss_type.name(), "!")
}

/// Writes what is told when the player hits a boss.
pub fn boss_hit(points: u64) -> (message: String)
    ensures
        message@ == boss_hit_text(points),
{
    let numeral = decimal(points);
    join3("Hai inflitto ", numeral.as_str(), " danni al boss!")
}

/// Writes what is told when the player hits a generic enemy.
pub fn enemy_hit(points: u64) -> (message: String)
    ensures
        message@ == enemy_hit_text(points),
{
    let numeral = decimal(points);
    join3("Hai inflitto ", numeral.as_str(), " danni al nemico!")
}

/// Writes what is told when a boss enters a phase.
pub fn phase_entered(boss_type: BossType, phase: u32) -> (message: String)
    ensures
        message@ == phase_text(boss_type, phase),
{
    let numeral = decimal(phase as u64);
    join4(boss_type.name(), " entra nella fase ", numeral.as_str(), "!")
}

/// Writes what is told when a boss hits the player with a normal attack.
pub fn boss_attack(boss_type: BossType, points: u64) -> (message: String)
    ensures
        message@ == boss_attack_text(boss_type, points),
{
    let numeral = decimal(points);
    join4(boss_type.name(), " ti attacca per ", numeral.as_str(), " danni!")
}

/// Writes what is told when a boss uses its special attack.
pub fn special(boss_type: BossType, points: u64) -> (message: Option<String>)
    ensures
        match message {
            Some(told) => Some(told@) == special_text(boss_type, points),
            None => special_text(boss_type, points) is None,
        },
{
    let numeral = decimal(points);
    match boss_type {
        BossType::SamosGuardian => Some(
            join4(boss_type.name(), " usa Scudo Geometrico! ", numeral.as_str(), " danni!"),
        ),
        BossType::TyrantOfTyre => Some(
            join4(
                boss_type.name(),
                " scatena la sua Ira! ",
                numeral.as_str(),
                " danni devastanti!",
            ),
        ),
        BossType::BabylonianSage => Some(
            join2(boss_type.name(), " usa un Teorema Antico! Si rafforza!"),
        ),
        BossType::FinalBoss => Some(
            join4(
                boss_type.name(),
                " scatena il Caos Numerico! ",
                numeral.as_str(),
                " danni! Sei indebolito!",
            ),
        ),
        BossType::NoBoss => None,
    }
}

/// Writes what is told when a boss is defeated.
pub fn victory(boss_type: BossType) -> (message: Option<String>)
    ensures
        match message {
            Some(told) => Some(told@) == victory_text(boss_type),
            None => victory_text(boss_type) is None,
        },
{
    match boss_type {
        BossType::SamosGuardian => Some("Hai sconfitto il Guardiano di Samos!".to_owned()),
        BossType::TyrantOfTyre => Some("Hai liberato Tiro dal tiranno!".to_owned()),
        BossType::BabylonianSage => Some("Hai ottenuto la saggezza babilonese!".to_owned()),
        BossType::FinalBoss => Some(
            "Hai sconfitto il Caos! Sei un vero seguace di Pitagora!".to_owned(),
        ),
        BossType::NoBoss => None,
    }
}

} // verus!
