//! The names and words that belong to bosses and places.

use vstd::prelude::*;
use crate::boss::BossType;
use crate::log::lines;
use crate::state::Places;

verus! {

impl BossType {
    /// The name of the boss of an archetype.
    pub open spec fn name_text(self) -> Seq<char> {
        match self {
            BossType::SamosGuardian => "Guardiano di Samos"@,
            BossType::TyrantOfTyre => "Tiranno di Tiro"@,
            BossType::BabylonianSage => "Saggio Babilonese"@,
            BossType::FinalBoss => "Ombra del Caos"@,
            BossType::NoBoss => "Nessun Boss"@,
        }
    }

    /// What is told of the boss of an archetype.
    pub open spec fn description_text(self) -> Seq<char> {
        match self {
            BossType::SamosGuardian => "Un antico guardiano che protegge i segreti di Samos"@,
            BossType::TyrantOfTyre => "Un tiranno crudele che governa Tiro con pugno di ferro"@,
            BossType::BabylonianSage => "Un antico saggio che custodisce i misteri della matematica"@,
            BossType::FinalBoss => "L'antitesi di tutto ciò che Pitagora rappresenta"@,
            BossType::NoBoss => ""@,
        }
    }

    /// What is told of the special attack of an archetype.
    pub open spec fn special_ability_text(self) -> Seq<char> {
        match self {
            BossType::SamosGuardian => "Scudo Geometrico - Riduce il danno del 50% per 2 turni"@,
            BossType::TyrantOfTyre => "Ira del Tiranno - Attacco devastante che ignora la difesa"@,
            BossType::BabylonianSage => "Teorema Antico - Si cura e potenzia i suoi attacchi"@,
            BossType::FinalBoss => "Caos Numerico - Confonde e danneggia gravemente"@,
            BossType::NoBoss => ""@,
        }
    }

    /// The lines that the boss of an archetype speaks as an encounter
    /// begins, in order.
    pub open spec fn dialogue_text(self) -> Seq<Seq<char>> {
        match self {
            BossType::SamosGuardian => seq![
                "Chi osa disturbare l'antica saggezza di Samos?"@,
                "I segreti geometrici non sono per i deboli!"@,
                "Dimostra la tua conoscenza in battaglia!"@,
            ],
            BossType::TyrantOfTyre => seq![
                "Un altro sfidante si presenta davanti al mio trono!"@,
                "Nessuno può sfidare il mio potere a Tiro!"@,
                "Preparati a cadere davanti alla mia ira!"@,
            ],
            BossType::BabylonianSage => seq![
                "Ah, un giovane studioso cerca la conoscenza antica..."@,
                "Ma prima devi dimostrare di essere degno!"@,
                "I misteri di Babilonia non si rivelano facilmente!"@,
            ],
            BossType::FinalBoss => seq![
                "Così... hai raggiunto la fine del tuo viaggio..."@,
                "Io sono tutto ciò che si oppone all'ordine e alla ragione!"@,
                "Preparati ad affrontare il CAOS ASSOLUTO!"@,
            ],
            BossType::NoBoss => Seq::<Seq<char>>::empty(),
        }
    }

    /// The name of the boss of this archetype.
    pub fn name(self) -> (name: &'static str)
        ensures
            name@ == self.name_text(),
    {
        match self {
            BossType::SamosGuardian => "Guardiano di Samos",
            BossType::TyrantOfTyre => "Tiranno di Tiro",
            BossType::BabylonianSage => "Saggio Babilonese",
            BossType::FinalBoss => "Ombra del Caos",
            BossType::NoBoss => "Nessun Boss",
        }
    }

    /// What is told of the boss of this archetype.
    pub fn description(self) -> (description: &'static str)
        ensures
            description@ == self.description_text(),
    {
        match self {
            BossType::SamosGuardian => "Un antico guardiano che protegge i segreti di Samos",
            BossType::TyrantOfTyre => "Un tiranno crudele che governa Tiro con pugno di ferro",
            BossType::BabylonianSage => "Un antico saggio che custodisce i misteri della matematica",
            BossType::FinalBoss => "L'antitesi di tutto ciò che Pitagora rappresenta",
            BossType::NoBoss => "",
        }
    }

    /// What is told of the special attack of this archetype.
    pub fn special_ability(self) -> (ability: &'static str)
        ensures
            ability@ == self.special_ability_text(),
    {
        match self {
            BossType::SamosGuardian => "Scudo Geometrico - Riduce il danno del 50% per 2 turni",
            BossType::TyrantOfTyre => "Ira del Tiranno - Attacco devastante che ignora la difesa",
            BossType::BabylonianSage => "Teorema Antico - Si cura e potenzia i suoi attacchi",
            BossType::FinalBoss => "Caos Numerico - Confonde e danneggia gravemente",
            BossType::NoBoss => "",
        }
    }

    /// The lines that the boss of this archetype speaks as an encounter begins.
    pub fn dialogue(self) -> (spoken: Vec<String>)
        ensures
            lines(spoken@) == self.dialogue_text(),
    {
        let mut spoken: Vec<String> = Vec::new();
        match self {
            BossType::SamosGuardian => {
                spoken.push("Chi osa disturbare l'antica saggezza di Samos?".to_owned());
                spoken.push("I segreti geometrici non sono per i deboli!".to_owned());
                spoken.push("Dimostra la tua conoscenza in battaglia!".to_owned());
            },
            BossType::TyrantOfTyre => {
                spoken.push("Un altro sfidante si presenta davanti al mio trono!".to_owned());
                spoken.push("Nessuno può sfidare il mio potere a Tiro!".to_owned());
                spoken.push("Preparati a cadere davanti alla mia ira!".to_owned());
            },
            BossType::BabylonianSage => {
                spoken.push("Ah, un giovane studioso cerca la conoscenza antica...".to_owned());
                spoken.push("Ma prima devi dimostrare di essere degno!".to_owned());
                spoken.push("I misteri di Babilonia non si rivelano facilmente!".to_owned());
            },
            BossType::FinalBoss => {
                spoken.push("Così... hai raggiunto la fine del tuo viaggio...".to_owned());
                spoken.push(
                    "Io sono tutto ciò che si oppone all'ordine e alla ragione!".to_owned(),
                );
                spoken.push("Preparati ad affrontare il CAOS ASSOLUTO!".to_owned());
            },
            BossType::NoBoss => {},
        }
        spoken
    }
}

impl Places {
    /// The name of a place.
    pub open spec fn name_text(self) -> Seq<char> {
        match self {
            Places::Samos => "Samos"@,
            Places::SabbiaSamos => "Sabbia di Samos"@,
            Places::Tiro => "Tiro"@,
            Places::ColonneTiro => "Colonne di Tiro"@,
            Places::Crotone => "Crotone"@,
            Places::ScuolaCrotone => "Scuola di Crotone"@,
            Places::Babilonia => "Babilonia"@,
            Places::BabiloniaBoss => "Palazzo di Babilonia"@,
            Places::Olimpia => "Olimpia"@,
            Places::Syros => "Syros"@,
            Places::Mileto => "Mileto"@,
        }
    }

    /// The name of the shop of a place.
    pub open spec fn shop_name_text(self) -> Seq<char> {
        match self {
            Places::Samos => "Negozio di Samos"@,
            Places::SabbiaSamos => "Bancarella nella Sabbia di Samos"@,
            Places::Tiro => "Emporio di Tiro"@,
            Places::ColonneTiro => "Mercato delle Colonne di Tiro"@,
            Places::Crotone => "Bottega di Crotone"@,
            Places::ScuolaCrotone => "Spaccio della Scuola di Crotone"@,
            Places::Babilonia => "Mercante Babilonese"@,
            Places::BabiloniaBoss => "Tesori del Boss di Babilonia"@,
            Places::Olimpia => "Bazar Olimpico"@,
            Places::Syros => "Mercato di Syros"@,
            Places::Mileto => "Bottega di Mileto"@,
        }
    }

    /// The boss that waits at a place; `BossType::NoBoss` where none does.
    pub open spec fn resident(self) -> BossType {
        match self {
            Places::SabbiaSamos => BossType::SamosGuardian,
            Places::ColonneTiro => BossType::TyrantOfTyre,
            Places::BabiloniaBoss => BossType::BabylonianSage,
            Places::Olimpia => BossType::FinalBoss,
            _ => BossType::NoBoss,
        }
    }

    /// The name of this place.
    pub fn name(self) -> (name: &'static str)
        ensures
            name@ == self.name_text(),
    {
        match self {
            Places::Samos => "Samos",
            Places::SabbiaSamos => "Sabbia di Samos",
            Places::Tiro => "Tiro",
            Places::ColonneTiro => "Colonne di Tiro",
            Places::Crotone => "Crotone",
            Places::ScuolaCrotone => "Scuola di Crotone",
            Places::Babilonia => "Babilonia",
            Places::BabiloniaBoss => "Palazzo di Babilonia",
            Places::Olimpia => "Olimpia",
            Places::Syros => "Syros",
            Places::Mileto => "Mileto",
        }
    }

    /// The name of the shop of this place.
    pub fn shop_name(self) -> (name: &'static str)
        ensures
            name@ == self.shop_name_text(),
    {
        match self {
            Places::Samos => "Negozio di Samos",
            Places::SabbiaSamos => "Bancarella nella Sabbia di Samos",
            Places::Tiro => "Emporio di Tiro",
            Places::ColonneTiro => "Mercato delle Colonne di Tiro",
            Places::Crotone => "Bottega di Crotone",
            Places::ScuolaCrotone => "Spaccio della Scuola di Crotone",
            Places::Babilonia => "Mercante Babilonese",
            Places::BabiloniaBoss => "Tesori del Boss di Babilonia",
            Places::Olimpia => "Bazar Olimpico",
            Places::Syros => "Mercato di Syros",
            Places::Mileto => "Bottega di Mileto",
        }
    }

    /// The boss that waits at this place, if any. The mapping is one to one:
    /// no two places hold the same boss.
    pub fn boss(self) -> (boss_type: BossType)
        ensures
            boss_type == self.resident(),
    {
        match self {
            Places::SabbiaSamos => BossType::SamosGuardian,
            Places::ColonneTiro => BossType::TyrantOfTyre,
            Places::BabiloniaBoss => BossType::BabylonianSage,
            Places::Olimpia => BossType::FinalBoss,
            _ => BossType::NoBoss,
        }
    }
}

} // verus!
