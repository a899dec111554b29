use pitagora::boss::BossType;
use pitagora::log::{MessageLog, LOG_CAPACITY};
use pitagora::narration;
use pitagora::state::Places;
use pitagora::text::{decimal, join2, join3, join4};

fn texts(log: &MessageLog) -> Vec<String> {
    log.entries().clone()
}

#[test]
fn decimal_writes_numbers() {
    assert_eq!(decimal(0), "0");
    assert_eq!(decimal(7), "7");
    assert_eq!(decimal(9), "9");
    assert_eq!(decimal(10), "10");
    assert_eq!(decimal(30), "30");
    assert_eq!(decimal(105), "105");
    assert_eq!(decimal(1_234_567_890), "1234567890");
    assert_eq!(decimal(u64::MAX), "18446744073709551615");
    for number in 0..2000u64 {
        assert_eq!(decimal(number), number.to_string());
    }
}

#[test]
fn joins_keep_the_order() {
    assert_eq!(join2("a", "b"), "ab");
    assert_eq!(join3("a", "", "c"), "ac");
    assert_eq!(join4("uno ", "due ", "tre ", "quattro"), "uno due tre quattro");
}

#[test]
fn fixed_messages_read_as_written() {
    assert_eq!(narration::welcome(), "Benvenuto nel mondo di Pitagora!");
    assert_eq!(narration::story_started(), "Iniziata la storia di Pitagora!");
    assert_eq!(narration::heal_entered(), "Sei entrato nel centro di guarigione.");
    assert_eq!(narration::shop_entered(), "Benvenuto nel negozio!");
    assert_eq!(narration::battle_started(), "Una battaglia sta per iniziare!");
    assert_eq!(narration::story_second(), "Continui il viaggio di Pitagora...");
    assert_eq!(narration::story_third(), "Il destino di Pitagora si compie...");
    assert_eq!(
        narration::story_complete(),
        "La storia è completa! Ora puoi esplorare liberamente."
    );
}

#[test]
fn battle_messages_carry_names_and_numbers() {
    assert_eq!(
        narration::boss_battle(BossType::SamosGuardian),
        "Boss battle iniziata: Guardiano di Samos!"
    );
    assert_eq!(narration::boss_hit(30), "Hai inflitto 30 danni al boss!");
    assert_eq!(narration::enemy_hit(15), "Hai inflitto 15 danni al nemico!");
    assert_eq!(
        narration::phase_entered(BossType::FinalBoss, 3),
        "Ombra del Caos entra nella fase 3!"
    );
    assert_eq!(
        narration::boss_attack(BossType::TyrantOfTyre, 41),
        "Tiranno di Tiro ti attacca per 41 danni!"
    );
}

#[test]
fn special_messages_differ_by_archetype() {
    assert_eq!(
        narration::special(BossType::SamosGuardian, 38).unwrap(),
        "Guardiano di Samos usa Scudo Geometrico! 38 danni!"
    );
    assert_eq!(
        narration::special(BossType::TyrantOfTyre, 70).unwrap(),
        "Tiranno di Tiro scatena la sua Ira! 70 danni devastanti!"
    );
    assert_eq!(
        narration::special(BossType::BabylonianSage, 0).unwrap(),
        "Saggio Babilonese usa un Teorema Antico! Si rafforza!"
    );
    assert_eq!(
        narration::special(BossType::FinalBoss, 150).unwrap(),
        "Ombra del Caos scatena il Caos Numerico! 150 danni! Sei indebolito!"
    );
    assert!(narration::special(BossType::NoBoss, 0).is_none());
}

#[test]
fn victory_messages_differ_by_archetype() {
    assert_eq!(
        narration::victory(BossType::SamosGuardian).unwrap(),
        "Hai sconfitto il Guardiano di Samos!"
    );
    assert_eq!(narration::victory(BossType::TyrantOfTyre).unwrap(), "Hai liberato Tiro dal tiranno!");
    assert_eq!(
        narration::victory(BossType::BabylonianSage).unwrap(),
        "Hai ottenuto la saggezza babilonese!"
    );
    assert_eq!(
        narration::victory(BossType::FinalBoss).unwrap(),
        "Hai sconfitto il Caos! Sei un vero seguace di Pitagora!"
    );
    assert!(narration::victory(BossType::NoBoss).is_none());
}

#[test]
fn bosses_have_names_and_lines() {
    assert_eq!(BossType::SamosGuardian.name(), "Guardiano di Samos");
    assert_eq!(BossType::TyrantOfTyre.name(), "Tiranno di Tiro");
    assert_eq!(BossType::BabylonianSage.name(), "Saggio Babilonese");
    assert_eq!(BossType::FinalBoss.name(), "Ombra del Caos");
    assert_eq!(BossType::NoBoss.name(), "Nessun Boss");
    assert_eq!(
        BossType::SamosGuardian.description(),
        "Un antico guardiano che protegge i segreti di Samos"
    );
    assert_eq!(BossType::NoBoss.description(), "");
    assert_eq!(
        BossType::TyrantOfTyre.special_ability(),
        "Ira del Tiranno - Attacco devastante che ignora la difesa"
    );
    assert_eq!(BossType::NoBoss.special_ability(), "");
    for boss_type in [
        BossType::SamosGuardian,
        BossType::TyrantOfTyre,
        BossType::BabylonianSage,
        BossType::FinalBoss,
    ] {
        assert_eq!(boss_type.dialogue().len(), 3);
        assert!(!boss_type.description().is_empty());
        assert!(!boss_type.special_ability().is_empty());
    }
    assert_eq!(
        BossType::FinalBoss.dialogue(),
        vec![
            "Così... hai raggiunto la fine del tuo viaggio...".to_string(),
            "Io sono tutto ciò che si oppone all'ordine e alla ragione!".to_string(),
            "Preparati ad affrontare il CAOS ASSOLUTO!".to_string(),
        ]
    );
    assert_eq!(
        BossType::SamosGuardian.dialogue()[0],
        "Chi osa disturbare l'antica saggezza di Samos?"
    );
    assert!(BossType::NoBoss.dialogue().is_empty());
}

#[test]
fn places_have_names_shops_and_bosses() {
    assert_eq!(Places::Samos.name(), "Samos");
    assert_eq!(Places::SabbiaSamos.name(), "Sabbia di Samos");
    assert_eq!(Places::BabiloniaBoss.name(), "Palazzo di Babilonia");
    assert_eq!(Places::Mileto.name(), "Mileto");
    assert_eq!(Places::Samos.shop_name(), "Negozio di Samos");
    assert_eq!(Places::Olimpia.shop_name(), "Bazar Olimpico");
    assert_eq!(Places::Syros.shop_name(), "Mercato di Syros");
    assert_eq!(Places::SabbiaSamos.boss(), BossType::SamosGuardian);
    assert_eq!(Places::ColonneTiro.boss(), BossType::TyrantOfTyre);
    assert_eq!(Places::BabiloniaBoss.boss(), BossType::BabylonianSage);
    assert_eq!(Places::Olimpia.boss(), BossType::FinalBoss);
    for place in [
        Places::Samos,
        Places::Tiro,
        Places::Crotone,
        Places::ScuolaCrotone,
        Places::Babilonia,
        Places::Syros,
        Places::Mileto,
    ] {
        assert_eq!(place.boss(), BossType::NoBoss);
    }
}

#[test]
fn new_log_is_empty() {
    let log = MessageLog::new();
    assert_eq!(log.len(), 0);
    assert!(log.entries().is_empty());
}

#[test]
fn log_keeps_messages_in_order() {
    let mut log = MessageLog::new();
    log.push("uno".to_string());
    log.push("due".to_string());
    log.push("tre".to_string());
    assert_eq!(log.len(), 3);
    assert_eq!(texts(&log), vec!["uno", "due", "tre"]);
}

#[test]
fn log_never_exceeds_ten_and_evicts_the_oldest() {
    assert_eq!(LOG_CAPACITY, 10);
    let mut log = MessageLog::new();
    for number in 0..10u64 {
        log.push(decimal(number));
        assert_eq!(log.len() as u64, number + 1);
    }
    assert_eq!(texts(&log), vec!["0", "1", "2", "3", "4", "5", "6", "7", "8", "9"]);
    log.push("10".to_string());
    assert_eq!(log.len(), 10);
    assert_eq!(texts(&log), vec!["1", "2", "3", "4", "5", "6", "7", "8", "9", "10"]);
    log.push("11".to_string());
    assert_eq!(texts(&log), vec!["2", "3", "4", "5", "6", "7", "8", "9", "10", "11"]);
    for number in 12..500u64 {
        log.push(decimal(number));
        assert_eq!(log.len(), 10);
        assert_eq!(log.entries()[9], decimal(number));
        assert_eq!(log.entries()[0], decimal(number - 9));
    }
}

#[test]
fn log_clone_holds_the_same() {
    let mut log = MessageLog::new();
    log.push("uno".to_string());
    let copy = log.clone();
    log.push("due".to_string());
    assert_eq!(texts(&copy), vec!["uno"]);
    assert_eq!(texts(&log), vec!["uno", "due"]);
}
