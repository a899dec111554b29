use pitagora::boss::BossType;
use pitagora::enemy::Enemy;
use pitagora::fixed::UNIT;
use pitagora::item::InventoryItem;
use pitagora::player::{Player, HEAL_CAP};
use pitagora::state::{FightOption, Places, ShopOption};

#[test]
fn player_begins_with_its_stats() {
    let player = Player::new();
    assert_eq!(player.health, 1000 * UNIT);
    assert_eq!(player.damage, 15 * UNIT);
    assert_eq!(player.defense, 5 * UNIT);
    assert_eq!(player.level, 1);
    assert_eq!(player.xp, 0);
    assert_eq!(player.xp_factor, 1000);
    assert_eq!(player.heal_value, 20 * UNIT);
    assert_eq!(player.heal_factor, 1000);
    assert_eq!(player.strength, 1000);
    assert_eq!(player.place, Places::Samos);
    assert!(player.inventory.is_empty());
    assert_eq!(player.selected_fight_option, FightOption::Attack);
    assert_eq!(player.selected_shop_option, ShopOption::Buy);
}

#[test]
fn maximum_health_follows_the_level() {
    let mut player = Player::new();
    assert_eq!(player.max_health(), 100 * UNIT);
    player.level = 2;
    assert_eq!(player.max_health(), 120 * UNIT);
    player.level = 6;
    assert_eq!(player.max_health(), 200 * UNIT);
    player.level = 0;
    assert_eq!(player.max_health(), 80 * UNIT);
    player.level = u32::MAX;
    assert_eq!(player.max_health(), (100 + (u32::MAX as u64 - 1) * 20) * UNIT);
}

#[test]
fn player_health_percentage_is_measured_against_the_level() {
    let mut player = Player::new();
    assert_eq!(player.health_percentage(), 1000 * UNIT);
    player.health = 50 * UNIT;
    assert_eq!(player.health_percentage(), 50 * UNIT);
    player.level = 2;
    assert_eq!(player.health_percentage(), 41_666);
}

#[test]
fn healing_adds_a_fifth() {
    let mut player = Player::new();
    player.health = 50 * UNIT;
    player.heal();
    assert_eq!(player.health, 60 * UNIT);
    player.heal();
    assert_eq!(player.health, 72 * UNIT);
    player.health = 0;
    player.heal();
    assert_eq!(player.health, 0);
}

#[test]
fn healing_stops_at_a_hundred() {
    assert_eq!(HEAL_CAP, 100 * UNIT);
    let mut player = Player::new();
    player.health = 90 * UNIT;
    player.heal();
    assert_eq!(player.health, 100 * UNIT);
    player.heal();
    assert_eq!(player.health, 100 * UNIT);
    player.health = 83_334;
    player.heal();
    assert_eq!(player.health, 100 * UNIT);
    player.health = 83_333;
    player.heal();
    assert_eq!(player.health, 99_999);
}

#[test]
fn healing_cap_ignores_the_level() {
    let mut player = Player::new();
    player.level = 5;
    assert_eq!(player.max_health(), 180 * UNIT);
    player.health = 150 * UNIT;
    player.heal();
    assert_eq!(player.health, 100 * UNIT);
    let mut player = Player::new();
    assert_eq!(player.health, 1000 * UNIT);
    player.heal();
    assert_eq!(player.health, 100 * UNIT);
    player.health = u64::MAX;
    player.heal();
    assert_eq!(player.health, 100 * UNIT);
}

#[test]
fn damage_comes_off_the_health_of_the_player() {
    let mut player = Player::new();
    player.take_damage(37_500);
    assert_eq!(player.health, 962_500);
    assert!(!player.is_defeated());
    player.take_damage(962_499);
    assert_eq!(player.health, 1);
    assert!(!player.is_defeated());
    player.take_damage(2);
    assert_eq!(player.health, 0);
    assert!(player.is_defeated());
}

#[test]
fn weakening_stacks() {
    let mut player = Player::new();
    player.weaken(900);
    assert_eq!(player.damage, 13_500);
    player.weaken(900);
    assert_eq!(player.damage, 12_150);
    player.weaken(900);
    assert_eq!(player.damage, 10_935);
    player.weaken(900);
    assert_eq!(player.damage, 9_841);
    player.weaken(1000);
    assert_eq!(player.damage, 9_841);
}

#[test]
fn buying_appends_a_potion() {
    let mut player = Player::new();
    player.buy();
    assert_eq!(player.inventory, vec![InventoryItem::potion()]);
    let potion = &player.inventory[0];
    assert_eq!(potion.name, "Pozione della Salute");
    assert_eq!(potion.quantity, 1);
    assert!(potion.usable);
    assert_eq!(potion.value, 0);
    assert_eq!(potion.description, "");
    player.buy();
    assert_eq!(player.inventory.len(), 2);
}

#[test]
fn selling_removes_the_latest_item() {
    let mut player = Player::new();
    player.claim_reward(BossType::SamosGuardian);
    player.buy();
    player.claim_reward(BossType::FinalBoss);
    assert_eq!(player.inventory.len(), 3);
    player.sell();
    assert_eq!(player.inventory.len(), 2);
    assert_eq!(player.inventory[0].name, "Geometric Fragment");
    assert_eq!(player.inventory[1].name, "Pozione della Salute");
    player.sell();
    assert_eq!(player.inventory.len(), 1);
    assert_eq!(player.inventory[0].name, "Geometric Fragment");
    player.sell();
    assert!(player.inventory.is_empty());
}

#[test]
fn selling_from_an_empty_inventory_changes_nothing() {
    let mut player = Player::new();
    player.sell();
    assert!(player.inventory.is_empty());
    assert_eq!(player.health, 1000 * UNIT);
    assert_eq!(player.xp, 0);
}

#[test]
fn early_boss_rewards_experience_and_a_fragment() {
    let mut player = Player::new();
    player.claim_reward(BossType::SamosGuardian);
    assert_eq!(player.xp, 100 * UNIT);
    assert_eq!(player.damage, 15 * UNIT);
    assert_eq!(player.heal_factor, 1000);
    assert_eq!(player.level, 1);
    assert_eq!(player.inventory.len(), 1);
    assert_eq!(player.inventory[0].name, "Geometric Fragment");
    assert_eq!(player.inventory[0].quantity, 1);
    assert!(!player.inventory[0].usable);
}

#[test]
fn mid_boss_rewards_attack_and_a_crown() {
    let mut player = Player::new();
    player.claim_reward(BossType::TyrantOfTyre);
    assert_eq!(player.xp, 200 * UNIT);
    assert_eq!(player.damage, 20 * UNIT);
    assert_eq!(player.heal_factor, 1000);
    assert_eq!(player.level, 1);
    assert_eq!(player.inventory.len(), 1);
    assert_eq!(player.inventory[0].name, "Tyrant's Crown");
}

#[test]
fn late_boss_rewards_healing_and_a_tablet() {
    let mut player = Player::new();
    player.claim_reward(BossType::BabylonianSage);
    assert_eq!(player.xp, 300 * UNIT);
    assert_eq!(player.damage, 15 * UNIT);
    assert_eq!(player.heal_factor, 1500);
    assert_eq!(player.level, 1);
    assert_eq!(player.inventory.len(), 1);
    assert_eq!(player.inventory[0].name, "Ancient Babylonian Tablet");
}

#[test]
fn final_boss_rewards_a_level_and_a_crystal() {
    let mut player = Player::new();
    player.claim_reward(BossType::FinalBoss);
    assert_eq!(player.xp, 500 * UNIT);
    assert_eq!(player.damage, 15 * UNIT);
    assert_eq!(player.heal_factor, 1000);
    assert_eq!(player.level, 2);
    assert_eq!(player.inventory.len(), 1);
    assert_eq!(player.inventory[0].name, "Crystal of Order");
    assert_eq!(player.max_health(), 120 * UNIT);
}

#[test]
fn absent_boss_rewards_nothing() {
    let mut player = Player::new();
    player.claim_reward(BossType::NoBoss);
    assert_eq!(player.xp, 0);
    assert_eq!(player.level, 1);
    assert!(player.inventory.is_empty());
    assert!(InventoryItem::reward(BossType::NoBoss).is_none());
}

#[test]
fn rewards_add_up_and_saturate() {
    let mut player = Player::new();
    player.claim_reward(BossType::SamosGuardian);
    player.claim_reward(BossType::TyrantOfTyre);
    player.claim_reward(BossType::BabylonianSage);
    player.claim_reward(BossType::FinalBoss);
    assert_eq!(player.xp, 1100 * UNIT);
    assert_eq!(player.inventory.len(), 4);
    player.xp = u64::MAX - 5;
    player.level = u32::MAX;
    player.claim_reward(BossType::FinalBoss);
    assert_eq!(player.xp, u64::MAX);
    assert_eq!(player.level, u32::MAX);
}

#[test]
fn items_are_made_as_single_pieces() {
    let item = InventoryItem::new("Lira", true);
    assert_eq!(
        item,
        InventoryItem {
            name: "Lira".to_string(),
            quantity: 1,
            description: String::new(),
            usable: true,
            value: 0,
        }
    );
    assert_eq!(item.clone(), item);
    let reward = InventoryItem::reward(BossType::TyrantOfTyre);
    assert_eq!(reward, Some(InventoryItem::new("Tyrant's Crown", false)));
}

#[test]
fn player_clone_holds_the_same() {
    let mut player = Player::new();
    player.buy();
    player.claim_reward(BossType::FinalBoss);
    let copy = player.clone();
    assert_eq!(copy.inventory, player.inventory);
    assert_eq!(copy.xp, player.xp);
    assert_eq!(copy.level, 2);
}

#[test]
fn enemy_begins_an_encounter_alive() {
    let enemy = Enemy::new();
    assert_eq!(enemy.health, 150 * UNIT);
    assert_eq!(enemy.damage, 10 * UNIT);
    assert_eq!(enemy.defense, 0);
    assert_eq!(enemy.strength, 1100);
    assert_eq!(enemy.strength_factor, 0);
    assert_eq!(enemy.heal, 15 * UNIT);
    assert!(enemy.is_alive);
}

#[test]
fn enemy_dies_without_health() {
    let mut enemy = Enemy::new();
    assert_eq!(enemy.receive_attack(15 * UNIT), 15 * UNIT);
    assert_eq!(enemy.health, 135 * UNIT);
    assert!(enemy.is_alive);
    assert_eq!(enemy.receive_attack(134_999), 134_999);
    assert_eq!(enemy.health, 1);
    assert!(enemy.is_alive);
    assert_eq!(enemy.receive_attack(0), UNIT);
    assert_eq!(enemy.health, 0);
    assert!(!enemy.is_alive);
    assert_eq!(enemy.receive_attack(5 * UNIT), 5 * UNIT);
    assert_eq!(enemy.health, 0);
    assert!(!enemy.is_alive);
}

#[test]
fn enemy_defense_counts_against_the_attack() {
    let mut enemy = Enemy { defense: 4 * UNIT, ..Enemy::new() };
    assert_eq!(enemy.receive_attack(15 * UNIT), 11 * UNIT);
    assert_eq!(enemy.health, 139 * UNIT);
}
