use pitagora::app::App;
use pitagora::boss::{Boss, BossType};
use pitagora::chance::Rolls;
use pitagora::fixed::UNIT;
use pitagora::state::{Control, Direction, GameState, Intent, ShopOption};

fn calm() -> Rolls {
    Rolls { mercy: 5, special: false, variance: 1000 }
}

#[test]
fn early_boss_takes_a_forty_damage_attack() {
    let mut boss = Boss::new(BossType::SamosGuardian);
    let dealt = boss.receive_attack(40 * UNIT);
    assert_eq!(dealt, 30 * UNIT);
    assert_eq!(boss.current_health, 170 * UNIT);
    assert_eq!(boss.get_health_percentage(), 85 * UNIT);
    assert!(!boss.should_enter_next_phase());
    assert_eq!(boss.phase, 1);
}

#[test]
fn early_boss_under_half_health_enters_phase_two() {
    let mut app = App::new();
    app.start_boss_battle(BossType::SamosGuardian);
    app.current_boss.current_health = 125 * UNIT;
    app.player.damage = 40 * UNIT;
    let control = app.apply_intent(Intent::Confirm, calm());
    assert_eq!(control, Control::Continue);
    assert_eq!(app.current_boss.current_health, 95 * UNIT);
    assert_eq!(app.current_boss.get_health_percentage(), 47_500);
    assert_eq!(app.current_boss.phase, 2);
    assert_eq!(app.current_boss.damage, 30 * UNIT);
    assert_eq!(app.current_boss.special_attack_cooldown, 2);
}

#[test]
fn ten_attacks_fell_the_generic_enemy() {
    let mut app = App::new();
    app.apply_intent(Intent::StartStory, calm());
    app.apply_intent(Intent::StartBattle, calm());
    assert_eq!(app.game_state, GameState::Battle);
    assert!(!app.is_boss_battle);
    assert_eq!(app.player.damage, 15 * UNIT);
    assert_eq!(app.enemy.health, 150 * UNIT);
    assert_eq!(app.enemy.defense, 0);
    for round in 0..10 {
        assert_eq!(app.game_state, GameState::Battle, "round {}", round);
        app.apply_intent(Intent::Confirm, calm());
    }
    assert_eq!(app.enemy.health, 0);
    assert!(!app.enemy.is_alive);
    assert_eq!(app.game_state, GameState::Story);
    assert_eq!(app.player.health, 910 * UNIT);
}

#[test]
fn mercy_roll_of_five_succeeds() {
    let mut app = App::new();
    app.apply_intent(Intent::StartStory, calm());
    app.apply_intent(Intent::StartBattle, calm());
    for _ in 0..3 {
        app.apply_intent(Intent::Navigate(Direction::Right), calm());
    }
    app.apply_intent(Intent::Confirm, Rolls { mercy: 5, special: false, variance: 1000 });
    assert_eq!(app.game_state, GameState::Mercy);
    assert_eq!(app.mercy_outcome, Some(true));
    app.apply_intent(Intent::Continue, calm());
    assert_eq!(app.game_state, GameState::Story);
    assert_eq!(app.mercy_outcome, None);
}

#[test]
fn selling_the_only_item_empties_the_inventory() {
    let mut app = App::new();
    app.apply_intent(Intent::OpenShop, calm());
    app.apply_intent(Intent::Confirm, calm());
    assert_eq!(app.player.inventory.len(), 1);
    app.apply_intent(Intent::Navigate(Direction::Right), calm());
    assert_eq!(app.player.selected_shop_option, ShopOption::Sell);
    app.apply_intent(Intent::Confirm, calm());
    assert!(app.player.inventory.is_empty());
    app.apply_intent(Intent::Confirm, calm());
    assert!(app.player.inventory.is_empty());
    assert_eq!(app.game_state, GameState::Shop);
}

#[test]
fn inventory_opened_from_the_shop_returns_to_the_shop() {
    let mut app = App::new();
    app.apply_intent(Intent::OpenShop, calm());
    app.apply_intent(Intent::Navigate(Direction::Right), calm());
    app.apply_intent(Intent::Navigate(Direction::Right), calm());
    assert_eq!(app.player.selected_shop_option, ShopOption::Inventory);
    app.apply_intent(Intent::Confirm, calm());
    assert_eq!(app.game_state, GameState::Inventory);
    assert_eq!(app.previous_game_state, Some(GameState::Shop));
    app.apply_intent(Intent::Back, calm());
    assert_eq!(app.game_state, GameState::Shop);
    assert_eq!(app.previous_game_state, None);
}
