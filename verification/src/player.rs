//! The player: stats, whereabouts, menu highlights and inventory.

use vstd::prelude::*;
use crate::boss::BossType;
use crate::fixed::{percent, percent_of, raise, raised, reduce, reduced, scale, scaled, UNIT};
use crate::item::{health_potion, items, trophy, InventoryItem, ItemView};
use crate::state::{FightOption, Places, ShopOption};

verus! {

/// The cap on the health that healing restores, in thousandths. It is fixed:
/// it does not follow the maximum that the level gives (see `max_health`),
/// with which it agrees at the first level only.
pub const HEAL_CAP: u64 = 100_000;

/// The player. Quantities are in thousandths; factors count `1000` as one.
#[derive(Debug)]
pub struct Player {
    pub health: u64,
    pub damage: u64,
    pub defense: u64,
    pub level: u32,
    pub xp: u64,
    pub xp_factor: u64,
    pub heal_value: u64,
    pub heal_factor: u64,
    pub strength: u64,
    pub place: Places,
    pub inventory: Vec<InventoryItem>,
    pub selected_fight_option: FightOption,
    pub selected_shop_option: ShopOption,
}

/// What a player holds.
pub struct PlayerView {
    pub health: u64,
    pub damage: u64,
    pub defense: u64,
    pub level: u32,
    pub xp: u64,
    pub xp_factor: u64,
    pub heal_value: u64,
    pub heal_factor: u64,
    pub strength: u64,
    pub place: Places,
    pub inventory: Seq<ItemView>,
    pub selected_fight_option: FightOption,
    pub selected_shop_option: ShopOption,
}

impl View for Player {
    type V = PlayerView;

    open spec fn view(&self) -> PlayerView {
        PlayerView {
            health: self.health,
            damage: self.damage,
            defense: self.defense,
            level: self.level,
            xp: self.xp,
            xp_factor: self.xp_factor,
            heal_value: self.heal_value,
            heal_factor: self.heal_factor,
            strength: self.strength,
            place: self.place,
            inventory: items(self.inventory@),
            selected_fight_option: self.selected_fight_option,
            selected_shop_option: self.selected_shop_option,
        }
    }
}

impl Clone for Player {
    /// A copy that holds the same.
    fn clone(&self) -> (copy: Player)
        ensures
            copy@ == self@,
    {
        let copy = Player {
            health: self.health,
            damage: self.damage,
            defense: self.defense,
            level: self.level,
            xp: self.xp,
            xp_factor: self.xp_factor,
            heal_value: self.heal_value,
            heal_factor: self.heal_factor,
            strength: self.strength,
            place: self.place,
            inventory: self.inventory.clone(),
            selected_fight_option: self.selected_fight_option,
            selected_shop_option: self.selected_shop_option,
        };
        assert(copy@.inventory =~= self@.inventory);
        copy
    }
}

/// The maximum health that a level gives: a hundred points at the first
/// level and twenty more with every further one, in thousandths.
pub open spec fn level_health(level: u32) -> u64 {
    ((100 + (level - 1) * 20) * 1000) as u64
}

impl PlayerView {
    /// The player as a new game begins.
    pub open spec fn fresh() -> PlayerView {
        PlayerView {
            health: 1_000_000,
            damage: 15_000,
            defense: 5_000,
            level: 1,
            xp: 0,
            xp_factor: 1_000,
            heal_value: 20_000,
            heal_factor: 1_000,
            strength: 1_000,
            place: Places::Samos,
            inventory: Seq::<ItemView>::empty(),
            selected_fight_option: FightOption::Attack,
            selected_shop_option: ShopOption::Buy,
        }
    }

    /// The player after taking `amount` of damage.
    pub open spec fn hurt(self, amount: u64) -> PlayerView {
        PlayerView { health: reduced(self.health, amount), ..self }
    }

    /// The player whose attack damage was multiplied by a factor in permille.
    pub open spec fn weakened(self, permille: u32) -> PlayerView {
        PlayerView { damage: scaled(self.damage, permille), ..self }
    }

    /// The player after healing: a fifth more health, up to `HEAL_CAP`.
    pub open spec fn healed(self) -> PlayerView {
        let grown = scaled(self.health, 1200);
        PlayerView { health: if grown > HEAL_CAP { HEAL_CAP } else { grown }, ..self }
    }

    /// The player after buying: the shop's consumable comes last in the inventory.
    pub open spec fn bought(self) -> PlayerView {
        PlayerView { inventory: self.inventory.push(health_potion()), ..self }
    }

    /// The player after selling: the item that came last is gone; nothing
    /// changes where the inventory is empty.
    pub open spec fn sold(self) -> PlayerView {
        if self.inventory.len() > 0 {
            PlayerView { inventory: self.inventory.drop_last(), ..self }
        } else {
            self
        }
    }

    /// The player with the spoils of a victory over the boss of an archetype,
    /// the trophy apart.
    pub open spec fn strengthened(self, boss_type: BossType) -> PlayerView {
        match boss_type {
            BossType::SamosGuardian => PlayerView { xp: raised(self.xp, 100_000), ..self },
            BossType::TyrantOfTyre => PlayerView {
                xp: raised(self.xp, 200_000),
                damage: raised(self.damage, 5_000),
                ..self
            },
            BossType::BabylonianSage => PlayerView {
                xp: raised(self.xp, 300_000),
                heal_factor: raised(self.heal_factor, 500),
                ..self
            },
            BossType::FinalBoss => PlayerView {
                xp: raised(self.xp, 500_000),
                level: if self.level < u32::MAX {
                    (self.level + 1) as u32
                } else {
                    self.level
                },
                ..self
            },
            BossType::NoBoss => self,
        }
    }

    /// The player after a victory over the boss of an archetype: stronger,
    /// and with the trophy last in the inventory.
    pub open spec fn rewarded(self, boss_type: BossType) -> PlayerView {
        let stronger = self.strengthened(boss_type);
        match trophy(boss_type) {
            Some(item) => PlayerView { inventory: self.inventory.push(item), ..stronger },
            None => stronger,
        }
    }
}

impl Player {
    /// Creates the player of a new game.
    pub fn new() -> (player: Player)
        ensures
            player@ == PlayerView::fresh(),
    {
        let player = Player {
            health: 1000 * UNIT,
            damage: 15 * UNIT,
            defense: 5 * UNIT,
            level: 1,
            xp: 0,
            xp_factor: 1_000,
            heal_value: 20 * UNIT,
            heal_factor: 1_000,
            strength: 1_000,
            place: Places::Samos,
            inventory: Vec::new(),
            selected_fight_option: FightOption::Attack,
            selected_shop_option: ShopOption::Buy,
        };
        assert(player@.inventory =~= Seq::<ItemView>::empty());
        player
    }

    /// The maximum health that the level of the player gives.
    pub fn max_health(&self) -> (health: u64)
        ensures
            health == level_health(self.level),
            health == (100 + (self.level - 1) * 20) * UNIT,
    {
        let level: u64 = self.level as u64;
        (80 + 20 * level) * UNIT
    }

    /// The health of the player as a share of the maximum that the level
    /// gives, in thousandths of a percent, rounded down.
    pub fn health_percentage(&self) -> (share: u64)
        ensures
            share == percent(self.health, level_health(self.level)),
    {
        percent_of(self.health, self.max_health())
    }

    /// Whether the player has no health left.
    pub fn is_defeated(&self) -> (defeated: bool)
        ensures
            defeated == (self.health == 0),
    {
        self.health == 0
    }

    /// Takes `amount` of damage. No defense is applied: what the player
    /// suffers is what the attacker deals.
    pub fn take_damage(&mut self, amount: u64)
        ensures
            final(self)@ == old(self)@.hurt(amount),
            final(self).health <= old(self).health,
    {
        self.health = reduce(self.health, amount);
    }

    /// Multiplies the attack damage by a factor in permille.
    pub fn weaken(&mut self, permille: u32)
        ensures
            final(self)@ == old(self)@.weakened(permille),
    {
        self.damage = scale(self.damage, permille);
    }

    /// Heals: the health grows by a fifth, up to `HEAL_CAP`.
    pub fn heal(&mut self)
        ensures
            final(self)@ == old(self)@.healed(),
            final(self).health <= HEAL_CAP,
            old(self).health <= HEAL_CAP ==> final(self).health >= old(self).health,
    {
        let grown = scale(self.health, 1200);
        self.health = if grown > HEAL_CAP {
            HEAL_CAP
        } else {
            grown
        };
    }

    /// Buys the shop's consumable.
    pub fn buy(&mut self)
        ensures
            final(self)@ == old(self)@.bought(),
    {
        self.inventory.push(InventoryItem::potion());
        assert(self@.inventory =~= old(self)@.inventory.push(health_potion()));
    }

    /// Sells the item that was added last, if there is one.
    pub fn sell(&mut self)
        ensures
            final(self)@ == old(self)@.sold(),
    {
        if self.inventory.len() > 0 {
            self.inventory.pop();
            assert(self@.inventory =~= old(self)@.inventory.drop_last());
        }
    }

    /// Takes the spoils of a victory over the boss of an archetype.
    pub fn claim_reward(&mut self, boss_type: BossType)
        ensures
            final(self)@ == old(self)@.rewarded(boss_type),
    {
        match boss_type {
            BossType::SamosGuardian => {
                self.xp = raise(self.xp, 100 * UNIT);
            },
            BossType::TyrantOfTyre => {
                self.xp = raise(self.xp, 200 * UNIT);
                self.damage = raise(self.damage, 5 * UNIT);
            },
            BossType::BabylonianSage => {
                self.xp = raise(self.xp, 300 * UNIT);
                self.heal_factor = raise(self.heal_factor, 500);
            },
            BossType::FinalBoss => {
                self.xp = raise(self.xp, 500 * UNIT);
                if self.level < u32::MAX {
                    self.level += 1;
                }
            },
            BossType::NoBoss => {},
        }
        match InventoryItem::reward(boss_type) {
            Some(item) => {
                self.inventory.push(item);
                assert(self@.inventory =~= old(self)@.inventory.push(item@));
            },
            None => {},
        }
    }
}

} // verus!
