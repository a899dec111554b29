//! The things a player carries.

use vstd::prelude::*;
use crate::boss::BossType;

verus! {

/// An entry of the inventory.
#[derive(Debug, PartialEq, Eq)]
pub struct InventoryItem {
    pub name: String,
    pub quantity: u32,
    pub description: String,
    pub usable: bool,
    pub value: u32,
}

/// What an inventory entry holds.
pub struct ItemView {
    pub name: Seq<char>,
    pub quantity: u32,
    pub description: Seq<char>,
    pub usable: bool,
    pub value: u32,
}

impl View for InventoryItem {
    type V = ItemView;

    open spec fn view(&self) -> ItemView {
        ItemView {
            name: self.name@,
            quantity: self.quantity,
            description: self.description@,
            usable: self.usable,
            value: self.value,
        }
    }
}

impl Clone for InventoryItem {
    /// A copy that holds the same.
    fn clone(&self) -> (copy: InventoryItem)
        ensures
            copy@ == self@,
    {
        InventoryItem {
            name: self.name.clone(),
            quantity: self.quantity,
            description: self.description.clone(),
            usable: self.usable,
            value: self.value,
        }
    }
}

/// What a sequence of inventory entries holds.
pub open spec fn items(entries: Seq<InventoryItem>) -> Seq<ItemView> {
    entries.map_values(|entry: InventoryItem| entry@)
}

/// A single piece with the given name, without description or worth.
pub open spec fn single(name: Seq<char>, usable: bool) -> ItemView {
    ItemView { name, quantity: 1, description: Seq::<char>::empty(), usable, value: 0 }
}

/// The consumable that the shop sells.
pub open spec fn health_potion() -> ItemView {
    single("Pozione della Salute"@, true)
}

/// The name of the trophy that the boss of an archetype leaves behind.
pub open spec fn trophy_name(boss_type: BossType) -> Seq<char> {
    match boss_type {
        BossType::SamosGuardian => "Geometric Fragment"@,
        BossType::TyrantOfTyre => "Tyrant's Crown"@,
        BossType::BabylonianSage => "Ancient Babylonian Tablet"@,
        BossType::FinalBoss => "Crystal of Order"@,
        BossType::NoBoss => Seq::<char>::empty(),
    }
}

/// The trophy that the boss of an archetype leaves behind; the absent boss
/// leaves none.
pub open spec fn trophy(boss_type: BossType) -> Option<ItemView> {
    match boss_type {
        BossType::NoBoss => None,
        _ => Some(single(trophy_name(boss_type), false)),
    }
}

impl InventoryItem {
    /// Creates a single piece with the given name, without description or worth.
    pub fn new(name: &str, usable: bool) -> (item: InventoryItem)
        ensures
            item@ == single(name@, usable),
    {
        InventoryItem {
            name: name.to_owned(),
            quantity: 1,
            description: String::new(),
            usable,
            value: 0,
        }
    }

    /// Creates the consumable that the shop sells.
    pub fn potion() -> (item: InventoryItem)
        ensures
            item@ == health_potion(),
    {
        InventoryItem::new("Pozione della Salute", true)
    }

    /// Creates the trophy that the boss of an archetype leaves behind.
    pub fn reward(boss_type: BossType) -> (item: Option<InventoryItem>)
        ensures
            item is Some <==> boss_type != BossType::NoBoss,
            match item {
                Some(found) => Some(found@) == trophy(boss_type),
                None => trophy(boss_type) is None,
            },
    {
        match boss_type {
            BossType::SamosGuardian => Some(InventoryItem::new("Geometric Fragment", false)),
            BossType::TyrantOfTyre => Some(InventoryItem::new("Tyrant's Crown", false)),
            BossType::BabylonianSage => Some(
                InventoryItem::new("Ancient Babylonian Tablet", false),
            ),
            BossType::FinalBoss => Some(InventoryItem::new("Crystal of Order", false)),
            BossType::NoBoss => None,
        }
    }
}

} // verus!
