use phoenix_engine::game::inventory::{
    Equipment, EquipmentSlot, Inventory, InventorySlot, Item, ItemRarity, ItemType,
};

fn potion() -> Item {
    Item::new("health_potion", "Health Potion", ItemType::Consumable)
}

fn slot(inv: &Inventory, i: usize) -> Option<(String, u32)> {
    inv.slots[i].as_ref().map(|s| (s.item_id.clone(), s.quantity))
}

#[test]
fn item_defaults() {
    let item = potion();
    assert_eq!(item.id, "health_potion");
    assert_eq!(item.name, "Health Potion");
    assert_eq!(item.max_stack, 99);
    assert_eq!(item.value, 0);
    assert_eq!(item.rarity, ItemRarity::Common);
    assert!(item.is_stackable());
    let rare = item.with_rarity(ItemRarity::Epic);
    assert_eq!(rare.rarity, ItemRarity::Epic);
    assert_eq!(rare.id, "health_potion");
}

#[test]
fn new_inventory_is_empty() {
    let inv = Inventory::new(4);
    assert_eq!(inv.slots.len(), 4);
    assert_eq!(inv.max_slots, 4);
    assert_eq!(inv.gold, 0);
    assert_eq!(inv.used_slots(), 0);
    assert!(!inv.is_full());
}

#[test]
fn add_tops_up_stacks_then_fills_empty_slots() {
    let mut inv = Inventory::new(3);
    inv.slots[1] = Some(InventorySlot::new("health_potion", 98));
    let left = inv.add_item(&potion(), 3);
    assert_eq!(left, 0);
    assert_eq!(slot(&inv, 0), Some(("health_potion".to_string(), 2)));
    assert_eq!(slot(&inv, 1), Some(("health_potion".to_string(), 99)));
    assert_eq!(slot(&inv, 2), None);
    assert_eq!(inv.count_item("health_potion"), 101);
}

#[test]
fn add_returns_what_does_not_fit() {
    let mut inv = Inventory::new(2);
    let mut gem = Item::new("gem", "Gem", ItemType::Material);
    gem.max_stack = 10;
    assert_eq!(inv.add_item(&gem, 25), 5);
    assert_eq!(inv.count_item("gem"), 20);
    assert!(inv.is_full());
    assert_eq!(inv.add_item(&gem, 1), 1);
}

#[test]
fn unstackable_items_take_one_slot_each() {
    let mut inv = Inventory::new(3);
    let mut sword = Item::new("sword", "Sword", ItemType::Weapon);
    sword.max_stack = 1;
    assert!(!sword.is_stackable());
    assert_eq!(inv.add_item(&sword, 2), 0);
    assert_eq!(inv.used_slots(), 2);
    assert_eq!(slot(&inv, 0), Some(("sword".to_string(), 1)));
    assert_eq!(slot(&inv, 1), Some(("sword".to_string(), 1)));
}

#[test]
fn zero_stack_items_fill_slots_with_nothing() {
    let mut inv = Inventory::new(2);
    let mut ghost = Item::new("ghost", "Ghost", ItemType::KeyItem);
    ghost.max_stack = 0;
    assert_eq!(inv.add_item(&ghost, 3), 3);
    assert_eq!(slot(&inv, 0), Some(("ghost".to_string(), 0)));
    assert_eq!(slot(&inv, 1), Some(("ghost".to_string(), 0)));
    assert!(!inv.has_space_for(&ghost, 1));
    assert!(inv.has_space_for(&ghost, 0));
}

#[test]
fn remove_takes_from_stacks_in_order_and_frees_slots() {
    let mut inv = Inventory::new(3);
    inv.slots[0] = Some(InventorySlot::new("arrow", 2));
    inv.slots[1] = Some(InventorySlot::new("coin", 7));
    inv.slots[2] = Some(InventorySlot::new("arrow", 5));
    assert_eq!(inv.remove_item("arrow", 3), 3);
    assert_eq!(slot(&inv, 0), None);
    assert_eq!(slot(&inv, 1), Some(("coin".to_string(), 7)));
    assert_eq!(slot(&inv, 2), Some(("arrow".to_string(), 4)));
    assert_eq!(inv.remove_item("arrow", 10), 4);
    assert_eq!(inv.count_item("arrow"), 0);
    assert_eq!(inv.used_slots(), 1);
    assert_eq!(inv.remove_item("arrow", 1), 0);
}

#[test]
fn has_item_compares_with_the_count() {
    let mut inv = Inventory::new(2);
    inv.add_item(&potion(), 5);
    assert!(inv.has_item("health_potion", 5));
    assert!(!inv.has_item("health_potion", 6));
    assert!(inv.has_item("elixir", 0));
    assert!(!inv.has_item("elixir", 1));
}

#[test]
fn space_check_agrees_with_adding() {
    let mut gem = Item::new("gem", "Gem", ItemType::Material);
    gem.max_stack = 10;
    for quantity in 0..40u32 {
        let mut inv = Inventory::new(3);
        inv.slots[0] = Some(InventorySlot::new("gem", 6));
        inv.slots[1] = Some(InventorySlot::new("coin", 1));
        let space = inv.has_space_for(&gem, quantity);
        let left = inv.add_item(&gem, quantity);
        assert_eq!(space, left == 0, "quantity {}", quantity);
    }
}

#[test]
fn adding_then_removing_gives_everything_back() {
    let mut inv = Inventory::new(4);
    inv.slots[2] = Some(InventorySlot::new("coin", 3));
    let before = inv.count_item("health_potion");
    assert_eq!(inv.add_item(&potion(), 150), 0);
    assert_eq!(inv.count_item("health_potion"), before + 150);
    assert_eq!(inv.count_item("coin"), 3);
    assert_eq!(inv.remove_item("health_potion", 150), 150);
    assert_eq!(inv.count_item("coin"), 3);
}

#[test]
fn clear_empties_every_slot() {
    let mut inv = Inventory::new(3);
    inv.gold = 12;
    inv.add_item(&potion(), 10);
    inv.clear();
    assert_eq!(inv.slots.len(), 3);
    assert_eq!(inv.used_slots(), 0);
    assert_eq!(inv.count_item("health_potion"), 0);
    assert_eq!(inv.gold, 12);
}

#[test]
fn equipment_swaps_items() {
    let mut eq = Equipment::new();
    assert_eq!(eq.get_equipped(EquipmentSlot::Weapon), None);
    assert_eq!(eq.equip(EquipmentSlot::Weapon, "iron_sword"), None);
    assert_eq!(eq.get_equipped(EquipmentSlot::Weapon), Some("iron_sword"));
    assert_eq!(eq.equip(EquipmentSlot::Weapon, "steel_sword"), Some("iron_sword".to_string()));
    assert_eq!(eq.equip(EquipmentSlot::Head, "helmet"), None);
    assert_eq!(eq.unequip(EquipmentSlot::Weapon), Some("steel_sword".to_string()));
    assert_eq!(eq.get_equipped(EquipmentSlot::Weapon), None);
    assert_eq!(eq.get_equipped(EquipmentSlot::Head), Some("helmet"));
    assert_eq!(eq.unequip(EquipmentSlot::Accessory2), None);
    let d = Equipment::default();
    assert_eq!(d.get_equipped(EquipmentSlot::Body), None);
}

#[test]
fn full_inventory_takes_nothing_new() {
    let mut inv = Inventory::new(2);
    let mut sword = Item::new("sword", "Sword", ItemType::Weapon);
    sword.max_stack = 1;
    let mut unique = Item::new("relic", "Relic", ItemType::KeyItem);
    unique.max_stack = 1;
    assert_eq!(inv.add_item(&sword, 2), 0);
    assert!(inv.is_full());
    assert!(inv.slots.iter().all(|s| s.is_some()));
    assert_eq!(inv.add_item(&unique, 3), 3);
    assert_eq!(inv.count_item("relic"), 0);
    assert!(!inv.has_space_for(&unique, 1));
}
