use aurelis::equipment::{
    check_socket_index, ensure_gem, item_instance_in_slot, parse_equipment_slot,
    plan_equip_swap, require_equipped, require_unequip_space, swap_target,
    to_equipment_slot_model, validate_catalog_equip_requirements, Catalog, SwapPlan,
};
use aurelis::error::AppError;
use aurelis::models::{
    ArmorData, EquipmentModel, EquipmentSlot, EquipmentSlotModel, GemData, GemSlotConfig,
    InventoryItemModel, InventoryTypeModel, ItemData, ItemKind, PlayableCharacterRow, WeaponData,
};

fn catalog() -> Catalog {
    Catalog {
        items: vec![
            ItemData {
                slug: "kael_training_blade".to_string(),
                kind: ItemKind::Weapon(WeaponData {
                    level_req: 1,
                    class: Some("kael".to_string()),
                    gem_slots: Some(GemSlotConfig { base_slots: 1, max_bonus_slots: 2 }),
                }),
                inventory_type: InventoryTypeModel::Equipment,
            },
            ItemData {
                slug: "kael_squire_chestplate".to_string(),
                kind: ItemKind::Armor(ArmorData {
                    level_req: 5,
                    slot: EquipmentSlot::Chest,
                    gem_slots: None,
                }),
                inventory_type: InventoryTypeModel::Equipment,
            },
            ItemData {
                slug: "ruby".to_string(),
                kind: ItemKind::Gem(GemData { has_modifiers: true, has_effect_rolls: false }),
                inventory_type: InventoryTypeModel::Material,
            },
            ItemData {
                slug: "dull_stone".to_string(),
                kind: ItemKind::Gem(GemData { has_modifiers: false, has_effect_rolls: false }),
                inventory_type: InventoryTypeModel::Material,
            },
            ItemData {
                slug: "potion".to_string(),
                kind: ItemKind::Consumable,
                inventory_type: InventoryTypeModel::Consumable,
            },
        ],
    }
}

fn playable_character(level: i16, base_slug: &str, current_class_slug: &str) -> PlayableCharacterRow {
    PlayableCharacterRow {
        character_id: 0,
        account_id: 0,
        name: "Kaelzinho".to_string(),
        base_character_slug: base_slug.to_string(),
        current_class_slug: current_class_slug.to_string(),
        level,
        experience: 0,
        credits: 0,
        beginner_skill_unlocked: false,
        intermediate_skill_unlocked: false,
    }
}

#[test]
fn validates_equippable_item_requirements_successfully() {
    let catalog = catalog();
    let item = catalog.find_item_by_slug("kael_training_blade").expect("catalog item");
    let character = playable_character(20, "kael", "kael_royal_sentinel");

    let slot = validate_catalog_equip_requirements(item, &character).expect("should equip");

    assert!(matches!(slot, EquipmentSlotModel::Weapon));
}

#[test]
fn rejects_item_when_character_level_is_too_low() {
    let catalog = catalog();
    let item = catalog.find_item_by_slug("kael_training_blade").expect("catalog item");
    let character = playable_character(0, "kael", "kael_royal_sentinel");

    let err = validate_catalog_equip_requirements(item, &character).expect_err("should fail");

    match err {
        AppError::BadRequest(message) => {
            assert!(message.contains("does not meet item requirement"));
        }
        other => panic!("unexpected error: {other:?}"),
    }
}

#[test]
fn rejects_item_when_character_restriction_does_not_match() {
    let catalog = catalog();
    let item = catalog.find_item_by_slug("kael_training_blade").expect("catalog item");
    let character = playable_character(20, "lyra", "lyra_arc_scholar");

    let err = validate_catalog_equip_requirements(item, &character).expect_err("should fail");

    match err {
        AppError::BadRequest(message) => {
            assert!(message.contains("restricted"));
        }
        other => panic!("unexpected error: {other:?}"),
    }
}

#[test]
fn level_error_names_both_levels() {
    let catalog = catalog();
    let item = catalog.find_item_by_slug("kael_squire_chestplate").unwrap();
    let character = playable_character(3, "kael", "kael");
    match validate_catalog_equip_requirements(item, &character) {
        Err(AppError::BadRequest(m)) => {
            assert_eq!(m, "Character level 3 does not meet item requirement 5")
        }
        other => panic!("unexpected: {other:?}"),
    }
}

#[test]
fn restriction_error_names_item_and_class() {
    let catalog = catalog();
    let item = catalog.find_item_by_slug("kael_training_blade").unwrap();
    let character = playable_character(20, "lyra", "lyra_arc_scholar");
    match validate_catalog_equip_requirements(item, &character) {
        Err(AppError::BadRequest(m)) => {
            assert_eq!(m, "Item 'kael_training_blade' is restricted to 'kael'")
        }
        other => panic!("unexpected: {other:?}"),
    }
}

#[test]
fn current_class_satisfies_restriction() {
    let catalog = catalog();
    let item = catalog.find_item_by_slug("kael_training_blade").unwrap();
    let character = playable_character(20, "other", "kael");
    assert!(matches!(
        validate_catalog_equip_requirements(item, &character),
        Ok(EquipmentSlotModel::Weapon)
    ));
}

#[test]
fn armor_goes_to_its_own_slot() {
    let catalog = catalog();
    let item = catalog.find_item_by_slug("kael_squire_chestplate").unwrap();
    let character = playable_character(5, "lyra", "lyra");
    assert!(matches!(
        validate_catalog_equip_requirements(item, &character),
        Ok(EquipmentSlotModel::Chest)
    ));
}

#[test]
fn consumables_are_not_equippable() {
    let catalog = catalog();
    let item = catalog.find_item_by_slug("potion").unwrap();
    let character = playable_character(50, "kael", "kael");
    match validate_catalog_equip_requirements(item, &character) {
        Err(AppError::BadRequest(m)) => assert_eq!(m, "Item is not equippable"),
        other => panic!("unexpected: {other:?}"),
    }
}

#[test]
fn missing_catalog_entry_is_internal() {
    let catalog = catalog();
    assert!(catalog.find_item_by_slug("nope").is_none());
    match catalog.require_item("nope") {
        Err(AppError::Internal(m)) => assert_eq!(m, "Missing catalog item 'nope'"),
        other => panic!("unexpected: {other:?}"),
    }
}

#[test]
fn slot_models_keep_their_names() {
    assert_eq!(to_equipment_slot_model(EquipmentSlot::AccRing2), EquipmentSlotModel::AccRing2);
    assert_eq!(EquipmentSlotModel::AccFaceTop.as_str(), "acc_face_top");
    assert_eq!(EquipmentSlotModel::parse("weapon"), Some(EquipmentSlotModel::Weapon));
    assert_eq!(EquipmentSlotModel::parse("Weapon"), None);
    assert_eq!(InventoryTypeModel::parse("quest_item"), Some(InventoryTypeModel::QuestItem));
    assert_eq!(InventoryTypeModel::Special.as_str(), "special");
}

#[test]
fn invalid_equipment_slot_is_rejected() {
    match parse_equipment_slot("cape") {
        Err(AppError::BadRequest(m)) => assert_eq!(m, "Invalid equipment slot"),
        other => panic!("unexpected: {other:?}"),
    }
    assert!(matches!(parse_equipment_slot("shoes"), Ok(EquipmentSlotModel::Shoes)));
}

#[test]
fn slot_lookups_report_what_is_missing() {
    match item_instance_in_slot(None) {
        Err(AppError::NotFound(m)) => assert_eq!(m, "Inventory slot is empty"),
        other => panic!("unexpected: {other:?}"),
    }
    let stack = InventoryItemModel {
        id: 1,
        inventory_id: 2,
        item_instance_id: None,
        item_id: Some(3),
        slot_index: 0,
        quantity: 5,
    };
    match item_instance_in_slot(Some(stack)) {
        Err(AppError::BadRequest(m)) => assert_eq!(m, "Inventory slot has no item instance"),
        other => panic!("unexpected: {other:?}"),
    }
    let held = InventoryItemModel {
        id: 1,
        inventory_id: 2,
        item_instance_id: Some(9),
        item_id: None,
        slot_index: 4,
        quantity: 1,
    };
    let (slot, id) = item_instance_in_slot(Some(held)).unwrap();
    assert_eq!(id, 9);
    assert_eq!(slot.slot_index, 4);
    match require_equipped(None) {
        Err(AppError::NotFound(m)) => assert_eq!(m, "Equipment slot is empty"),
        other => panic!("unexpected: {other:?}"),
    }
    let worn = EquipmentModel { character_id: 1, slot: EquipmentSlotModel::Head, item_instance_id: 7 };
    assert_eq!(require_equipped(Some(worn)).unwrap().item_instance_id, 7);
    match require_unequip_space(None) {
        Err(AppError::BadRequest(m)) => {
            assert_eq!(m, "No inventory space available to unequip item")
        }
        other => panic!("unexpected: {other:?}"),
    }
    assert_eq!(require_unequip_space(Some(12)).unwrap(), 12);
}

#[test]
fn swap_plans_follow_the_inventories() {
    assert_eq!(plan_equip_swap(false, 1, 2), SwapPlan::NoSwap);
    assert_eq!(plan_equip_swap(true, 1, 1), SwapPlan::ReuseSourceSlot);
    assert_eq!(plan_equip_swap(true, 1, 2), SwapPlan::NeedFreeSlot);
    assert_eq!(swap_target(SwapPlan::NoSwap, 5, 3, None).unwrap(), None);
    assert_eq!(swap_target(SwapPlan::ReuseSourceSlot, 5, 3, None).unwrap(), Some((5, 3)));
    assert_eq!(swap_target(SwapPlan::NeedFreeSlot, 5, 3, Some(8)).unwrap(), Some((5, 8)));
    match swap_target(SwapPlan::NeedFreeSlot, 5, 3, None) {
        Err(AppError::BadRequest(m)) => assert_eq!(m, "No inventory space to unequip current item"),
        other => panic!("unexpected: {other:?}"),
    }
}

#[test]
fn gems_and_sockets_are_checked() {
    let catalog = catalog();
    assert!(ensure_gem(catalog.find_item_by_slug("ruby").unwrap()).is_ok());
    match ensure_gem(catalog.find_item_by_slug("dull_stone").unwrap()) {
        Err(AppError::BadRequest(m)) => assert_eq!(m, "Item is not a gem"),
        other => panic!("unexpected: {other:?}"),
    }
    let blade = catalog.find_item_by_slug("kael_training_blade").unwrap();
    assert!(check_socket_index(blade, 0, 0).is_ok());
    match check_socket_index(blade, 0, 1) {
        Err(AppError::BadRequest(m)) => assert_eq!(m, "Invalid gem socket index"),
        other => panic!("unexpected: {other:?}"),
    }
    // bonus sockets count up to the configured maximum of two
    assert!(check_socket_index(blade, 5, 2).is_ok());
    assert!(check_socket_index(blade, 5, 3).is_err());
    assert!(check_socket_index(blade, -4, -1).is_err());
    let chest = catalog.find_item_by_slug("kael_squire_chestplate").unwrap();
    match check_socket_index(chest, 0, 0) {
        Err(AppError::BadRequest(m)) => assert_eq!(m, "Equipped item does not support gems"),
        other => panic!("unexpected: {other:?}"),
    }
}
