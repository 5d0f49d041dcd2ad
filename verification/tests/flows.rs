use aurelis::equip_flow::{EquipNext, EquipRequest};
use aurelis::equipment::Catalog;
use aurelis::error::{AppError, RepositoryError};
use aurelis::give_flow::{GiveItemAction, GiveItemRequest};
use aurelis::load_flow::LoadRequest;
use aurelis::models::{
    AccountModel, ArmorData, EquipmentModel, EquipmentSlot, EquipmentSlotModel, GemData,
    GemSlotConfig, InventoryItemModel, InventoryModel, InventoryTypeModel, ItemData,
    ItemInstanceGemModel, ItemInstanceModel, ItemKind, ItemModel, JsonAttributes,
    PlayableCharacterRow, PlayerCharacterModel, WeaponData,
};
use aurelis::socket_flow::{catalog_sockets_checked, socket_gem_start};
use aurelis::unequip_flow::unequip_start;
use aurelis::character::{starting_inventories, NewInventory};

const CHARACTER: u128 = 7;
const EQUIPMENT_INV: u128 = 100;
const MATERIAL_INV: u128 = 200;

fn catalog() -> Catalog {
    Catalog {
        items: vec![
            ItemData {
                slug: "kael_training_blade".to_string(),
                kind: ItemKind::Weapon(WeaponData {
                    level_req: 1,
                    class: Some("kael".to_string()),
                    gem_slots: Some(GemSlotConfig { base_slots: 1, max_bonus_slots: 2 }),
                }),
                inventory_type: InventoryTypeModel::Equipment,
            },
            ItemData {
                slug: "kael_squire_chestplate".to_string(),
                kind: ItemKind::Armor(ArmorData { level_req: 5, slot: EquipmentSlot::Chest, gem_slots: None }),
                inventory_type: InventoryTypeModel::Equipment,
            },
            ItemData {
                slug: "ruby".to_string(),
                kind: ItemKind::Gem(GemData { has_modifiers: true, has_effect_rolls: false }),
                inventory_type: InventoryTypeModel::Material,
            },
        ],
    }
}

fn row(level: i16) -> PlayableCharacterRow {
    PlayableCharacterRow {
        character_id: CHARACTER,
        account_id: 1,
        name: "Kael".to_string(),
        base_character_slug: "kael".to_string(),
        current_class_slug: "kael_royal_sentinel".to_string(),
        level,
        experience: 0,
        credits: 0,
        beginner_skill_unlocked: false,
        intermediate_skill_unlocked: false,
    }
}

fn inventory(id: u128, kind: InventoryTypeModel) -> InventoryModel {
    InventoryModel { id, character_id: CHARACTER, inventory_type: kind, capacity: 56 }
}

fn slot(inventory_id: u128, index: i16, instance: Option<u128>) -> InventoryItemModel {
    InventoryItemModel { id: 9000 + index as u128, inventory_id, item_instance_id: instance, item_id: None, slot_index: index, quantity: 1 }
}

fn instance(id: u128, item_id: u128, bonus: i16) -> ItemInstanceModel {
    ItemInstanceModel {
        id,
        item_id,
        refinement: 0,
        bonus_gem_slots: bonus,
        attributes: JsonAttributes::Encoded("{}".to_string()),
        in_shared_storage: false,
        in_trade: false,
        owner_character_id: Some(CHARACTER),
    }
}

fn item(id: u128, slug: &str, kind: InventoryTypeModel, max_stack: i16) -> ItemModel {
    ItemModel { id, slug: slug.to_string(), inventory_type: kind, max_stack, created_at: 0 }
}

#[test]
fn socketing_walks_through_every_read() {
    let catalog = catalog();
    assert!(catalog_sockets_checked(&catalog));
    let t = socket_gem_start(CHARACTER, "weapon", "material".to_string(), 4, 1)
        .and_then(|s| s.equipped_found(Ok(Some(EquipmentModel {
            character_id: CHARACTER,
            slot: EquipmentSlotModel::Weapon,
            item_instance_id: 501,
        }))))
        .and_then(|s| s.inventory_found(Ok(inventory(MATERIAL_INV, InventoryTypeModel::Material))))
        .and_then(|s| s.slot_found(Ok(Some(slot(MATERIAL_INV, 4, Some(777))))))
        .and_then(|s| s.gem_instance_found(Ok(instance(777, 3, 0))))
        .and_then(|s| s.gem_item_found(Ok(item(3, "ruby", InventoryTypeModel::Material, 1)), &catalog))
        .and_then(|s| s.equipment_instance_found(Ok(instance(501, 1, 5))))
        .and_then(|s| s.equipment_item_found(Ok(item(1, "kael_training_blade", InventoryTypeModel::Equipment, 1)), &catalog))
        .expect("socketing should go through");
    assert_eq!(
        (t.source_inventory_id, t.source_slot_index, t.item_instance_id, t.socket_index, t.gem_instance_id),
        (MATERIAL_INV, 4, 501, 1, 777)
    );
}

#[test]
fn socketing_stops_at_the_first_failure() {
    let catalog = catalog();
    assert!(matches!(socket_gem_start(CHARACTER, "tail", String::new(), 0, 0), Err(AppError::BadRequest(_))));
    let r = socket_gem_start(CHARACTER, "weapon", "material".to_string(), 4, 0)
        .and_then(|s| s.equipped_found(Ok(None)));
    assert!(matches!(r, Err(AppError::NotFound(ref m)) if m == "Equipment slot is empty"));
    let r = socket_gem_start(CHARACTER, "weapon", "material".to_string(), 4, 0)
        .and_then(|s| s.equipped_found(Err(RepositoryError::Database("down".to_string()))));
    assert!(matches!(r, Err(AppError::Internal(ref m)) if m == "Database error: down"));
    let r = socket_gem_start(CHARACTER, "weapon", "material".to_string(), 4, 0)
        .and_then(|s| s.equipped_found(Ok(Some(EquipmentModel { character_id: CHARACTER, slot: EquipmentSlotModel::Weapon, item_instance_id: 501 }))))
        .and_then(|s| s.inventory_found(Ok(inventory(MATERIAL_INV, InventoryTypeModel::Material))))
        .and_then(|s| s.slot_found(Ok(Some(slot(MATERIAL_INV, 4, Some(777))))))
        .and_then(|s| s.gem_instance_found(Ok(instance(777, 2, 0))))
        .and_then(|s| s.gem_item_found(Ok(item(2, "kael_squire_chestplate", InventoryTypeModel::Equipment, 1)), &catalog));
    assert!(matches!(r, Err(AppError::BadRequest(ref m)) if m == "Item is not a gem"));
    let r = socket_gem_start(CHARACTER, "weapon", "material".to_string(), 4, 3)
        .and_then(|s| s.equipped_found(Ok(Some(EquipmentModel { character_id: CHARACTER, slot: EquipmentSlotModel::Weapon, item_instance_id: 501 }))))
        .and_then(|s| s.inventory_found(Ok(inventory(MATERIAL_INV, InventoryTypeModel::Material))))
        .and_then(|s| s.slot_found(Ok(Some(slot(MATERIAL_INV, 4, Some(777))))))
        .and_then(|s| s.gem_instance_found(Ok(instance(777, 3, 0))))
        .and_then(|s| s.gem_item_found(Ok(item(3, "ruby", InventoryTypeModel::Material, 1)), &catalog))
        .and_then(|s| s.equipment_instance_found(Ok(instance(501, 1, 1))))
        .and_then(|s| s.equipment_item_found(Ok(item(1, "kael_training_blade", InventoryTypeModel::Equipment, 1)), &catalog));
    assert!(matches!(r, Err(AppError::BadRequest(ref m)) if m == "Invalid gem socket index"));
}

fn equip_until_swap(equipped: Option<u128>, swap_inventory: InventoryModel) -> Result<EquipNext, AppError> {
    let catalog = catalog();
    EquipRequest::new(CHARACTER, "equipment".to_string(), 3)
        .character_found(Ok(row(20)))
        .and_then(|s| s.inventory_found(Ok(inventory(EQUIPMENT_INV, InventoryTypeModel::Equipment))))
        .and_then(|s| s.slot_found(Ok(Some(slot(EQUIPMENT_INV, 3, Some(601))))))
        .and_then(|s| s.instance_found(Ok(instance(601, 1, 0))))
        .and_then(|s| s.item_found(Ok(item(1, "kael_training_blade", InventoryTypeModel::Equipment, 1)), &catalog))
        .and_then(|s| s.equipped_found(Ok(equipped.map(|id| EquipmentModel {
            character_id: CHARACTER,
            slot: EquipmentSlotModel::Weapon,
            item_instance_id: id,
        }))))
        .and_then(|s| s.swap_inventory_found(Ok(swap_inventory)))
}

#[test]
fn equipping_plans_where_a_displaced_item_goes() {
    match equip_until_swap(None, inventory(EQUIPMENT_INV, InventoryTypeModel::Equipment)) {
        Ok(EquipNext::Transaction(t)) => {
            assert_eq!((t.target_slot, t.item_instance_id, t.swap_target), (EquipmentSlotModel::Weapon, 601, None))
        }
        _ => panic!("expected a transaction"),
    }
    match equip_until_swap(Some(500), inventory(EQUIPMENT_INV, InventoryTypeModel::Equipment)) {
        Ok(EquipNext::Transaction(t)) => assert_eq!(t.swap_target, Some((EQUIPMENT_INV, 3))),
        _ => panic!("expected a swap into the source slot"),
    }
    match equip_until_swap(Some(500), inventory(MATERIAL_INV, InventoryTypeModel::Material)) {
        Ok(EquipNext::FreeSlot(n)) => {
            assert_eq!((n.swap_inventory_id, n.capacity), (MATERIAL_INV, 56));
            let t = n.free_slot_found(Ok(Some(9))).expect("free slot");
            assert_eq!(t.swap_target, Some((MATERIAL_INV, 9)));
        }
        _ => panic!("expected a free slot search"),
    }
    match equip_until_swap(Some(500), inventory(MATERIAL_INV, InventoryTypeModel::Material)) {
        Ok(EquipNext::FreeSlot(n)) => match n.free_slot_found(Ok(None)) {
            Err(AppError::BadRequest(m)) => assert_eq!(m, "No inventory space to unequip current item"),
            _ => panic!("expected a full inventory"),
        },
        _ => panic!("expected a free slot search"),
    }
}

#[test]
fn equipping_checks_the_character() {
    let catalog = catalog();
    let r = EquipRequest::new(CHARACTER, "equipment".to_string(), 3)
        .character_found(Ok(row(2)))
        .and_then(|s| s.inventory_found(Ok(inventory(EQUIPMENT_INV, InventoryTypeModel::Equipment))))
        .and_then(|s| s.slot_found(Ok(Some(slot(EQUIPMENT_INV, 3, Some(602))))))
        .and_then(|s| s.instance_found(Ok(instance(602, 2, 0))))
        .and_then(|s| s.item_found(Ok(item(2, "kael_squire_chestplate", InventoryTypeModel::Equipment, 1)), &catalog));
    assert!(matches!(r, Err(AppError::BadRequest(ref m)) if m.contains("does not meet item requirement")));
    let r = EquipRequest::new(CHARACTER, "equipment".to_string(), 3)
        .character_found(Ok(row(20)))
        .and_then(|s| s.inventory_found(Ok(inventory(EQUIPMENT_INV, InventoryTypeModel::Equipment))))
        .and_then(|s| s.slot_found(Ok(Some(slot(EQUIPMENT_INV, 3, None)))));
    assert!(matches!(r, Err(AppError::BadRequest(ref m)) if m == "Inventory slot has no item instance"));
}

#[test]
fn loading_builds_the_snapshot() {
    let r = LoadRequest::new(2, CHARACTER).character_found(Ok(row(5)));
    assert!(matches!(r, Err(AppError::PermissionDenied(_))));
    let s = LoadRequest::new(1, CHARACTER).character_found(Ok(row(5))).unwrap();
    let s = s.inventories_found(Ok(vec![inventory(EQUIPMENT_INV, InventoryTypeModel::Equipment)])).unwrap();
    assert_eq!(s.inventory_ids, vec![EQUIPMENT_INV]);
    let s = s.slots_found(Ok(vec![slot(EQUIPMENT_INV, 0, Some(601))])).unwrap();
    let s = s
        .equipment_found(Ok(vec![EquipmentModel { character_id: CHARACTER, slot: EquipmentSlotModel::Weapon, item_instance_id: 501 }]))
        .unwrap();
    assert_eq!(s.instance_ids, vec![501, 601]);
    let s = s.instances_found(Ok(vec![instance(501, 1, 0), instance(601, 1, 0)])).unwrap();
    let s = s
        .gems_found(Ok(vec![ItemInstanceGemModel { id: 1, item_instance_id: 501, slot_index: 0, gem_instance_id: 777 }]))
        .unwrap();
    assert_eq!(s.gem_ids, vec![777]);
    let s = s.gem_instances_found(Ok(vec![instance(777, 3, 0)])).unwrap();
    assert_eq!(s.item_ids, vec![1, 3]);
    let items = vec![
        item(1, "kael_training_blade", InventoryTypeModel::Equipment, 1),
        item(3, "ruby", InventoryTypeModel::Material, 1),
    ];
    assert!(s.complete(&items));
    let snapshot = s.items_found(Ok(items)).unwrap();
    assert_eq!(snapshot.item_instances.len(), 3);
    assert_eq!(snapshot.equipment.len(), 1);
    assert_eq!(snapshot.inventories[0].items.len(), 1);
    assert_eq!(snapshot.item_instances[0].gems.len(), 1);
}

fn admin() -> AccountModel {
    AccountModel {
        id: 1,
        email: "a@b.c".to_string(),
        password_hash: String::new(),
        is_admin: true,
        max_characters: 3,
        banned_at: None,
        banned_reason: None,
        suspended_until: None,
        created_at: 0,
    }
}

#[test]
fn giving_items_tops_up_stacks_then_fills_free_slots() {
    let r = GiveItemRequest::new("potion".to_string(), "Kael".to_string(), Some(25))
        .admin_found(Ok(AccountModel { is_admin: false, ..admin() }));
    assert!(matches!(r, Err(AppError::PermissionDenied(_))));

    let mut run = GiveItemRequest::new("potion".to_string(), "Kael".to_string(), Some(25))
        .admin_found(Ok(admin()))
        .and_then(|s| s.item_found(Ok(item(4, "potion", InventoryTypeModel::Consumable, 10))))
        .and_then(|s| s.character_found(Ok(PlayerCharacterModel {
            id: CHARACTER,
            account_id: 1,
            name: "Kael".to_string(),
            current_class_slug: "kael".to_string(),
            level: 1,
        })))
        .expect("run");
    // One stack of 7 exists; free slots 0, 1 and 2 follow.
    let mut stacks = vec![7i16];
    let mut free = vec![0i16, 1, 2];
    let mut actions = Vec::new();
    let mut next = run.next();
    loop {
        next = match next {
            GiveItemAction::Done => break,
            GiveItemAction::FindStackWithSpace { max_stack, .. } => {
                let found = stacks.iter().position(|q| *q < max_stack).map(|i| InventoryItemModel {
                    id: i as u128,
                    inventory_id: 1,
                    item_instance_id: None,
                    item_id: Some(4),
                    slot_index: i as i16,
                    quantity: stacks[i],
                });
                run.stack_searched(Ok(found)).unwrap()
            }
            GiveItemAction::FindFreeSlot { .. } => {
                let f = if free.is_empty() { None } else { Some(free.remove(0)) };
                run.free_slot_searched(Ok(f)).unwrap()
            }
            GiveItemAction::IncrementQuantity { slot_id, amount } => {
                actions.push(format!("+{amount} to {slot_id}"));
                stacks[slot_id as usize] += amount;
                run.written(Ok(())).unwrap()
            }
            GiveItemAction::InsertSlot { slot_index, quantity, .. } => {
                actions.push(format!("{quantity} into slot {slot_index}"));
                stacks.push(quantity);
                run.written(Ok(())).unwrap()
            }
        };
    }
    assert_eq!(actions, vec!["+3 to 0", "10 into slot 0", "10 into slot 1", "2 into slot 2"]);
    assert!(matches!(run.next(), GiveItemAction::Done));
}

#[test]
fn giving_items_stops_when_the_inventory_is_full() {
    let mut run = GiveItemRequest::new("blade".to_string(), "Kael".to_string(), None)
        .admin_found(Ok(admin()))
        .and_then(|s| s.item_found(Ok(item(1, "blade", InventoryTypeModel::Equipment, 1))))
        .and_then(|s| s.character_found(Ok(PlayerCharacterModel {
            id: CHARACTER,
            account_id: 1,
            name: "Kael".to_string(),
            current_class_slug: "kael".to_string(),
            level: 1,
        })))
        .expect("run");
    assert!(matches!(run.next(), GiveItemAction::FindFreeSlot { .. }));
    match run.free_slot_searched(Ok(None)) {
        Err(AppError::BadRequest(m)) => assert_eq!(m, "Inventory is full"),
        other => panic!("unexpected: {other:?}"),
    }
}

#[test]
fn unequipping_goes_to_the_first_free_slot_or_nowhere() {
    let worn = || {
        unequip_start(CHARACTER, "weapon")
            .and_then(|s| s.equipped_found(Ok(Some(EquipmentModel {
                character_id: CHARACTER,
                slot: EquipmentSlotModel::Weapon,
                item_instance_id: 501,
            }))))
            .and_then(|s| s.instance_found(Ok(instance(501, 1, 0))))
            .and_then(|s| s.item_found(Ok(item(1, "kael_training_blade", InventoryTypeModel::Equipment, 1))))
            .and_then(|s| s.inventory_found(Ok(inventory(EQUIPMENT_INV, InventoryTypeModel::Equipment))))
            .expect("stages")
    };
    let t = worn().free_slot_found(Ok(Some(12))).expect("space");
    assert_eq!((t.character_id, t.slot, t.target_inventory_id, t.target_slot), (CHARACTER, EquipmentSlotModel::Weapon, EQUIPMENT_INV, 12));
    match worn().free_slot_found(Ok(None)) {
        Err(AppError::BadRequest(m)) => assert_eq!(m, "No inventory space available to unequip item"),
        _ => panic!("expected a full inventory"),
    }
    assert!(matches!(unequip_start(CHARACTER, "cape"), Err(AppError::BadRequest(_))));
    let r = unequip_start(CHARACTER, "head").and_then(|s| s.equipped_found(Ok(None)));
    assert!(matches!(r, Err(AppError::NotFound(ref m)) if m == "Equipment slot is empty"));
}

#[test]
fn new_characters_get_six_inventories_of_56_slots() {
    let invs = starting_inventories(CHARACTER);
    let kinds: Vec<InventoryTypeModel> = invs.iter().map(|i| i.inventory_type).collect();
    assert_eq!(
        kinds,
        vec![
            InventoryTypeModel::Equipment,
            InventoryTypeModel::Accessory,
            InventoryTypeModel::Consumable,
            InventoryTypeModel::Material,
            InventoryTypeModel::QuestItem,
            InventoryTypeModel::Special,
        ]
    );
    assert!(invs.iter().all(|i| *i == NewInventory { character_id: CHARACTER, inventory_type: i.inventory_type, capacity: 56 }));
}
