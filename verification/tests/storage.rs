use aurelis::equipment::require_unequip_space;
use aurelis::error::{AppError, RepositoryError};
use aurelis::inventory::find_next_available_slot;
use aurelis::models::{EquipmentModel, EquipmentSlotModel, InventoryItemModel, ItemInstanceGemModel};
use aurelis::storage::{
    equip_transaction_ops, socket_transaction_ops, unequip_transaction_ops, SlotRow, StorageOp,
};

const CHARACTER: u128 = 7;
const EQUIPMENT_INVENTORY: u128 = 100;
const NEW_BLADE: u128 = 501;
const OLD_BLADE: u128 = 502;

fn slot_with_blade(index: i16) -> InventoryItemModel {
    InventoryItemModel {
        id: 9000,
        inventory_id: EQUIPMENT_INVENTORY,
        item_instance_id: Some(NEW_BLADE),
        item_id: None,
        slot_index: index,
        quantity: 1,
    }
}

fn instance_row(id: u128) -> SlotRow {
    SlotRow { item_instance_id: Some(id), item_id: None, quantity: 1 }
}

#[test]
fn equipping_into_an_empty_slot_takes_the_item_and_wears_it() {
    let ops = equip_transaction_ops(
        CHARACTER,
        EQUIPMENT_INVENTORY,
        &slot_with_blade(3),
        EquipmentSlotModel::Weapon,
        NEW_BLADE,
        None,
        None,
    )
    .expect("equip should succeed");
    assert_eq!(
        ops,
        vec![
            StorageOp::DeleteInventorySlot { inventory_id: EQUIPMENT_INVENTORY, slot_index: 3 },
            StorageOp::UpsertEquipment {
                character_id: CHARACTER,
                slot: EquipmentSlotModel::Weapon,
                item_instance_id: NEW_BLADE,
            },
        ]
    );
}

#[test]
fn swapping_returns_the_old_item_to_the_source_slot() {
    let equipped = EquipmentModel {
        character_id: CHARACTER,
        slot: EquipmentSlotModel::Weapon,
        item_instance_id: OLD_BLADE,
    };
    let ops = equip_transaction_ops(
        CHARACTER,
        EQUIPMENT_INVENTORY,
        &slot_with_blade(4),
        EquipmentSlotModel::Weapon,
        NEW_BLADE,
        Some((EQUIPMENT_INVENTORY, 4)),
        Some(equipped),
    )
    .expect("equip should swap");
    assert_eq!(
        ops,
        vec![
            StorageOp::DeleteInventorySlot { inventory_id: EQUIPMENT_INVENTORY, slot_index: 4 },
            StorageOp::InsertInventorySlot {
                inventory_id: EQUIPMENT_INVENTORY,
                slot_index: 4,
                row: instance_row(OLD_BLADE),
            },
            StorageOp::UpsertEquipment {
                character_id: CHARACTER,
                slot: EquipmentSlotModel::Weapon,
                item_instance_id: NEW_BLADE,
            },
        ]
    );
}

#[test]
fn occupied_slot_without_swap_target_is_an_internal_error() {
    let equipped = EquipmentModel {
        character_id: CHARACTER,
        slot: EquipmentSlotModel::Head,
        item_instance_id: OLD_BLADE,
    };
    let r = equip_transaction_ops(
        CHARACTER,
        EQUIPMENT_INVENTORY,
        &slot_with_blade(0),
        EquipmentSlotModel::Head,
        NEW_BLADE,
        None,
        Some(equipped),
    );
    match r {
        Err(RepositoryError::Internal(m)) => {
            assert_eq!(m, "Missing swap target for occupied equipment slot")
        }
        other => panic!("unexpected result: {other:?}"),
    }
}

#[test]
fn unequipping_moves_the_item_back_to_the_inventory() {
    let equipped = EquipmentModel {
        character_id: CHARACTER,
        slot: EquipmentSlotModel::Weapon,
        item_instance_id: NEW_BLADE,
    };
    let ops = unequip_transaction_ops(
        CHARACTER,
        EquipmentSlotModel::Weapon,
        EQUIPMENT_INVENTORY,
        2,
        Some(equipped),
    )
    .expect("unequip should succeed");
    assert_eq!(
        ops,
        vec![
            StorageOp::DeleteEquipment { character_id: CHARACTER, slot: EquipmentSlotModel::Weapon },
            StorageOp::InsertInventorySlot {
                inventory_id: EQUIPMENT_INVENTORY,
                slot_index: 2,
                row: instance_row(NEW_BLADE),
            },
        ]
    );
}

#[test]
fn unequipping_an_empty_slot_finds_no_row() {
    let r = unequip_transaction_ops(CHARACTER, EquipmentSlotModel::Chest, EQUIPMENT_INVENTORY, 0, None);
    assert!(matches!(r, Err(RepositoryError::NotFound)));
}

#[test]
fn unequip_is_refused_when_the_inventory_is_full() {
    let occupied: Vec<i16> = (0..56).collect();
    let free = find_next_available_slot(&occupied, 56);
    assert_eq!(free, None);
    match require_unequip_space(free) {
        Err(AppError::BadRequest(m)) => {
            assert!(m.contains("No inventory space available"));
            assert_eq!(m, "No inventory space available to unequip item");
        }
        other => panic!("unexpected error: {other:?}"),
    }
    let mut with_gap = occupied.clone();
    with_gap.retain(|s| *s != 17);
    assert_eq!(require_unequip_space(find_next_available_slot(&with_gap, 56)).ok(), Some(17));
}

#[test]
fn socketing_replaces_an_existing_gem() {
    let ops = socket_transaction_ops(200, 5, NEW_BLADE, 1, 777, None);
    assert_eq!(
        ops,
        vec![
            StorageOp::DeleteInventorySlot { inventory_id: 200, slot_index: 5 },
            StorageOp::InsertGemSocket { item_instance_id: NEW_BLADE, slot_index: 1, gem_instance_id: 777 },
        ]
    );
    let existing = ItemInstanceGemModel {
        id: 31,
        item_instance_id: NEW_BLADE,
        slot_index: 1,
        gem_instance_id: 666,
    };
    let ops = socket_transaction_ops(200, 5, NEW_BLADE, 1, 777, Some(existing));
    assert_eq!(
        ops,
        vec![
            StorageOp::DeleteInventorySlot { inventory_id: 200, slot_index: 5 },
            StorageOp::DeleteGemSocket { id: 31, item_instance_id: NEW_BLADE, slot_index: 1 },
            StorageOp::DeleteItemInstance { id: 666 },
            StorageOp::InsertGemSocket { item_instance_id: NEW_BLADE, slot_index: 1, gem_instance_id: 777 },
        ]
    );
}
