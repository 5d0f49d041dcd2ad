//! The row operations of the storage transactions that move item instances between a
//! character's inventories, its equipment and the gem sockets of its items.
//!
//! Each transaction reads what it needs, then performs a fixed list of row operations.
//! The functions here compute that list from what was read; `apply_ops` says what the
//! list does to the stored rows, and the laws below state the effect of each transaction.
use vstd::prelude::*;
use crate::error::{RepositoryError, RepositoryErrorView};
use crate::inventory::is_occupied;
use crate::models::{EquipmentModel, EquipmentSlotModel, InventoryItemModel, ItemInstanceGemModel};
use crate::text::owned;

verus! {

/// The contents of one inventory row: an item instance, or a stack of a catalog item.
#[derive(Debug, Clone, Copy, PartialEq, Eq, Structural)]
pub struct SlotRow {
    pub item_instance_id: Option<u128>,
    pub item_id: Option<u128>,
    pub quantity: i16,
}

/// The row that holds a single item instance.
pub open spec fn instance_row(item_instance_id: u128) -> SlotRow {
    SlotRow { item_instance_id: Some(item_instance_id), item_id: None, quantity: 1 }
}

/// One statement of a storage transaction.
#[derive(Debug, Clone, Copy, PartialEq, Eq, Structural)]
pub enum StorageOp {
    /// Delete the row at a slot of an inventory.
    DeleteInventorySlot { inventory_id: u128, slot_index: i16 },
    /// Insert a row at a slot of an inventory.
    InsertInventorySlot { inventory_id: u128, slot_index: i16, row: SlotRow },
    /// Put an item instance in an equipment slot, replacing what the slot held.
    UpsertEquipment { character_id: u128, slot: EquipmentSlotModel, item_instance_id: u128 },
    /// Empty an equipment slot.
    DeleteEquipment { character_id: u128, slot: EquipmentSlotModel },
    /// Delete the socket row `id`, which holds socket `slot_index` of `item_instance_id`.
    DeleteGemSocket { id: u128, item_instance_id: u128, slot_index: i16 },
    /// Delete an item instance.
    DeleteItemInstance { id: u128 },
    /// Put a gem instance in a socket of an item instance.
    InsertGemSocket { item_instance_id: u128, slot_index: i16, gem_instance_id: u128 },
}

/// The stored rows the transactions act on.
pub struct StorageState {
    /// Inventory rows by inventory and slot.
    pub inventory: Map<(u128, i16), SlotRow>,
    /// Equipped item instances by character and slot.
    pub equipment: Map<(u128, EquipmentSlotModel), u128>,
    /// Socketed gem instances by item instance and socket.
    pub sockets: Map<(u128, i16), u128>,
    /// The item instances that exist.
    pub instances: Set<u128>,
}

/// What one statement does to the stored rows. An insert is meant for a free slot: the
/// database refuses an insert into a taken slot (and the transaction rolls back), so the
/// laws below speak only of inserts into slots that are free when the insert runs.
pub open spec fn apply_op(s: StorageState, op: StorageOp) -> StorageState {
    match op {
        StorageOp::DeleteInventorySlot { inventory_id, slot_index } => StorageState {
            inventory: s.inventory.remove((inventory_id, slot_index)),
            ..s
        },
        StorageOp::InsertInventorySlot { inventory_id, slot_index, row } => StorageState {
            inventory: s.inventory.insert((inventory_id, slot_index), row),
            ..s
        },
        StorageOp::UpsertEquipment { character_id, slot, item_instance_id } => StorageState {
            equipment: s.equipment.insert((character_id, slot), item_instance_id),
            ..s
        },
        StorageOp::DeleteEquipment { character_id, slot } => StorageState {
            equipment: s.equipment.remove((character_id, slot)),
            ..s
        },
        StorageOp::DeleteGemSocket { item_instance_id, slot_index, .. } => StorageState {
            sockets: s.sockets.remove((item_instance_id, slot_index)),
            ..s
        },
        StorageOp::DeleteItemInstance { id } => StorageState {
            instances: s.instances.remove(id),
            ..s
        },
        StorageOp::InsertGemSocket { item_instance_id, slot_index, gem_instance_id } => StorageState {
            sockets: s.sockets.insert((item_instance_id, slot_index), gem_instance_id),
            ..s
        },
    }
}

/// What a list of statements, performed in order, does to the stored rows.
pub open spec fn apply_ops(s: StorageState, ops: Seq<StorageOp>) -> StorageState
    decreases ops.len(),
{
    if ops.len() == 0 {
        s
    } else {
        apply_ops(apply_op(s, ops[0]), ops.drop_first())
    }
}

/// The statements of equipping `item_instance_id`, taken from slot `source_slot_index` of
/// `source_inventory_id`, in `target_slot`: the source row goes, an item already in the
/// slot moves to `swap_target`, and the new item is put in the slot. `None` when the slot
/// is occupied and no swap target was given.
pub open spec fn equip_ops(
    character_id: u128,
    source_inventory_id: u128,
    source_slot_index: i16,
    target_slot: EquipmentSlotModel,
    item_instance_id: u128,
    swap_target: Option<(u128, i16)>,
    currently_equipped: Option<u128>,
) -> Option<Seq<StorageOp>> {
    let take = StorageOp::DeleteInventorySlot {
        inventory_id: source_inventory_id,
        slot_index: source_slot_index,
    };
    let wear = StorageOp::UpsertEquipment {
        character_id,
        slot: target_slot,
        item_instance_id,
    };
    match currently_equipped {
        None => Some(seq![take, wear]),
        Some(old_item) => match swap_target {
            None => None,
            Some((dest_inventory, dest_slot)) => Some(
                seq![
                    take,
                    StorageOp::InsertInventorySlot {
                        inventory_id: dest_inventory,
                        slot_index: dest_slot,
                        row: instance_row(old_item),
                    },
                    wear,
                ],
            ),
        },
    }
}

/// The statements of equipping an item instance from an inventory slot: see `equip_ops`.
/// `currently_equipped` is what the target slot held when the transaction read it.
pub fn equip_transaction_ops(
    character_id: u128,
    source_inventory_id: u128,
    source_slot: &InventoryItemModel,
    target_slot: EquipmentSlotModel,
    item_instance_id: u128,
    swap_target: Option<(u128, i16)>,
    currently_equipped: Option<EquipmentModel>,
) -> (r: Result<Vec<StorageOp>, RepositoryError>)
    ensures
        match equip_ops(
            character_id,
            source_inventory_id,
            source_slot.slot_index,
            target_slot,
            item_instance_id,
            swap_target,
            match currently_equipped {
                Some(e) => Some(e.item_instance_id),
                None => None,
            },
        ) {
            Some(ops) => r matches Ok(v) && v@ == ops,
            None => r matches Err(e) && e@ == RepositoryErrorView::Internal(
                "Missing swap target for occupied equipment slot"@,
            ),
        },
{
    let mut ops: Vec<StorageOp> = Vec::new();
    ops.push(
        StorageOp::DeleteInventorySlot {
            inventory_id: source_inventory_id,
            slot_index: source_slot.slot_index,
        },
    );
    if let Some(equipped) = currently_equipped {
        match swap_target {
            None => {
                return Err(
                    RepositoryError::Internal(
                        owned("Missing swap target for occupied equipment slot"),
                    ),
                );
            },
            Some((dest_inventory_id, dest_slot)) => {
                ops.push(
                    StorageOp::InsertInventorySlot {
                        inventory_id: dest_inventory_id,
                        slot_index: dest_slot,
                        row: SlotRow {
                            item_instance_id: Some(equipped.item_instance_id),
                            item_id: None,
                            quantity: 1,
                        },
                    },
                );
            },
        }
    }
    ops.push(
        StorageOp::UpsertEquipment {
            character_id,
            slot: target_slot,
            item_instance_id,
        },
    );
    Ok(ops)
}

/// The statements of unequipping: the equipment slot is emptied and the item instance it
/// held goes to slot `target_slot` of `target_inventory_id`.
pub open spec fn unequip_ops(
    character_id: u128,
    slot: EquipmentSlotModel,
    target_inventory_id: u128,
    target_slot: i16,
    item_instance_id: u128,
) -> Seq<StorageOp> {
    seq![
        StorageOp::DeleteEquipment { character_id, slot },
        StorageOp::InsertInventorySlot {
            inventory_id: target_inventory_id,
            slot_index: target_slot,
            row: instance_row(item_instance_id),
        },
    ]
}

/// The statements of unequipping the item in `slot` into an inventory slot; `equipped` is
/// the equipment row the transaction read, and without one the transaction fails as a
/// lookup of no row does.
pub fn unequip_transaction_ops(
    character_id: u128,
    slot: EquipmentSlotModel,
    target_inventory_id: u128,
    target_slot: i16,
    equipped: Option<EquipmentModel>,
) -> (r: Result<Vec<StorageOp>, RepositoryError>)
    ensures
        match equipped {
            Some(e) => r matches Ok(v) && v@ == unequip_ops(
                character_id,
                slot,
                target_inventory_id,
                target_slot,
                e.item_instance_id,
            ),
            None => r matches Err(e) && e@ == RepositoryErrorView::NotFound,
        },
{
    match equipped {
        None => Err(RepositoryError::NotFound),
        Some(e) => {
            let mut ops: Vec<StorageOp> = Vec::new();
            ops.push(StorageOp::DeleteEquipment { character_id, slot });
            ops.push(
                StorageOp::InsertInventorySlot {
                    inventory_id: target_inventory_id,
                    slot_index: target_slot,
                    row: SlotRow {
                        item_instance_id: Some(e.item_instance_id),
                        item_id: None,
                        quantity: 1,
                    },
                },
            );
            Ok(ops)
        },
    }
}

/// The statements of socketing a gem: the gem leaves its inventory slot, a gem already in
/// the socket is removed together with its instance, and the new gem takes the socket.
pub open spec fn socket_ops(
    source_inventory_id: u128,
    source_slot_index: i16,
    item_instance_id: u128,
    socket_index: i16,
    gem_instance_id: u128,
    existing: Option<(u128, u128)>,
) -> Seq<StorageOp> {
    let take = StorageOp::DeleteInventorySlot {
        inventory_id: source_inventory_id,
        slot_index: source_slot_index,
    };
    let put = StorageOp::InsertGemSocket {
        item_instance_id,
        slot_index: socket_index,
        gem_instance_id,
    };
    match existing {
        None => seq![take, put],
        Some((row_id, old_gem)) => seq![
            take,
            StorageOp::DeleteGemSocket { id: row_id, item_instance_id, slot_index: socket_index },
            StorageOp::DeleteItemInstance { id: old_gem },
            put,
        ],
    }
}

/// The statements of socketing `gem_instance_id`, taken from slot `source_slot_index` of
/// `source_inventory_id`, in socket `socket_index` of `item_instance_id`; `existing` is the
/// socket row the transaction found there.
pub fn socket_transaction_ops(
    source_inventory_id: u128,
    source_slot_index: i16,
    item_instance_id: u128,
    socket_index: i16,
    gem_instance_id: u128,
    existing: Option<ItemInstanceGemModel>,
) -> (r: Vec<StorageOp>)
    ensures
        r@ == socket_ops(
            source_inventory_id,
            source_slot_index,
            item_instance_id,
            socket_index,
            gem_instance_id,
            match existing {
                Some(g) => Some((g.id, g.gem_instance_id)),
                None => None,
            },
        ),
{
    let mut ops: Vec<StorageOp> = Vec::new();
    ops.push(
        StorageOp::DeleteInventorySlot {
            inventory_id: source_inventory_id,
            slot_index: source_slot_index,
        },
    );
    if let Some(g) = existing {
        ops.push(
            StorageOp::DeleteGemSocket { id: g.id, item_instance_id, slot_index: socket_index },
        );
        ops.push(StorageOp::DeleteItemInstance { id: g.gem_instance_id });
    }
    ops.push(
        StorageOp::InsertGemSocket { item_instance_id, slot_index: socket_index, gem_instance_id },
    );
    ops
}

/// Equipping wears the item in the target slot, removes the row it was taken from and,
/// where the slot held an item, puts that item in the swap target; no other row changes.
pub proof fn lemma_equip_effect(
    s: StorageState,
    character_id: u128,
    source_inventory_id: u128,
    source_slot_index: i16,
    target_slot: EquipmentSlotModel,
    item_instance_id: u128,
    swap_target: Option<(u128, i16)>,
    currently_equipped: Option<u128>,
)
    requires
        equip_ops(
            character_id,
            source_inventory_id,
            source_slot_index,
            target_slot,
            item_instance_id,
            swap_target,
            currently_equipped,
        ) is Some,
        currently_equipped is Some ==> !s.inventory.remove(
            (source_inventory_id, source_slot_index),
        ).contains_key(swap_target->0),
    ensures
        ({
            let f = apply_ops(
                s,
                equip_ops(
                    character_id,
                    source_inventory_id,
                    source_slot_index,
                    target_slot,
                    item_instance_id,
                    swap_target,
                    currently_equipped,
                )->0,
            );
            &&& f.equipment == s.equipment.insert((character_id, target_slot), item_instance_id)
            &&& f.inventory == match currently_equipped {
                None => s.inventory.remove((source_inventory_id, source_slot_index)),
                Some(old_item) => s.inventory.remove(
                    (source_inventory_id, source_slot_index),
                ).insert(swap_target->0, instance_row(old_item)),
            }
            &&& f.sockets == s.sockets
            &&& f.instances == s.instances
        }),
{
    reveal_with_fuel(apply_ops, 4);
}

/// An item displaced from its equipment slot into the slot the new item left comes back to
/// that very slot: the source row now holds the displaced item.
pub proof fn lemma_swap_returns_to_source_slot(
    s: StorageState,
    character_id: u128,
    source_inventory_id: u128,
    source_slot_index: i16,
    target_slot: EquipmentSlotModel,
    item_instance_id: u128,
    old_item: u128,
)
    ensures
        ({
            let f = apply_ops(
                s,
                equip_ops(
                    character_id,
                    source_inventory_id,
                    source_slot_index,
                    target_slot,
                    item_instance_id,
                    Some((source_inventory_id, source_slot_index)),
                    Some(old_item),
                )->0,
            );
            &&& f.inventory == s.inventory.insert(
                (source_inventory_id, source_slot_index),
                instance_row(old_item),
            )
            &&& f.equipment[(character_id, target_slot)] == item_instance_id
        }),
{
    lemma_equip_effect(
        s,
        character_id,
        source_inventory_id,
        source_slot_index,
        target_slot,
        item_instance_id,
        Some((source_inventory_id, source_slot_index)),
        Some(old_item),
    );
    let key = (source_inventory_id, source_slot_index);
    assert(s.inventory.remove(key).insert(key, instance_row(old_item)) =~= s.inventory.insert(
        key,
        instance_row(old_item),
    ));
}

/// Unequipping empties the equipment slot and puts the item it held in the target inventory
/// slot; no other row changes.
pub proof fn lemma_unequip_effect(
    s: StorageState,
    character_id: u128,
    slot: EquipmentSlotModel,
    target_inventory_id: u128,
    target_slot: i16,
    item_instance_id: u128,
)
    requires
        !s.inventory.contains_key((target_inventory_id, target_slot)),
    ensures
        ({
            let f = apply_ops(
                s,
                unequip_ops(character_id, slot, target_inventory_id, target_slot, item_instance_id),
            );
            &&& f.equipment == s.equipment.remove((character_id, slot))
            &&& f.inventory == s.inventory.insert(
                (target_inventory_id, target_slot),
                instance_row(item_instance_id),
            )
            &&& f.sockets == s.sockets
            &&& f.instances == s.instances
        }),
{
    reveal_with_fuel(apply_ops, 3);
}

/// Unequipping an item into the inventory slot it was equipped from undoes equipping it:
/// when the slot was empty and the inventory slot held exactly that instance, the stored
/// rows are as they were.
pub proof fn lemma_unequip_undoes_equip(
    s: StorageState,
    character_id: u128,
    inventory_id: u128,
    slot_index: i16,
    slot: EquipmentSlotModel,
    item_instance_id: u128,
)
    requires
        !s.equipment.contains_key((character_id, slot)),
        s.inventory.contains_key((inventory_id, slot_index)),
        s.inventory[(inventory_id, slot_index)] == instance_row(item_instance_id),
    ensures
        ({
            let worn = apply_ops(
                s,
                equip_ops(
                    character_id,
                    inventory_id,
                    slot_index,
                    slot,
                    item_instance_id,
                    None,
                    None,
                )->0,
            );
            let back = apply_ops(
                worn,
                unequip_ops(character_id, slot, inventory_id, slot_index, item_instance_id),
            );
            &&& worn.equipment[(character_id, slot)] == item_instance_id
            &&& back.inventory == s.inventory
            &&& back.equipment == s.equipment
            &&& back.sockets == s.sockets
            &&& back.instances == s.instances
        }),
{
    lemma_equip_effect(s, character_id, inventory_id, slot_index, slot, item_instance_id, None, None);
    let worn = apply_ops(
        s,
        equip_ops(character_id, inventory_id, slot_index, slot, item_instance_id, None, None)->0,
    );
    lemma_unequip_effect(worn, character_id, slot, inventory_id, slot_index, item_instance_id);
    let key = (inventory_id, slot_index);
    assert(s.inventory.remove(key).insert(key, instance_row(item_instance_id)) =~= s.inventory);
    assert(s.equipment.insert((character_id, slot), item_instance_id).remove((character_id, slot))
        =~= s.equipment);
}

/// Socketing puts the gem in the socket, removes the row it was taken from and, where the
/// socket held a gem, removes that gem's instance; no other row changes.
pub proof fn lemma_socket_effect(
    s: StorageState,
    source_inventory_id: u128,
    source_slot_index: i16,
    item_instance_id: u128,
    socket_index: i16,
    gem_instance_id: u128,
    existing: Option<(u128, u128)>,
)
    ensures
        ({
            let f = apply_ops(
                s,
                socket_ops(
                    source_inventory_id,
                    source_slot_index,
                    item_instance_id,
                    socket_index,
                    gem_instance_id,
                    existing,
                ),
            );
            &&& f.sockets == s.sockets.insert((item_instance_id, socket_index), gem_instance_id)
            &&& f.inventory == s.inventory.remove((source_inventory_id, source_slot_index))
            &&& f.instances == match existing {
                None => s.instances,
                Some((_, old_gem)) => s.instances.remove(old_gem),
            }
            &&& f.equipment == s.equipment
        }),
{
    reveal_with_fuel(apply_ops, 5);
    let key = (item_instance_id, socket_index);
    assert(s.sockets.remove(key).insert(key, gem_instance_id) =~= s.sockets.insert(
        key,
        gem_instance_id,
    ));
}

/// Unequipping into a slot that the inventory's occupied slots do not list (the slot
/// `find_next_available_slot` picks) overwrites no row: every inventory row stays as it
/// was, and the unequipped item gets a row of its own.
pub proof fn lemma_unequip_into_free_slot_keeps_rows(
    s: StorageState,
    character_id: u128,
    slot: EquipmentSlotModel,
    inventory_id: u128,
    occupied: Seq<i16>,
    free_slot: i16,
    item_instance_id: u128,
)
    requires
        forall|k: i16| #[trigger]
            s.inventory.contains_key((inventory_id, k)) ==> is_occupied(occupied, k as int),
        !is_occupied(occupied, free_slot as int),
    ensures
        ({
            let f = apply_ops(
                s,
                unequip_ops(character_id, slot, inventory_id, free_slot, item_instance_id),
            );
            &&& !s.inventory.contains_key((inventory_id, free_slot))
            &&& forall|key: (u128, i16)| #[trigger]
                s.inventory.contains_key(key) ==> f.inventory.contains_key(key)
                    && f.inventory[key] == s.inventory[key]
            &&& f.inventory[(inventory_id, free_slot)] == instance_row(item_instance_id)
        }),
{
    assert(!s.inventory.contains_key((inventory_id, free_slot)));
    lemma_unequip_effect(s, character_id, slot, inventory_id, free_slot, item_instance_id);
}

} // verus!
