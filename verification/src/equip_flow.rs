//! Equipping an item instance from an inventory slot, as a sequence of stages. Each stage
//! says what to read next; its step takes what was read and gives the next stage or the
//! answer. The caller performs each read and, at the end, the storage transaction, whose
//! failure it passes on through `service_result`.
use vstd::prelude::*;
use crate::equipment::{
    equip_requirements, item_instance_in_slot, plan_equip_swap, swap_target,
    validate_catalog_equip_requirements, Catalog, SwapPlan,
};
use crate::error::{app_error_of, service_result, AppError, AppErrorView, RepositoryError};
use crate::models::{
    EquipmentModel, EquipmentSlotModel, InventoryItemModel, InventoryModel, InventoryTypeModel,
    ItemInstanceModel, ItemModel, PlayableCharacterRow,
};

verus! {

/// Read next: the playable character `character_id`.
pub struct EquipRequest {
    pub character_id: u128,
    pub inventory_type: String,
    pub slot: i16,
}

/// Read next: the character's inventory of `inventory_type`.
pub struct EquipCharacter {
    pub character: PlayableCharacterRow,
    pub inventory_type: String,
    pub slot: i16,
}

/// Read next: slot `slot` of inventory `source_inventory_id`.
pub struct EquipSourceInventory {
    pub character: PlayableCharacterRow,
    pub source_inventory_id: u128,
    pub slot: i16,
}

/// Read next: the item instance `item_instance_id` that the source slot holds.
pub struct EquipSource {
    pub character: PlayableCharacterRow,
    pub source_inventory_id: u128,
    pub source_slot: InventoryItemModel,
    pub item_instance_id: u128,
}

/// Read next: the catalog row `item_id` of the item instance.
pub struct EquipInstance {
    pub character: PlayableCharacterRow,
    pub source_inventory_id: u128,
    pub source_slot: InventoryItemModel,
    pub item_instance_id: u128,
    pub item_id: u128,
}

/// Read next: what the character wears in `target_slot`.
pub struct EquipTarget {
    pub character_id: u128,
    pub source_inventory_id: u128,
    pub source_slot: InventoryItemModel,
    pub item_instance_id: u128,
    pub target_slot: EquipmentSlotModel,
    pub swap_inventory_type: InventoryTypeModel,
}

/// Read next: the character's inventory of `swap_inventory_type`, where a displaced item
/// goes.
pub struct EquipEquipped {
    pub character_id: u128,
    pub source_inventory_id: u128,
    pub source_slot: InventoryItemModel,
    pub item_instance_id: u128,
    pub target_slot: EquipmentSlotModel,
    pub swap_inventory_type: InventoryTypeModel,
    pub currently_equipped: Option<EquipmentModel>,
}

/// Read next: the first free slot of inventory `swap_inventory_id` of `capacity` slots.
pub struct EquipNeedsFreeSlot {
    pub character_id: u128,
    pub source_inventory_id: u128,
    pub source_slot: InventoryItemModel,
    pub item_instance_id: u128,
    pub target_slot: EquipmentSlotModel,
    pub swap_inventory_id: u128,
    pub capacity: i16,
}

/// Run next: the equipping transaction with these arguments.
pub struct EquipTransaction {
    pub character_id: u128,
    pub source_inventory_id: u128,
    pub source_slot: InventoryItemModel,
    pub target_slot: EquipmentSlotModel,
    pub item_instance_id: u128,
    pub swap_target: Option<(u128, i16)>,
}

/// What follows once the swap inventory is known.
pub enum EquipNext {
    /// Everything is known: run the transaction.
    Transaction(EquipTransaction),
    /// The displaced item needs a free slot of another inventory.
    FreeSlot(EquipNeedsFreeSlot),
}

impl EquipRequest {
    /// A request to equip what slot `slot` of the inventory of `inventory_type` holds.
    pub fn new(character_id: u128, inventory_type: String, slot: i16) -> (r: EquipRequest)
        ensures
            r.character_id == character_id && r.inventory_type == inventory_type && r.slot == slot,
    {
        EquipRequest { character_id, inventory_type, slot }
    }

    /// The character was read.
    pub fn character_found(self, found: Result<PlayableCharacterRow, RepositoryError>) -> (r:
        Result<EquipCharacter, AppError>)
        ensures
            match found {
                Err(e) => r matches Err(f) && f@ == app_error_of(e@),
                Ok(c) => r matches Ok(n) && n.character == c && n.inventory_type
                    == self.inventory_type && n.slot == self.slot,
            },
    {
        match service_result(found) {
            Ok(c) => Ok(EquipCharacter { character: c, inventory_type: self.inventory_type, slot: self.slot }),
            Err(e) => Err(e),
        }
    }
}

impl EquipCharacter {
    /// The source inventory was read.
    pub fn inventory_found(self, found: Result<InventoryModel, RepositoryError>) -> (r: Result<
        EquipSourceInventory,
        AppError,
    >)
        ensures
            match found {
                Err(e) => r matches Err(f) && f@ == app_error_of(e@),
                Ok(inv) => r matches Ok(n) && n.character == self.character
                    && n.source_inventory_id == inv.id && n.slot == self.slot,
            },
    {
        match service_result(found) {
            Ok(inv) => Ok(
                EquipSourceInventory {
                    character: self.character,
                    source_inventory_id: inv.id,
                    slot: self.slot,
                },
            ),
            Err(e) => Err(e),
        }
    }
}

impl EquipSourceInventory {
    /// The source slot was read: it must hold an item instance.
    pub fn slot_found(self, found: Result<Option<InventoryItemModel>, RepositoryError>) -> (r:
        Result<EquipSource, AppError>)
        ensures
            match found {
                Err(e) => r matches Err(f) && f@ == app_error_of(e@),
                Ok(None) => r matches Err(f) && f@ == AppErrorView::NotFound(
                    "Inventory slot is empty"@,
                ),
                Ok(Some(s)) => match s.item_instance_id {
                    None => r matches Err(f) && f@ == AppErrorView::BadRequest(
                        "Inventory slot has no item instance"@,
                    ),
                    Some(id) => r matches Ok(n) && n.character == self.character
                        && n.source_inventory_id == self.source_inventory_id && n.source_slot == s
                        && n.item_instance_id == id,
                },
            },
    {
        let found = match service_result(found) {
            Ok(f) => f,
            Err(e) => {
                return Err(e);
            },
        };
        match item_instance_in_slot(found) {
            Ok((s, id)) => Ok(
                EquipSource {
                    character: self.character,
                    source_inventory_id: self.source_inventory_id,
                    source_slot: s,
                    item_instance_id: id,
                },
            ),
            Err(e) => Err(e),
        }
    }
}

impl EquipSource {
    /// The item instance was read.
    pub fn instance_found(self, found: Result<ItemInstanceModel, RepositoryError>) -> (r: Result<
        EquipInstance,
        AppError,
    >)
        ensures
            match found {
                Err(e) => r matches Err(f) && f@ == app_error_of(e@),
                Ok(inst) => r matches Ok(n) && n.character == self.character
                    && n.source_inventory_id == self.source_inventory_id && n.source_slot
                    == self.source_slot && n.item_instance_id == self.item_instance_id
                    && n.item_id == inst.item_id,
            },
    {
        match service_result(found) {
            Ok(inst) => Ok(
                EquipInstance {
                    character: self.character,
                    source_inventory_id: self.source_inventory_id,
                    source_slot: self.source_slot,
                    item_instance_id: self.item_instance_id,
                    item_id: inst.item_id,
                },
            ),
            Err(e) => Err(e),
        }
    }
}

impl EquipInstance {
    /// The item's catalog row was read: its catalog entry must exist and the character
    /// must meet its requirements; the slot it goes to follows from its kind.
    pub fn item_found(self, found: Result<ItemModel, RepositoryError>, catalog: &Catalog) -> (r:
        Result<EquipTarget, AppError>)
        ensures
            match found {
                Err(e) => r matches Err(f) && f@ == app_error_of(e@),
                Ok(item) => match catalog.entry(item.slug@) {
                    None => r matches Err(f) && f@ == AppErrorView::Internal(
                        "Missing catalog item '"@ + item.slug@ + "'"@,
                    ),
                    Some(data) => match equip_requirements(data, self.character) {
                        Err(ev) => r matches Err(f) && f@ == ev,
                        Ok(target) => r matches Ok(n) && n.target_slot == target
                            && n.character_id == self.character.character_id
                            && n.source_inventory_id == self.source_inventory_id
                            && n.source_slot == self.source_slot && n.item_instance_id
                            == self.item_instance_id && n.swap_inventory_type
                            == item.inventory_type,
                    },
                },
            },
    {
        let item = match service_result(found) {
            Ok(item) => item,
            Err(e) => {
                return Err(e);
            },
        };
        let data = match catalog.require_item(item.slug.as_str()) {
            Ok(d) => d,
            Err(e) => {
                return Err(e);
            },
        };
        match validate_catalog_equip_requirements(data, &self.character) {
            Ok(target) => Ok(
                EquipTarget {
                    character_id: self.character.character_id,
                    source_inventory_id: self.source_inventory_id,
                    source_slot: self.source_slot,
                    item_instance_id: self.item_instance_id,
                    target_slot: target,
                    swap_inventory_type: item.inventory_type,
                },
            ),
            Err(e) => Err(e),
        }
    }
}

impl EquipTarget {
    /// What the target slot holds was read.
    pub fn equipped_found(self, found: Result<Option<EquipmentModel>, RepositoryError>) -> (r:
        Result<EquipEquipped, AppError>)
        ensures
            match found {
                Err(e) => r matches Err(f) && f@ == app_error_of(e@),
                Ok(current) => r matches Ok(n) && n.currently_equipped == current
                    && n.character_id == self.character_id && n.source_inventory_id
                    == self.source_inventory_id && n.source_slot == self.source_slot
                    && n.item_instance_id == self.item_instance_id && n.target_slot
                    == self.target_slot && n.swap_inventory_type == self.swap_inventory_type,
            },
    {
        match service_result(found) {
            Ok(current) => Ok(
                EquipEquipped {
                    character_id: self.character_id,
                    source_inventory_id: self.source_inventory_id,
                    source_slot: self.source_slot,
                    item_instance_id: self.item_instance_id,
                    target_slot: self.target_slot,
                    swap_inventory_type: self.swap_inventory_type,
                    currently_equipped: current,
                },
            ),
            Err(e) => Err(e),
        }
    }
}

impl EquipEquipped {
    /// The swap inventory was read. With the target slot empty nothing moves out; an
    /// item displaced into the source inventory takes the slot the new item leaves;
    /// otherwise a free slot of the swap inventory is needed.
    pub fn swap_inventory_found(self, found: Result<InventoryModel, RepositoryError>) -> (r:
        Result<EquipNext, AppError>)
        ensures
            match found {
                Err(e) => r matches Err(f) && f@ == app_error_of(e@),
                Ok(inv) => match self.currently_equipped {
                    None => r matches Ok(EquipNext::Transaction(t)) && t.swap_target is None
                        && t.character_id == self.character_id && t.source_inventory_id
                        == self.source_inventory_id && t.source_slot == self.source_slot
                        && t.target_slot == self.target_slot && t.item_instance_id
                        == self.item_instance_id,
                    Some(_) => if inv.id == self.source_inventory_id {
                        r matches Ok(EquipNext::Transaction(t)) && t.swap_target == Some(
                            (inv.id, self.source_slot.slot_index),
                        ) && t.character_id == self.character_id && t.source_inventory_id
                            == self.source_inventory_id && t.source_slot == self.source_slot
                            && t.target_slot == self.target_slot && t.item_instance_id
                            == self.item_instance_id
                    } else {
                        r matches Ok(EquipNext::FreeSlot(n)) && n.swap_inventory_id == inv.id
                            && n.capacity == inv.capacity && n.character_id == self.character_id
                            && n.source_inventory_id == self.source_inventory_id && n.source_slot
                            == self.source_slot && n.target_slot == self.target_slot
                            && n.item_instance_id == self.item_instance_id
                    },
                },
            },
    {
        let inv = match service_result(found) {
            Ok(inv) => inv,
            Err(e) => {
                return Err(e);
            },
        };
        let plan = plan_equip_swap(self.currently_equipped.is_some(), self.source_inventory_id, inv.id);
        match plan {
            SwapPlan::NeedFreeSlot => Ok(
                EquipNext::FreeSlot(
                    EquipNeedsFreeSlot {
                        character_id: self.character_id,
                        source_inventory_id: self.source_inventory_id,
                        source_slot: self.source_slot,
                        item_instance_id: self.item_instance_id,
                        target_slot: self.target_slot,
                        swap_inventory_id: inv.id,
                        capacity: inv.capacity,
                    },
                ),
            ),
            _ => {
                let target = match swap_target(plan, inv.id, self.source_slot.slot_index, None) {
                    Ok(t) => t,
                    Err(e) => {
                        return Err(e);
                    },
                };
                Ok(
                    EquipNext::Transaction(
                        EquipTransaction {
                            character_id: self.character_id,
                            source_inventory_id: self.source_inventory_id,
                            source_slot: self.source_slot,
                            target_slot: self.target_slot,
                            item_instance_id: self.item_instance_id,
                            swap_target: target,
                        },
                    ),
                )
            },
        }
    }
}

impl EquipNeedsFreeSlot {
    /// The first free slot of the swap inventory was looked for: without one, the
    /// displaced item has nowhere to go.
    pub fn free_slot_found(self, found: Result<Option<i16>, RepositoryError>) -> (r: Result<
        EquipTransaction,
        AppError,
    >)
        ensures
            match found {
                Err(e) => r matches Err(f) && f@ == app_error_of(e@),
                Ok(None) => r matches Err(f) && f@ == AppErrorView::BadRequest(
                    "No inventory space to unequip current item"@,
                ),
                Ok(Some(k)) => r matches Ok(t) && t.swap_target == Some((self.swap_inventory_id, k))
                    && t.character_id == self.character_id && t.source_inventory_id
                    == self.source_inventory_id && t.source_slot == self.source_slot
                    && t.target_slot == self.target_slot && t.item_instance_id
                    == self.item_instance_id,
            },
    {
        let free = match service_result(found) {
            Ok(f) => f,
            Err(e) => {
                return Err(e);
            },
        };
        match swap_target(SwapPlan::NeedFreeSlot, self.swap_inventory_id, self.source_slot.slot_index, free) {
            Ok(target) => Ok(
                EquipTransaction {
                    character_id: self.character_id,
                    source_inventory_id: self.source_inventory_id,
                    source_slot: self.source_slot,
                    target_slot: self.target_slot,
                    item_instance_id: self.item_instance_id,
                    swap_target: target,
                },
            ),
            Err(e) => Err(e),
        }
    }
}

} // verus!
