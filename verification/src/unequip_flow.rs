//! Unequipping the item worn in an equipment slot, as a sequence of stages. Each stage
//! says what to read next; its step takes what was read and gives the next stage or the
//! answer. Only the last stage names the storage transaction, so a request that fails on
//! the way (an empty slot, a full inventory) changes nothing; the caller passes a failure
//! of the transaction on through `service_result`.
use vstd::prelude::*;
use crate::equipment::{parse_equipment_slot, require_equipped, require_unequip_space};
use crate::error::{app_error_of, service_result, AppError, AppErrorView, RepositoryError};
use crate::models::{EquipmentModel, EquipmentSlotModel, InventoryModel, InventoryTypeModel, ItemInstanceModel, ItemModel};

verus! {

/// Read next: what the character wears in `slot`.
pub struct UnequipRequest {
    pub character_id: u128,
    pub slot: EquipmentSlotModel,
}

/// Read next: the worn item instance `item_instance_id`.
pub struct UnequipEquipped {
    pub character_id: u128,
    pub slot: EquipmentSlotModel,
    pub item_instance_id: u128,
}

/// Read next: the catalog row `item_id` of the worn item.
pub struct UnequipInstance {
    pub character_id: u128,
    pub slot: EquipmentSlotModel,
    pub item_id: u128,
}

/// Read next: the character's inventory of `inventory_type`, where the item goes.
pub struct UnequipItem {
    pub character_id: u128,
    pub slot: EquipmentSlotModel,
    pub inventory_type: InventoryTypeModel,
}

/// Read next: the first free slot of inventory `inventory_id` of `capacity` slots.
pub struct UnequipInventory {
    pub character_id: u128,
    pub slot: EquipmentSlotModel,
    pub inventory_id: u128,
    pub capacity: i16,
}

/// Run next: the unequipping transaction with these arguments.
pub struct UnequipTransaction {
    pub character_id: u128,
    pub slot: EquipmentSlotModel,
    pub target_inventory_id: u128,
    pub target_slot: i16,
}

/// Starts an unequipping request: the equipment slot must be one the game knows.
pub fn unequip_start(character_id: u128, equipment_slot: &str) -> (r: Result<UnequipRequest, AppError>)
    ensures
        match EquipmentSlotModel::named(equipment_slot@) {
            Some(s) => r matches Ok(q) && q.slot == s && q.character_id == character_id,
            None => r matches Err(e) && e@ == AppErrorView::BadRequest("Invalid equipment slot"@),
        },
{
    match parse_equipment_slot(equipment_slot) {
        Ok(slot) => Ok(UnequipRequest { character_id, slot }),
        Err(e) => Err(e),
    }
}

impl UnequipRequest {
    /// The equipment slot was read: it must hold an item.
    pub fn equipped_found(self, found: Result<Option<EquipmentModel>, RepositoryError>) -> (r:
        Result<UnequipEquipped, AppError>)
        ensures
            match found {
                Err(e) => r matches Err(f) && f@ == app_error_of(e@),
                Ok(None) => r matches Err(f) && f@ == AppErrorView::NotFound(
                    "Equipment slot is empty"@,
                ),
                Ok(Some(m)) => r matches Ok(n) && n.item_instance_id == m.item_instance_id
                    && n.character_id == self.character_id && n.slot == self.slot,
            },
    {
        let found = match service_result(found) {
            Ok(f) => f,
            Err(e) => {
                return Err(e);
            },
        };
        match require_equipped(found) {
            Ok(m) => Ok(
                UnequipEquipped {
                    character_id: self.character_id,
                    slot: self.slot,
                    item_instance_id: m.item_instance_id,
                },
            ),
            Err(e) => Err(e),
        }
    }
}

impl UnequipEquipped {
    /// The worn item instance was read.
    pub fn instance_found(self, found: Result<ItemInstanceModel, RepositoryError>) -> (r: Result<
        UnequipInstance,
        AppError,
    >)
        ensures
            match found {
                Err(e) => r matches Err(f) && f@ == app_error_of(e@),
                Ok(inst) => r matches Ok(n) && n.item_id == inst.item_id && n.character_id
                    == self.character_id && n.slot == self.slot,
            },
    {
        match service_result(found) {
            Ok(inst) => Ok(
                UnequipInstance { character_id: self.character_id, slot: self.slot, item_id: inst.item_id },
            ),
            Err(e) => Err(e),
        }
    }
}

impl UnequipInstance {
    /// The worn item's catalog row was read: the item goes back to the inventory of its
    /// kind.
    pub fn item_found(self, found: Result<ItemModel, RepositoryError>) -> (r: Result<
        UnequipItem,
        AppError,
    >)
        ensures
            match found {
                Err(e) => r matches Err(f) && f@ == app_error_of(e@),
                Ok(item) => r matches Ok(n) && n.inventory_type == item.inventory_type
                    && n.character_id == self.character_id && n.slot == self.slot,
            },
    {
        match service_result(found) {
            Ok(item) => Ok(
                UnequipItem {
                    character_id: self.character_id,
                    slot: self.slot,
                    inventory_type: item.inventory_type,
                },
            ),
            Err(e) => Err(e),
        }
    }
}

impl UnequipItem {
    /// The target inventory was read.
    pub fn inventory_found(self, found: Result<InventoryModel, RepositoryError>) -> (r: Result<
        UnequipInventory,
        AppError,
    >)
        ensures
            match found {
                Err(e) => r matches Err(f) && f@ == app_error_of(e@),
                Ok(inv) => r matches Ok(n) && n.inventory_id == inv.id && n.capacity
                    == inv.capacity && n.character_id == self.character_id && n.slot == self.slot,
            },
    {
        match service_result(found) {
            Ok(inv) => Ok(
                UnequipInventory {
                    character_id: self.character_id,
                    slot: self.slot,
                    inventory_id: inv.id,
                    capacity: inv.capacity,
                },
            ),
            Err(e) => Err(e),
        }
    }
}

impl UnequipInventory {
    /// The first free slot of the target inventory was looked for: the item goes there;
    /// without one the request fails and nothing is run.
    pub fn free_slot_found(self, found: Result<Option<i16>, RepositoryError>) -> (r: Result<
        UnequipTransaction,
        AppError,
    >)
        ensures
            match found {
                Err(e) => r matches Err(f) && f@ == app_error_of(e@),
                Ok(None) => r matches Err(f) && f@ == AppErrorView::BadRequest(
                    "No inventory space available to unequip item"@,
                ),
                Ok(Some(k)) => r matches Ok(t) && t.character_id == self.character_id && t.slot
                    == self.slot && t.target_inventory_id == self.inventory_id && t.target_slot == k,
            },
    {
        let found = match service_result(found) {
            Ok(f) => f,
            Err(e) => {
                return Err(e);
            },
        };
        match require_unequip_space(found) {
            Ok(k) => Ok(
                UnequipTransaction {
                    character_id: self.character_id,
                    slot: self.slot,
                    target_inventory_id: self.inventory_id,
                    target_slot: k,
                },
            ),
            Err(e) => Err(e),
        }
    }
}

} // verus!
