//! Loading a playable character for its account, as a sequence of stages. Each stage says
//! what to read next; its step takes what was read and gives the next stage or the
//! answer, the character's snapshot.
use vstd::prelude::*;
use crate::character::{
    gem_instance_ids, inventory_ids, is_referenced_instance, is_referenced_item, item_instance_ids,
    playable_character_for, referenced_item_ids, referenced_item_instance_ids,
};
use crate::error::{app_error_of, service_result, AppError, AppErrorView, RepositoryError};
use crate::ids::strictly_increasing;
use crate::models::{
    EquipmentModel, InventoryItemModel, InventoryModel, ItemInstanceGemModel, ItemInstanceModel,
    ItemModel, PlayableCharacterRow,
};
use crate::snapshot::{
    instances_cataloged, map_playable_character_snapshot, slots_placed, snapshot_of,
    PlayableCharacterSnapshot,
};

verus! {

/// Read next: the playable character `character_id`.
pub struct LoadRequest {
    pub account_id: u128,
    pub character_id: u128,
}

/// Read next: the inventories of the character.
pub struct LoadCharacter {
    pub row: PlayableCharacterRow,
}

/// Read next: the slots of the inventories `inventory_ids`.
pub struct LoadInventories {
    pub row: PlayableCharacterRow,
    pub inventories: Vec<InventoryModel>,
    pub inventory_ids: Vec<u128>,
}

/// Read next: the equipment of the character.
pub struct LoadSlots {
    pub row: PlayableCharacterRow,
    pub inventories: Vec<InventoryModel>,
    pub slots: Vec<InventoryItemModel>,
}

/// Read next: the item instances `instance_ids` that slots and equipment hold.
pub struct LoadEquipment {
    pub row: PlayableCharacterRow,
    pub inventories: Vec<InventoryModel>,
    pub slots: Vec<InventoryItemModel>,
    pub equipment: Vec<EquipmentModel>,
    pub instance_ids: Vec<u128>,
}

/// Read next: the gems socketed into the item instances `root_ids`.
pub struct LoadRootInstances {
    pub row: PlayableCharacterRow,
    pub inventories: Vec<InventoryModel>,
    pub slots: Vec<InventoryItemModel>,
    pub equipment: Vec<EquipmentModel>,
    pub root_instances: Vec<ItemInstanceModel>,
    pub root_ids: Vec<u128>,
}

/// Read next: the item instances `gem_ids` of the socketed gems.
pub struct LoadGems {
    pub row: PlayableCharacterRow,
    pub inventories: Vec<InventoryModel>,
    pub slots: Vec<InventoryItemModel>,
    pub equipment: Vec<EquipmentModel>,
    pub root_instances: Vec<ItemInstanceModel>,
    pub gems: Vec<ItemInstanceGemModel>,
    pub gem_ids: Vec<u128>,
}

/// Read next: the catalog rows `item_ids` that slots and item instances refer to.
pub struct LoadItems {
    pub row: PlayableCharacterRow,
    pub inventories: Vec<InventoryModel>,
    pub slots: Vec<InventoryItemModel>,
    pub equipment: Vec<EquipmentModel>,
    pub instances: Vec<ItemInstanceModel>,
    pub gems: Vec<ItemInstanceGemModel>,
    pub item_ids: Vec<u128>,
}

impl LoadRequest {
    /// A request of account `account_id` to load character `character_id`.
    pub fn new(account_id: u128, character_id: u128) -> (r: LoadRequest)
        ensures
            r.account_id == account_id && r.character_id == character_id,
    {
        LoadRequest { account_id, character_id }
    }

    /// The character was read: it must exist and belong to the account.
    pub fn character_found(self, found: Result<PlayableCharacterRow, RepositoryError>) -> (r:
        Result<LoadCharacter, AppError>)
        ensures
            match found {
                Err(_) => r matches Err(e) && e@ == AppErrorView::Unauthorized(
                    "Unable to fetch character data"@,
                ),
                Ok(row) => if row.account_id != self.account_id {
                    r matches Err(e) && e@ == AppErrorView::PermissionDenied(
                        "Character does not belong to this account"@,
                    )
                } else {
                    r matches Ok(n) && n.row == row
                },
            },
    {
        match playable_character_for(found, self.account_id) {
            Ok(row) => Ok(LoadCharacter { row }),
            Err(e) => Err(e),
        }
    }
}

impl LoadCharacter {
    /// The inventories were read; their slots are read next, by inventory id.
    pub fn inventories_found(self, found: Result<Vec<InventoryModel>, RepositoryError>) -> (r:
        Result<LoadInventories, AppError>)
        ensures
            match found {
                Err(e) => r matches Err(f) && f@ == app_error_of(e@),
                Ok(invs) => r matches Ok(n) && n.row == self.row && n.inventories == invs
                    && n.inventory_ids@.len() == invs@.len() && forall|i: int|
                    0 <= i < invs@.len() ==> n.inventory_ids@[i] == #[trigger] invs@[i].id,
            },
    {
        match service_result(found) {
            Ok(invs) => {
                let ids = inventory_ids(&invs);
                Ok(LoadInventories { row: self.row, inventories: invs, inventory_ids: ids })
            },
            Err(e) => Err(e),
        }
    }
}

impl LoadInventories {
    /// The slots of the inventories were read.
    pub fn slots_found(self, found: Result<Vec<InventoryItemModel>, RepositoryError>) -> (r:
        Result<LoadSlots, AppError>)
        ensures
            match found {
                Err(e) => r matches Err(f) && f@ == app_error_of(e@),
                Ok(slots) => r matches Ok(n) && n.row == self.row && n.inventories
                    == self.inventories && n.slots == slots,
            },
    {
        match service_result(found) {
            Ok(slots) => Ok(LoadSlots { row: self.row, inventories: self.inventories, slots }),
            Err(e) => Err(e),
        }
    }
}

impl LoadSlots {
    /// The equipment was read; the item instances that slots and equipment hold are read
    /// next, each id once, in increasing order.
    pub fn equipment_found(self, found: Result<Vec<EquipmentModel>, RepositoryError>) -> (r:
        Result<LoadEquipment, AppError>)
        ensures
            match found {
                Err(e) => r matches Err(f) && f@ == app_error_of(e@),
                Ok(eq) => r matches Ok(n) && n.row == self.row && n.inventories
                    == self.inventories && n.slots == self.slots && n.equipment == eq
                    && strictly_increasing(n.instance_ids@) && forall|x: u128|
                    n.instance_ids@.contains(x) <==> is_referenced_instance(self.slots@, eq@, x),
            },
    {
        match service_result(found) {
            Ok(eq) => {
                let ids = referenced_item_instance_ids(&self.slots, &eq);
                Ok(
                    LoadEquipment {
                        row: self.row,
                        inventories: self.inventories,
                        slots: self.slots,
                        equipment: eq,
                        instance_ids: ids,
                    },
                )
            },
            Err(e) => Err(e),
        }
    }
}

impl LoadEquipment {
    /// The item instances were read; the gems socketed into them are read next.
    pub fn instances_found(self, found: Result<Vec<ItemInstanceModel>, RepositoryError>) -> (r:
        Result<LoadRootInstances, AppError>)
        ensures
            match found {
                Err(e) => r matches Err(f) && f@ == app_error_of(e@),
                Ok(inst) => r matches Ok(n) && n.row == self.row && n.inventories
                    == self.inventories && n.slots == self.slots && n.equipment == self.equipment
                    && n.root_instances == inst && n.root_ids@.len() == inst@.len() && forall|i: int|
                    0 <= i < inst@.len() ==> n.root_ids@[i] == #[trigger] inst@[i].id,
            },
    {
        match service_result(found) {
            Ok(inst) => {
                let ids = item_instance_ids(&inst);
                Ok(
                    LoadRootInstances {
                        row: self.row,
                        inventories: self.inventories,
                        slots: self.slots,
                        equipment: self.equipment,
                        root_instances: inst,
                        root_ids: ids,
                    },
                )
            },
            Err(e) => Err(e),
        }
    }
}

impl LoadRootInstances {
    /// The socketed gems were read; their item instances are read next, each id once, in
    /// increasing order.
    pub fn gems_found(self, found: Result<Vec<ItemInstanceGemModel>, RepositoryError>) -> (r:
        Result<LoadGems, AppError>)
        ensures
            match found {
                Err(e) => r matches Err(f) && f@ == app_error_of(e@),
                Ok(gems) => r matches Ok(n) && n.row == self.row && n.inventories
                    == self.inventories && n.slots == self.slots && n.equipment == self.equipment
                    && n.root_instances == self.root_instances && n.gems == gems
                    && strictly_increasing(n.gem_ids@) && forall|x: u128|
                    n.gem_ids@.contains(x) <==> exists|j: int|
                        0 <= j < gems@.len() && gems@[j].gem_instance_id == x,
            },
    {
        match service_result(found) {
            Ok(gems) => {
                let ids = gem_instance_ids(&gems);
                Ok(
                    LoadGems {
                        row: self.row,
                        inventories: self.inventories,
                        slots: self.slots,
                        equipment: self.equipment,
                        root_instances: self.root_instances,
                        gems,
                        gem_ids: ids,
                    },
                )
            },
            Err(e) => Err(e),
        }
    }
}

impl LoadGems {
    /// The gems' item instances were read and follow the others; the catalog rows that
    /// slots and item instances refer to are read next, each id once, in increasing order.
    pub fn gem_instances_found(self, found: Result<Vec<ItemInstanceModel>, RepositoryError>) -> (r:
        Result<LoadItems, AppError>)
        ensures
            match found {
                Err(e) => r matches Err(f) && f@ == app_error_of(e@),
                Ok(gem_inst) => r matches Ok(n) && n.row == self.row && n.inventories
                    == self.inventories && n.slots == self.slots && n.equipment == self.equipment
                    && n.instances@ == self.root_instances@ + gem_inst@ && n.gems == self.gems
                    && strictly_increasing(n.item_ids@) && forall|x: u128|
                    n.item_ids@.contains(x) <==> is_referenced_item(
                        self.slots@,
                        self.root_instances@ + gem_inst@,
                        x,
                    ),
            },
    {
        match service_result(found) {
            Ok(gem_inst) => {
                let mut instances = self.root_instances;
                let mut more = gem_inst;
                instances.append(&mut more);
                let ids = referenced_item_ids(&self.slots, &instances);
                Ok(
                    LoadItems {
                        row: self.row,
                        inventories: self.inventories,
                        slots: self.slots,
                        equipment: self.equipment,
                        instances,
                        gems: self.gems,
                        item_ids: ids,
                    },
                )
            },
            Err(e) => Err(e),
        }
    }
}

impl LoadItems {
    /// Whether the catalog rows that were read cover every loaded item instance, and every
    /// loaded slot lies in a loaded inventory: what building the snapshot needs.
    pub fn complete(&self, items: &Vec<ItemModel>) -> (r: bool)
        ensures
            r == (instances_cataloged(self.instances@, items@) && slots_placed(
                self.slots@,
                self.inventories@,
            )),
    {
        crate::character::instances_are_cataloged(&self.instances, items)
            && crate::character::slots_are_placed(&self.slots, &self.inventories)
    }

    /// The catalog rows were read: the snapshot of the character.
    pub fn items_found(self, found: Result<Vec<ItemModel>, RepositoryError>) -> (r: Result<
        PlayableCharacterSnapshot,
        AppError,
    >)
        requires
            found matches Ok(items) ==> instances_cataloged(self.instances@, items@)
                && slots_placed(self.slots@, self.inventories@),
        ensures
            match found {
                Err(e) => r matches Err(f) && f@ == app_error_of(e@),
                Ok(items) => r matches Ok(s) && snapshot_of(
                    s,
                    self.row,
                    self.inventories@,
                    self.slots@,
                    self.equipment@,
                    self.instances@,
                    self.gems@,
                    items@,
                ),
            },
    {
        match service_result(found) {
            Ok(items) => Ok(
                map_playable_character_snapshot(
                    self.row,
                    self.inventories,
                    self.slots,
                    self.equipment,
                    self.instances,
                    self.gems,
                    items,
                ),
            ),
            Err(e) => Err(e),
        }
    }
}

} // verus!
