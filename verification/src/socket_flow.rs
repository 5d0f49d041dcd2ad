//! Socketing a gem into an equipped item, as a sequence of stages. Each stage says what
//! to read next; its step takes what was read and gives the next stage or the answer.
//! The caller performs each read and, at the end, the storage transaction, whose failure
//! it passes on through `service_result`.
use vstd::prelude::*;
use crate::equipment::{
    check_socket_index, ensure_gem, item_instance_in_slot, parse_equipment_slot, socket_count,
    sockets_well_formed, lemma_first_entry_member, Catalog,
};
use crate::error::{app_error_of, service_result, AppError, AppErrorView, RepositoryError};
use crate::models::{
    EquipmentModel, EquipmentSlotModel, InventoryItemModel, InventoryModel, ItemInstanceModel,
    ItemModel,
};

verus! {

/// Whether every catalog entry's sockets can be counted without overflow.
pub open spec fn catalog_sockets_well_formed(catalog: &Catalog) -> bool {
    forall|i: int| 0 <= i < catalog.items@.len() ==> sockets_well_formed(#[trigger] catalog.items@[i].kind)
}

/// Whether every catalog entry's sockets can be counted without overflow, checked.
pub fn catalog_sockets_checked(catalog: &Catalog) -> (r: bool)
    ensures
        r == catalog_sockets_well_formed(catalog),
{
    let n = catalog.items.len();
    for i in 0..n
        invariant
            n == catalog.items@.len(),
            forall|j: int| 0 <= j < i ==> sockets_well_formed(#[trigger] catalog.items@[j].kind),
    {
        let ok = match catalog.items[i].kind.gem_slots() {
            Some(c) => 0 <= c.max_bonus_slots && (c.base_slots as i32) + (c.max_bonus_slots as i32)
                <= 32767,
            None => true,
        };
        if !ok {
            return false;
        }
    }
    true
}

/// Read next: what the character wears in `equipment_slot`.
pub struct SocketGemRequest {
    pub character_id: u128,
    pub equipment_slot: EquipmentSlotModel,
    pub inventory_type: String,
    pub slot: i16,
    pub socket_index: i16,
}

/// Read next: the character's inventory of `inventory_type`.
pub struct SocketGemEquipped {
    pub character_id: u128,
    pub inventory_type: String,
    pub slot: i16,
    pub socket_index: i16,
    pub equipped_instance_id: u128,
}

/// Read next: slot `slot` of inventory `inventory_id`.
pub struct SocketGemInventory {
    pub inventory_id: u128,
    pub slot: i16,
    pub socket_index: i16,
    pub equipped_instance_id: u128,
}

/// Read next: the gem's item instance, `gem_instance_id`.
pub struct SocketGemSource {
    pub inventory_id: u128,
    pub source_slot_index: i16,
    pub gem_instance_id: u128,
    pub socket_index: i16,
    pub equipped_instance_id: u128,
}

/// Read next: the catalog row `gem_item_id` of the gem.
pub struct SocketGemInstance {
    pub inventory_id: u128,
    pub source_slot_index: i16,
    pub gem_instance_id: u128,
    pub gem_item_id: u128,
    pub socket_index: i16,
    pub equipped_instance_id: u128,
}

/// Read next: the equipped item instance, `equipped_instance_id`.
pub struct SocketGemChecked {
    pub inventory_id: u128,
    pub source_slot_index: i16,
    pub gem_instance_id: u128,
    pub socket_index: i16,
    pub equipped_instance_id: u128,
}

/// Read next: the catalog row `equipment_item_id` of the equipped item.
pub struct SocketGemEquipment {
    pub inventory_id: u128,
    pub source_slot_index: i16,
    pub gem_instance_id: u128,
    pub socket_index: i16,
    pub equipment_instance_id: u128,
    pub equipment_item_id: u128,
    pub bonus_gem_slots: i16,
}

/// Run next: the socketing transaction with these arguments.
pub struct SocketGemTransaction {
    pub source_inventory_id: u128,
    pub source_slot_index: i16,
    pub item_instance_id: u128,
    pub socket_index: i16,
    pub gem_instance_id: u128,
}

/// Starts a socketing request: the equipment slot must be one the game knows.
pub fn socket_gem_start(
    character_id: u128,
    equipment_slot: &str,
    inventory_type: String,
    slot: i16,
    socket_index: i16,
) -> (r: Result<SocketGemRequest, AppError>)
    ensures
        match EquipmentSlotModel::named(equipment_slot@) {
            Some(s) => r matches Ok(q) && q.equipment_slot == s && q.character_id == character_id
                && q.inventory_type == inventory_type && q.slot == slot && q.socket_index
                == socket_index,
            None => r matches Err(e) && e@ == AppErrorView::BadRequest("Invalid equipment slot"@),
        },
{
    let equipment_slot = parse_equipment_slot(equipment_slot)?;
    Ok(SocketGemRequest { character_id, equipment_slot, inventory_type, slot, socket_index })
}

impl SocketGemRequest {
    /// The equipment slot was read: it must hold an item.
    pub fn equipped_found(self, found: Result<Option<EquipmentModel>, RepositoryError>) -> (r:
        Result<SocketGemEquipped, AppError>)
        ensures
            match found {
                Err(e) => r matches Err(f) && f@ == app_error_of(e@),
                Ok(None) => r matches Err(f) && f@ == AppErrorView::NotFound(
                    "Equipment slot is empty"@,
                ),
                Ok(Some(m)) => r matches Ok(n) && n.equipped_instance_id == m.item_instance_id
                    && n.character_id == self.character_id && n.inventory_type == self.inventory_type
                    && n.slot == self.slot && n.socket_index == self.socket_index,
            },
    {
        match service_result(found)? {
            None => Err(AppError::NotFound(crate::text::owned("Equipment slot is empty"))),
            Some(m) => Ok(
                SocketGemEquipped {
                    character_id: self.character_id,
                    inventory_type: self.inventory_type,
                    slot: self.slot,
                    socket_index: self.socket_index,
                    equipped_instance_id: m.item_instance_id,
                },
            ),
        }
    }
}

impl SocketGemEquipped {
    /// The source inventory was read.
    pub fn inventory_found(self, found: Result<InventoryModel, RepositoryError>) -> (r: Result<
        SocketGemInventory,
        AppError,
    >)
        ensures
            match found {
                Err(e) => r matches Err(f) && f@ == app_error_of(e@),
                Ok(inv) => r matches Ok(n) && n.inventory_id == inv.id && n.slot == self.slot
                    && n.socket_index == self.socket_index && n.equipped_instance_id
                    == self.equipped_instance_id,
            },
    {
        let inv = service_result(found)?;
        Ok(
            SocketGemInventory {
                inventory_id: inv.id,
                slot: self.slot,
                socket_index: self.socket_index,
                equipped_instance_id: self.equipped_instance_id,
            },
        )
    }
}

impl SocketGemInventory {
    /// The source slot was read: it must hold an item instance, the gem.
    pub fn slot_found(self, found: Result<Option<InventoryItemModel>, RepositoryError>) -> (r:
        Result<SocketGemSource, AppError>)
        ensures
            match found {
                Err(e) => r matches Err(f) && f@ == app_error_of(e@),
                Ok(None) => r matches Err(f) && f@ == AppErrorView::NotFound(
                    "Inventory slot is empty"@,
                ),
                Ok(Some(s)) => match s.item_instance_id {
                    None => r matches Err(f) && f@ == AppErrorView::BadRequest(
                        "Inventory slot has no item instance"@,
                    ),
                    Some(gem) => r matches Ok(n) && n.inventory_id == self.inventory_id
                        && n.source_slot_index == s.slot_index && n.gem_instance_id == gem
                        && n.socket_index == self.socket_index && n.equipped_instance_id
                        == self.equipped_instance_id,
                },
            },
    {
        let found = service_result(found)?;
        let (s, gem) = item_instance_in_slot(found)?;
        Ok(
            SocketGemSource {
                inventory_id: self.inventory_id,
                source_slot_index: s.slot_index,
                gem_instance_id: gem,
                socket_index: self.socket_index,
                equipped_instance_id: self.equipped_instance_id,
            },
        )
    }
}

impl SocketGemSource {
    /// The gem's item instance was read.
    pub fn gem_instance_found(self, found: Result<ItemInstanceModel, RepositoryError>) -> (r:
        Result<SocketGemInstance, AppError>)
        ensures
            match found {
                Err(e) => r matches Err(f) && f@ == app_error_of(e@),
                Ok(inst) => r matches Ok(n) && n.gem_item_id == inst.item_id && n.inventory_id
                    == self.inventory_id && n.source_slot_index == self.source_slot_index
                    && n.gem_instance_id == self.gem_instance_id && n.socket_index
                    == self.socket_index && n.equipped_instance_id == self.equipped_instance_id,
            },
    {
        let inst = service_result(found)?;
        Ok(
            SocketGemInstance {
                inventory_id: self.inventory_id,
                source_slot_index: self.source_slot_index,
                gem_instance_id: self.gem_instance_id,
                gem_item_id: inst.item_id,
                socket_index: self.socket_index,
                equipped_instance_id: self.equipped_instance_id,
            },
        )
    }
}

impl SocketGemInstance {
    /// The gem's catalog row was read: its catalog entry must exist and be a gem.
    pub fn gem_item_found(self, found: Result<ItemModel, RepositoryError>, catalog: &Catalog) -> (r:
        Result<SocketGemChecked, AppError>)
        ensures
            match found {
                Err(e) => r matches Err(f) && f@ == app_error_of(e@),
                Ok(item) => match catalog.entry(item.slug@) {
                    None => r matches Err(f) && f@ == AppErrorView::Internal(
                        "Missing catalog item '"@ + item.slug@ + "'"@,
                    ),
                    Some(data) => if data.kind.is_gem() {
                        r matches Ok(n) && n.inventory_id == self.inventory_id
                            && n.source_slot_index == self.source_slot_index && n.gem_instance_id
                            == self.gem_instance_id && n.socket_index == self.socket_index
                            && n.equipped_instance_id == self.equipped_instance_id
                    } else {
                        r matches Err(f) && f@ == AppErrorView::BadRequest("Item is not a gem"@)
                    },
                },
            },
    {
        let item = match service_result(found) {
            Ok(item) => item,
            Err(e) => {
                return Err(e);
            },
        };
        let data = match catalog.require_item(item.slug.as_str()) {
            Ok(d) => d,
            Err(e) => {
                return Err(e);
            },
        };
        ensure_gem(data)?;
        Ok(
            SocketGemChecked {
                inventory_id: self.inventory_id,
                source_slot_index: self.source_slot_index,
                gem_instance_id: self.gem_instance_id,
                socket_index: self.socket_index,
                equipped_instance_id: self.equipped_instance_id,
            },
        )
    }
}

impl SocketGemChecked {
    /// The equipped item instance was read.
    pub fn equipment_instance_found(self, found: Result<ItemInstanceModel, RepositoryError>) -> (r:
        Result<SocketGemEquipment, AppError>)
        ensures
            match found {
                Err(e) => r matches Err(f) && f@ == app_error_of(e@),
                Ok(inst) => r matches Ok(n) && n.equipment_instance_id == inst.id
                    && n.equipment_item_id == inst.item_id && n.bonus_gem_slots
                    == inst.bonus_gem_slots && n.inventory_id == self.inventory_id
                    && n.source_slot_index == self.source_slot_index && n.gem_instance_id
                    == self.gem_instance_id && n.socket_index == self.socket_index,
            },
    {
        let inst = service_result(found)?;
        Ok(
            SocketGemEquipment {
                inventory_id: self.inventory_id,
                source_slot_index: self.source_slot_index,
                gem_instance_id: self.gem_instance_id,
                socket_index: self.socket_index,
                equipment_instance_id: inst.id,
                equipment_item_id: inst.item_id,
                bonus_gem_slots: inst.bonus_gem_slots,
            },
        )
    }
}

impl SocketGemEquipment {
    /// The equipped item's catalog row was read: its catalog entry must exist, take gems,
    /// and have the socket asked for. Gives the transaction to run.
    pub fn equipment_item_found(self, found: Result<ItemModel, RepositoryError>, catalog: &Catalog) -> (r:
        Result<SocketGemTransaction, AppError>)
        requires
            catalog_sockets_well_formed(catalog),
        ensures
            match found {
                Err(e) => r matches Err(f) && f@ == app_error_of(e@),
                Ok(item) => match catalog.entry(item.slug@) {
                    None => r matches Err(f) && f@ == AppErrorView::Internal(
                        "Missing catalog item '"@ + item.slug@ + "'"@,
                    ),
                    Some(data) => match data.kind.sockets_of() {
                        None => r matches Err(f) && f@ == AppErrorView::BadRequest(
                            "Equipped item does not support gems"@,
                        ),
                        Some(c) => if 0 <= self.socket_index < socket_count(
                            c.base_slots as int,
                            c.max_bonus_slots as int,
                            self.bonus_gem_slots as int,
                        ) {
                            r matches Ok(t) && t.source_inventory_id == self.inventory_id
                                && t.source_slot_index == self.source_slot_index
                                && t.item_instance_id == self.equipment_instance_id
                                && t.socket_index == self.socket_index && t.gem_instance_id
                                == self.gem_instance_id
                        } else {
                            r matches Err(f) && f@ == AppErrorView::BadRequest(
                                "Invalid gem socket index"@,
                            )
                        },
                    },
                },
            },
    {
        let item = match service_result(found) {
            Ok(item) => item,
            Err(e) => {
                return Err(e);
            },
        };
        let data = match catalog.require_item(item.slug.as_str()) {
            Ok(d) => d,
            Err(e) => {
                return Err(e);
            },
        };
        proof {
            lemma_first_entry_member(catalog.items@, item.slug@);
            let i = choose|i: int|
                0 <= i < catalog.items@.len() && #[trigger] catalog.items@[i] == *data;
            assert(sockets_well_formed(catalog.items@[i].kind));
        }
        check_socket_index(data, self.bonus_gem_slots, self.socket_index)?;
        Ok(
            SocketGemTransaction {
                source_inventory_id: self.inventory_id,
                source_slot_index: self.source_slot_index,
                item_instance_id: self.equipment_instance_id,
                socket_index: self.socket_index,
                gem_instance_id: self.gem_instance_id,
            },
        )
    }
}

} // verus!
