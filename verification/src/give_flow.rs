//! Handing items to a character, as a sequence of stages: an admin check, the item and the
//! character are read, then stacks are topped up and free slots filled until everything
//! asked for is placed. Each step takes what was read or written and says what to do next.
use vstd::prelude::*;
use crate::account::ensure_admin;
use crate::error::{app_error_of, service_result, AppError, AppErrorView, RepositoryError};
use crate::inventory::{GiveItemProgress, GiveItemStep};
use crate::models::{AccountModel, InventoryItemModel, InventoryTypeModel, ItemModel, PlayerCharacterModel};

verus! {

/// Read next: the account of the requester.
pub struct GiveItemRequest {
    pub item_slug: String,
    pub character_name: String,
    pub quantity: Option<i16>,
}

/// Read next: the catalog row of the item, by its slug.
pub struct GiveItemAllowed {
    pub item_slug: String,
    pub character_name: String,
    pub quantity: Option<i16>,
}

/// Read next: the character, by its name.
pub struct GiveItemItem {
    pub item: ItemModel,
    pub character_name: String,
    pub quantity: Option<i16>,
}

/// The placing of the item's units into the character's inventory of its kind.
pub struct GiveItemRun {
    pub character_id: u128,
    pub item_id: u128,
    pub inventory_type: InventoryTypeModel,
    pub progress: GiveItemProgress,
}

/// What to do next while placing units.
#[derive(Debug)]
pub enum GiveItemAction {
    /// Everything asked for is placed.
    Done,
    /// Look for a slot of the item below `max_stack` units.
    FindStackWithSpace { character_id: u128, inventory_type: InventoryTypeModel, item_id: u128, max_stack: i16 },
    /// Look for the first free slot.
    FindFreeSlot { character_id: u128, inventory_type: InventoryTypeModel },
    /// Add `amount` units to the stack in slot row `slot_id`.
    IncrementQuantity { slot_id: u128, amount: i16 },
    /// Put a new stack of `quantity` units into slot `slot_index`.
    InsertSlot {
        character_id: u128,
        inventory_type: InventoryTypeModel,
        item_id: u128,
        slot_index: i16,
        quantity: i16,
    },
}

impl GiveItemRequest {
    /// A request to hand `quantity` units (one when unspecified) of the item `item_slug` to
    /// the character `character_name`.
    pub fn new(item_slug: String, character_name: String, quantity: Option<i16>) -> (r: GiveItemRequest)
        ensures
            r.item_slug == item_slug && r.character_name == character_name && r.quantity == quantity,
    {
        GiveItemRequest { item_slug, character_name, quantity }
    }

    /// The requester's account was read: only admins hand out items.
    pub fn admin_found(self, found: Result<AccountModel, RepositoryError>) -> (r: Result<
        GiveItemAllowed,
        AppError,
    >)
        ensures
            match found {
                Err(_) => r matches Err(e) && e@ == AppErrorView::Unauthorized(
                    "Unable to fetch account data"@,
                ),
                Ok(a) => if a.is_admin {
                    r matches Ok(n) && n.item_slug == self.item_slug && n.character_name
                        == self.character_name && n.quantity == self.quantity
                } else {
                    r matches Err(e) && e@ == AppErrorView::PermissionDenied(
                        "Only admins can access this resource"@,
                    )
                },
            },
    {
        match ensure_admin(found) {
            Ok(()) => Ok(
                GiveItemAllowed {
                    item_slug: self.item_slug,
                    character_name: self.character_name,
                    quantity: self.quantity,
                },
            ),
            Err(e) => Err(e),
        }
    }
}

impl GiveItemAllowed {
    /// The item was read.
    pub fn item_found(self, found: Result<ItemModel, RepositoryError>) -> (r: Result<
        GiveItemItem,
        AppError,
    >)
        ensures
            match found {
                Err(e) => r matches Err(f) && f@ == app_error_of(e@),
                Ok(item) => r matches Ok(n) && n.item == item && n.character_name
                    == self.character_name && n.quantity == self.quantity,
            },
    {
        match service_result(found) {
            Ok(item) => Ok(
                GiveItemItem { item, character_name: self.character_name, quantity: self.quantity },
            ),
            Err(e) => Err(e),
        }
    }
}

impl GiveItemRun {
    /// Whether the placing is consistent.
    pub closed spec fn wf(&self) -> bool {
        self.progress.wf()
    }

    /// Units asked for.
    pub closed spec fn requested_units(&self) -> int {
        self.progress.requested_units()
    }

    /// Units not yet placed.
    pub closed spec fn remaining_units(&self) -> int {
        self.progress.remaining_units()
    }

    /// Units placed so far.
    pub closed spec fn given_units(&self) -> int {
        self.progress.given_units()
    }

    /// The largest stack of the item: its own, at least one.
    pub closed spec fn stack_limit(&self) -> int {
        self.progress.stack_limit()
    }

    /// What to do next: nothing once every unit is placed; otherwise look for a stack
    /// with room when the item stacks, or else for a free slot.
    pub fn next(&self) -> (r: GiveItemAction)
        requires
            self.wf(),
        ensures
            self.remaining_units() <= 0 <==> r is Done,
            self.remaining_units() > 0 && self.stack_limit() > 1 ==> r == (
            GiveItemAction::FindStackWithSpace {
                character_id: self.character_id,
                inventory_type: self.inventory_type,
                item_id: self.item_id,
                max_stack: self.stack_limit() as i16,
            }),
            self.remaining_units() > 0 && self.stack_limit() == 1 ==> r == (
            GiveItemAction::FindFreeSlot {
                character_id: self.character_id,
                inventory_type: self.inventory_type,
            }),
    {
        match self.progress.next_step() {
            GiveItemStep::Done => GiveItemAction::Done,
            GiveItemStep::LookForStack => GiveItemAction::FindStackWithSpace {
                character_id: self.character_id,
                inventory_type: self.inventory_type,
                item_id: self.item_id,
                max_stack: self.progress.max_stack(),
            },
            GiveItemStep::LookForFreeSlot => GiveItemAction::FindFreeSlot {
                character_id: self.character_id,
                inventory_type: self.inventory_type,
            },
        }
    }

    /// The search for a stack with room answered: a stack found is topped up with as much
    /// as remains and fits; without one, a free slot is looked for.
    pub fn stack_searched(&mut self, found: Result<Option<InventoryItemModel>, AppError>) -> (r:
        Result<GiveItemAction, AppError>)
        requires
            old(self).wf(),
            old(self).remaining_units() > 0,
            found matches Ok(Some(s)) ==> 0 <= s.quantity < old(self).stack_limit(),
        ensures
            final(self).wf(),
            final(self).requested_units() == old(self).requested_units(),
            final(self).stack_limit() == old(self).stack_limit(),
            final(self).character_id == old(self).character_id,
            final(self).item_id == old(self).item_id,
            final(self).inventory_type == old(self).inventory_type,
            match found {
                Err(e) => (r matches Err(f) && f@ == e@) && final(self).remaining_units() == old(
                    self,
                ).remaining_units(),
                Ok(None) => r == Ok::<GiveItemAction, AppError>(
                    GiveItemAction::FindFreeSlot {
                        character_id: old(self).character_id,
                        inventory_type: old(self).inventory_type,
                    },
                ) && final(self).remaining_units() == old(self).remaining_units(),
                Ok(Some(s)) => {
                    let add = if old(self).remaining_units() < old(self).stack_limit() - s.quantity {
                        old(self).remaining_units()
                    } else {
                        old(self).stack_limit() - s.quantity
                    };
                    &&& r == Ok::<GiveItemAction, AppError>(
                        GiveItemAction::IncrementQuantity { slot_id: s.id, amount: add as i16 },
                    )
                    &&& final(self).remaining_units() == old(self).remaining_units() - add
                    &&& final(self).given_units() == old(self).given_units() + add
                },
            },
    {
        match found {
            Err(e) => Err(e),
            Ok(None) => Ok(
                GiveItemAction::FindFreeSlot {
                    character_id: self.character_id,
                    inventory_type: self.inventory_type,
                },
            ),
            Ok(Some(s)) => {
                proof {
                    self.progress.lemma_stack_limit_fits();
                }
                let add = self.progress.stack_found(s.quantity);
                Ok(GiveItemAction::IncrementQuantity { slot_id: s.id, amount: add })
            },
        }
    }

    /// The search for a free slot answered: a new stack of as much as remains (at most a
    /// full stack) goes there; without a free slot the inventory is full.
    pub fn free_slot_searched(&mut self, found: Result<Option<i16>, AppError>) -> (r: Result<
        GiveItemAction,
        AppError,
    >)
        requires
            old(self).wf(),
            old(self).remaining_units() > 0,
        ensures
            final(self).wf(),
            final(self).requested_units() == old(self).requested_units(),
            final(self).stack_limit() == old(self).stack_limit(),
            final(self).character_id == old(self).character_id,
            final(self).item_id == old(self).item_id,
            final(self).inventory_type == old(self).inventory_type,
            match found {
                Err(e) => (r matches Err(f) && f@ == e@) && final(self).remaining_units() == old(
                    self,
                ).remaining_units(),
                Ok(None) => (r matches Err(f) && f@ == AppErrorView::BadRequest(
                    "Inventory is full"@,
                )) && final(self).remaining_units() == old(self).remaining_units(),
                Ok(Some(k)) => {
                    let add = if old(self).remaining_units() < old(self).stack_limit() {
                        old(self).remaining_units()
                    } else {
                        old(self).stack_limit()
                    };
                    &&& r == Ok::<GiveItemAction, AppError>(
                        GiveItemAction::InsertSlot {
                            character_id: old(self).character_id,
                            inventory_type: old(self).inventory_type,
                            item_id: old(self).item_id,
                            slot_index: k,
                            quantity: add as i16,
                        },
                    )
                    &&& final(self).remaining_units() == old(self).remaining_units() - add
                    &&& final(self).given_units() == old(self).given_units() + add
                },
            },
    {
        match found {
            Err(e) => Err(e),
            Ok(slot) => match self.progress.free_slot(slot) {
                Ok(add) => Ok(
                    GiveItemAction::InsertSlot {
                        character_id: self.character_id,
                        inventory_type: self.inventory_type,
                        item_id: self.item_id,
                        slot_index: slot.unwrap(),
                        quantity: add,
                    },
                ),
                Err(e) => Err(e),
            },
        }
    }

    /// A write of units answered: on success, what to do next.
    pub fn written<T>(&self, done: Result<T, AppError>) -> (r: Result<GiveItemAction, AppError>)
        requires
            self.wf(),
        ensures
            match done {
                Err(e) => r matches Err(f) && f@ == e@,
                Ok(_) => r matches Ok(a) && (self.remaining_units() <= 0 <==> a is Done),
            },
    {
        match done {
            Err(e) => Err(e),
            Ok(_) => Ok(self.next()),
        }
    }
}

impl GiveItemItem {
    /// The character was read: units of the item go to its inventory of the item's kind,
    /// in stacks of at most the item's stack size (at least one).
    pub fn character_found(self, found: Result<PlayerCharacterModel, AppError>) -> (r: Result<
        GiveItemRun,
        AppError,
    >)
        ensures
            match found {
                Err(e) => r matches Err(f) && f@ == e@,
                Ok(c) => r matches Ok(run) && run.wf() && run.character_id == c.id && run.item_id
                    == self.item.id && run.inventory_type == self.item.inventory_type
                    && run.requested_units() == match self.quantity {
                    Some(q) => q as int,
                    None => 1,
                } && run.remaining_units() == run.requested_units() && run.given_units() == 0
                    && run.stack_limit() == if self.item.max_stack < 1 {
                    1
                } else {
                    self.item.max_stack as int
                },
            },
    {
        match found {
            Err(e) => Err(e),
            Ok(c) => Ok(
                GiveItemRun {
                    character_id: c.id,
                    item_id: self.item.id,
                    inventory_type: self.item.inventory_type,
                    progress: GiveItemProgress::new(self.quantity, self.item.max_stack),
                },
            ),
        }
    }
}

} // verus!
