//! Decisions of equipping, unequipping and socketing gems.
use vstd::prelude::*;
use crate::error::{AppError, AppErrorView};
use crate::models::{
    EquipmentModel, EquipmentSlot, EquipmentSlotModel, GemSlotConfig, InventoryItemModel, ItemData, ItemKind,
    PlayableCharacterRow,
};
use crate::text::{decimal_text, owned, push_i64, push_str, str_equal};

verus! {

/// The view of a result whose error is an `AppError`.
pub open spec fn result_view<T>(r: Result<T, AppError>) -> Result<T, AppErrorView> {
    match r {
        Ok(v) => Ok(v),
        Err(e) => Err(e@),
    }
}

/// The equipment slot model of a catalog slot: the variant of the same name.
pub open spec fn slot_model_of(slot: EquipmentSlot) -> EquipmentSlotModel {
    match slot {
        EquipmentSlot::Weapon => EquipmentSlotModel::Weapon,
        EquipmentSlot::Head => EquipmentSlotModel::Head,
        EquipmentSlot::Chest => EquipmentSlotModel::Chest,
        EquipmentSlot::Legs => EquipmentSlotModel::Legs,
        EquipmentSlot::Gloves => EquipmentSlotModel::Gloves,
        EquipmentSlot::Shoes => EquipmentSlotModel::Shoes,
        EquipmentSlot::AccRing1 => EquipmentSlotModel::AccRing1,
        EquipmentSlot::AccRing2 => EquipmentSlotModel::AccRing2,
        EquipmentSlot::AccNecklace => EquipmentSlotModel::AccNecklace,
        EquipmentSlot::AccEarrings => EquipmentSlotModel::AccEarrings,
        EquipmentSlot::AccArm => EquipmentSlotModel::AccArm,
        EquipmentSlot::AccFaceBottom => EquipmentSlotModel::AccFaceBottom,
        EquipmentSlot::AccFaceMiddle => EquipmentSlotModel::AccFaceMiddle,
        EquipmentSlot::AccFaceTop => EquipmentSlotModel::AccFaceTop,
        EquipmentSlot::AccBottomPiece => EquipmentSlotModel::AccBottomPiece,
        EquipmentSlot::AccTopPiece => EquipmentSlotModel::AccTopPiece,
        EquipmentSlot::AccWeapon => EquipmentSlotModel::AccWeapon,
        EquipmentSlot::AccSupportUnit => EquipmentSlotModel::AccSupportUnit,
    }
}

/// The stored equipment slot for a catalog slot.
pub fn to_equipment_slot_model(slot: EquipmentSlot) -> (r: EquipmentSlotModel)
    ensures
        r == slot_model_of(slot),
        r.name() == slot.name(),
{
    match slot {
        EquipmentSlot::Weapon => EquipmentSlotModel::Weapon,
        EquipmentSlot::Head => EquipmentSlotModel::Head,
        EquipmentSlot::Chest => EquipmentSlotModel::Chest,
        EquipmentSlot::Legs => EquipmentSlotModel::Legs,
        EquipmentSlot::Gloves => EquipmentSlotModel::Gloves,
        EquipmentSlot::Shoes => EquipmentSlotModel::Shoes,
        EquipmentSlot::AccRing1 => EquipmentSlotModel::AccRing1,
        EquipmentSlot::AccRing2 => EquipmentSlotModel::AccRing2,
        EquipmentSlot::AccNecklace => EquipmentSlotModel::AccNecklace,
        EquipmentSlot::AccEarrings => EquipmentSlotModel::AccEarrings,
        EquipmentSlot::AccArm => EquipmentSlotModel::AccArm,
        EquipmentSlot::AccFaceBottom => EquipmentSlotModel::AccFaceBottom,
        EquipmentSlot::AccFaceMiddle => EquipmentSlotModel::AccFaceMiddle,
        EquipmentSlot::AccFaceTop => EquipmentSlotModel::AccFaceTop,
        EquipmentSlot::AccBottomPiece => EquipmentSlotModel::AccBottomPiece,
        EquipmentSlot::AccTopPiece => EquipmentSlotModel::AccTopPiece,
        EquipmentSlot::AccWeapon => EquipmentSlotModel::AccWeapon,
        EquipmentSlot::AccSupportUnit => EquipmentSlotModel::AccSupportUnit,
    }
}

/// The class a weapon is restricted to, if the item is a restricted weapon.
pub open spec fn class_restriction(kind: ItemKind) -> Option<Seq<char>> {
    match kind {
        ItemKind::Weapon(d) => match d.class {
            Some(c) => Some(c@),
            None => None,
        },
        _ => None,
    }
}

/// What checking a catalog item against a character gives: the slot it is worn in,
/// or why the character cannot wear it.
pub open spec fn equip_requirements(
    item: ItemData,
    character: PlayableCharacterRow,
) -> Result<EquipmentSlotModel, AppErrorView> {
    match item.kind.slot_of() {
        None => Err(AppErrorView::BadRequest("Item is not equippable"@)),
        Some(slot) => if character.level < item.kind.level_requirement() {
            Err(
                AppErrorView::BadRequest(
                    "Character level "@ + decimal_text(character.level as int)
                        + " does not meet item requirement "@ + decimal_text(
                        item.kind.level_requirement() as int,
                    ),
                ),
            )
        } else {
            match class_restriction(item.kind) {
                Some(r) => if character.base_character_slug@ != r
                    && character.current_class_slug@ != r {
                    Err(
                        AppErrorView::BadRequest(
                            "Item '"@ + item.slug@ + "' is restricted to '"@ + r + "'"@,
                        ),
                    )
                } else {
                    Ok(slot_model_of(slot))
                },
                None => Ok(slot_model_of(slot)),
            }
        },
    }
}

/// Checks that `character` may wear `catalog_item`: the item must be equippable, the
/// character's level must reach the item's requirement, and a weapon restricted to a
/// class is worn only by a character whose base character or current class is that class.
/// Gives the slot the item is worn in.
pub fn validate_catalog_equip_requirements(
    catalog_item: &ItemData,
    character: &PlayableCharacterRow,
) -> (r: Result<EquipmentSlotModel, AppError>)
    ensures
        result_view(r) == equip_requirements(*catalog_item, *character),
{
    let target_slot = match catalog_item.kind.equipment_slot() {
        Some(s) => s,
        None => {
            return Err(AppError::BadRequest(owned("Item is not equippable")));
        },
    };
    let level_req: i16 = match &catalog_item.kind {
        ItemKind::Weapon(data) => data.level_req,
        ItemKind::Armor(data) => data.level_req,
        _ => 0,
    };
    if character.level < level_req {
        let mut msg = owned("Character level ");
        push_i64(&mut msg, character.level as i64);
        push_str(&mut msg, " does not meet item requirement ");
        push_i64(&mut msg, level_req as i64);
        return Err(AppError::BadRequest(msg));
    }
    if let ItemKind::Weapon(data) = &catalog_item.kind {
        if let Some(restriction) = &data.class {
            let matches_base = str_equal(
                character.base_character_slug.as_str(),
                restriction.as_str(),
            );
            let matches_current_class = str_equal(
                character.current_class_slug.as_str(),
                restriction.as_str(),
            );
            if !matches_base && !matches_current_class {
                let mut msg = owned("Item '");
                push_str(&mut msg, catalog_item.slug.as_str());
                push_str(&mut msg, "' is restricted to '");
                push_str(&mut msg, restriction.as_str());
                push_str(&mut msg, "'");
                return Err(AppError::BadRequest(msg));
            }
        }
    }
    Ok(to_equipment_slot_model(target_slot))
}

/// The first item of `items` whose slug is `slug`, if any.
pub open spec fn first_entry(items: Seq<ItemData>, slug: Seq<char>) -> Option<ItemData>
    decreases items.len(),
{
    if items.len() == 0 {
        None
    } else if items[0].slug@ == slug {
        Some(items[0])
    } else {
        first_entry(items.drop_first(), slug)
    }
}

/// The first entry with a slug is one of the items.
pub proof fn lemma_first_entry_member(items: Seq<ItemData>, slug: Seq<char>)
    ensures
        first_entry(items, slug) matches Some(d) ==> exists|i: int|
            0 <= i < items.len() && #[trigger] items[i] == d,
    decreases items.len(),
{
    if items.len() > 0 && items[0].slug@ != slug {
        lemma_first_entry_member(items.drop_first(), slug);
        if first_entry(items, slug) is Some {
            let d = first_entry(items, slug)->0;
            let j = choose|j: int| 0 <= j < items.drop_first().len() && #[trigger] items.drop_first()[j] == d;
            assert(items[j + 1] == d);
        }
    }
}

/// The item catalog: every item the game knows, by slug.
pub struct Catalog {
    pub items: Vec<ItemData>,
}

impl Catalog {
    /// Whether the catalog holds an entry under `slug`.
    pub open spec fn has(&self, slug: Seq<char>) -> bool {
        exists|i: int| 0 <= i < self.items@.len() && #[trigger] self.items@[i].slug@ == slug
    }

    /// The first catalog entry whose slug is `slug`, if any.
    pub open spec fn entry(&self, slug: Seq<char>) -> Option<ItemData> {
        first_entry(self.items@, slug)
    }

    /// The first catalog entry whose slug is `slug`, if any.
    pub fn find_item_by_slug(&self, slug: &str) -> (r: Option<&ItemData>)
        ensures
            r is None <==> !self.has(slug@),
            match r {
                Some(item) => self.entry(slug@) == Some(*item),
                None => self.entry(slug@) is None,
            },
            r matches Some(item) ==> item.slug@ == slug@ && exists|i: int|
                0 <= i < self.items@.len() && self.items@[i] == *item && (forall|j: int|
                    0 <= j < i ==> #[trigger] self.items@[j].slug@ != slug@),
    {
        let n = self.items.len();
        proof {
            assert(self.items@.skip(0) == self.items@);
        }
        for i in 0..n
            invariant
                n == self.items@.len(),
                forall|j: int| 0 <= j < i ==> #[trigger] self.items@[j].slug@ != slug@,
                first_entry(self.items@, slug@) == first_entry(self.items@.skip(i as int), slug@),
        {
            proof {
                assert(self.items@.skip(i as int)[0] == self.items@[i as int]);
                assert(self.items@.skip(i as int).drop_first() == self.items@.skip(i + 1));
            }
            if str_equal(self.items[i].slug.as_str(), slug) {
                return Some(&self.items[i]);
            }
        }
        proof {
            assert(self.items@.skip(n as int).len() == 0);
        }
        None
    }

    /// The catalog entry under `slug`; a missing entry is an internal error, since every
    /// stored item comes from the catalog.
    pub fn require_item(&self, slug: &str) -> (r: Result<&ItemData, AppError>)
        ensures
            r is Ok <==> self.has(slug@),
            r matches Ok(item) ==> item.slug@ == slug@ && self.entry(slug@) == Some(*item),
            r is Err ==> self.entry(slug@) is None,
            r matches Err(e) ==> e@ == AppErrorView::Internal(
                "Missing catalog item '"@ + slug@ + "'"@,
            ),
    {
        match self.find_item_by_slug(slug) {
            Some(item) => Ok(item),
            None => {
                let mut msg = owned("Missing catalog item '");
                push_str(&mut msg, slug);
                push_str(&mut msg, "'");
                Err(AppError::Internal(msg))
            },
        }
    }
}

/// The slot that was looked up and the item instance it holds; a missing slot is
/// "not found", and a slot holding a plain item stack has no instance to act on.
pub fn item_instance_in_slot(slot: Option<InventoryItemModel>) -> (r: Result<
    (InventoryItemModel, u128),
    AppError,
>)
    ensures
        match slot {
            None => r matches Err(e) && e@ == AppErrorView::NotFound("Inventory slot is empty"@),
            Some(s) => match s.item_instance_id {
                None => r matches Err(e) && e@ == AppErrorView::BadRequest(
                    "Inventory slot has no item instance"@,
                ),
                Some(id) => r matches Ok((s2, id2)) && s2 == s && id2 == id,
            },
        },
{
    match slot {
        None => Err(AppError::NotFound(owned("Inventory slot is empty"))),
        Some(s) => match s.item_instance_id {
            None => Err(AppError::BadRequest(owned("Inventory slot has no item instance"))),
            Some(id) => Ok((s, id)),
        },
    }
}

/// Where the item that currently occupies the target equipment slot goes.
#[derive(Debug, Clone, Copy, PartialEq, Eq, Structural)]
pub enum SwapPlan {
    /// The equipment slot is empty: nothing moves out.
    NoSwap,
    /// The displaced item goes to the slot the new item leaves, in the same inventory.
    ReuseSourceSlot,
    /// The displaced item belongs in another inventory: it needs a free slot there.
    NeedFreeSlot,
}

/// Chooses where a displaced item goes when equipping from `source_inventory_id`; items
/// return to the inventory of their own kind, `swap_inventory_id`.
pub fn plan_equip_swap(
    currently_equipped: bool,
    source_inventory_id: u128,
    swap_inventory_id: u128,
) -> (r: SwapPlan)
    ensures
        !currently_equipped ==> r == SwapPlan::NoSwap,
        currently_equipped && swap_inventory_id == source_inventory_id ==> r
            == SwapPlan::ReuseSourceSlot,
        currently_equipped && swap_inventory_id != source_inventory_id ==> r
            == SwapPlan::NeedFreeSlot,
{
    if !currently_equipped {
        SwapPlan::NoSwap
    } else if swap_inventory_id == source_inventory_id {
        SwapPlan::ReuseSourceSlot
    } else {
        SwapPlan::NeedFreeSlot
    }
}

/// The inventory and slot a displaced item is moved to, given the plan, the slot the new
/// item leaves and, for `NeedFreeSlot`, the first free slot of the swap inventory.
pub fn swap_target(
    plan: SwapPlan,
    swap_inventory_id: u128,
    source_slot_index: i16,
    free_slot: Option<i16>,
) -> (r: Result<Option<(u128, i16)>, AppError>)
    ensures
        plan == SwapPlan::NoSwap ==> (r matches Ok(t) && t is None),
        plan == SwapPlan::ReuseSourceSlot ==> (r matches Ok(t) && t == Some(
            (swap_inventory_id, source_slot_index),
        )),
        plan == SwapPlan::NeedFreeSlot ==> match free_slot {
            Some(f) => r matches Ok(t) && t == Some((swap_inventory_id, f)),
            None => r matches Err(e) && e@ == AppErrorView::BadRequest(
                "No inventory space to unequip current item"@,
            ),
        },
{
    match plan {
        SwapPlan::NoSwap => Ok(None),
        SwapPlan::ReuseSourceSlot => Ok(Some((swap_inventory_id, source_slot_index))),
        SwapPlan::NeedFreeSlot => match free_slot {
            Some(f) => Ok(Some((swap_inventory_id, f))),
            None => Err(
                AppError::BadRequest(owned("No inventory space to unequip current item")),
            ),
        },
    }
}

/// The equipment slot named by a request.
pub fn parse_equipment_slot(equipment_slot: &str) -> (r: Result<EquipmentSlotModel, AppError>)
    ensures
        match EquipmentSlotModel::named(equipment_slot@) {
            Some(s) => r matches Ok(s2) && s2 == s,
            None => r matches Err(e) && e@ == AppErrorView::BadRequest(
                "Invalid equipment slot"@,
            ),
        },
{
    match EquipmentSlotModel::parse(equipment_slot) {
        Some(s) => Ok(s),
        None => Err(AppError::BadRequest(owned("Invalid equipment slot"))),
    }
}

/// What an equipment slot holds; an empty slot has nothing to act on.
pub fn require_equipped(equipped: Option<EquipmentModel>) -> (r: Result<EquipmentModel, AppError>)
    ensures
        match equipped {
            Some(e) => r matches Ok(e2) && e2 == e,
            None => r matches Err(e) && e@ == AppErrorView::NotFound("Equipment slot is empty"@),
        },
{
    match equipped {
        Some(e) => Ok(e),
        None => Err(AppError::NotFound(owned("Equipment slot is empty"))),
    }
}

/// The slot an unequipped item goes to: the first free slot of its inventory.
pub fn require_unequip_space(free_slot: Option<i16>) -> (r: Result<i16, AppError>)
    ensures
        match free_slot {
            Some(f) => r matches Ok(f2) && f2 == f,
            None => r matches Err(e) && e@ == AppErrorView::BadRequest(
                "No inventory space available to unequip item"@,
            ),
        },
{
    match free_slot {
        Some(f) => Ok(f),
        None => Err(AppError::BadRequest(owned("No inventory space available to unequip item"))),
    }
}

/// Checks that an item can go into a socket: it must be a gem.
pub fn ensure_gem(gem: &ItemData) -> (r: Result<(), AppError>)
    ensures
        gem.kind.is_gem() ==> r is Ok,
        !gem.kind.is_gem() ==> (r matches Err(e) && e@ == AppErrorView::BadRequest(
            "Item is not a gem"@,
        )),
{
    let is_gem = match &gem.kind {
        ItemKind::Gem(d) => d.has_modifiers || d.has_effect_rolls,
        _ => false,
    };
    if !is_gem {
        return Err(AppError::BadRequest(owned("Item is not a gem")));
    }
    Ok(())
}

/// The number of sockets an instance has: the base sockets plus its bonus sockets, the
/// bonus counted between 0 and the configured maximum.
pub open spec fn socket_count(base_slots: int, max_bonus_slots: int, bonus_gem_slots: int) -> int {
    base_slots + if bonus_gem_slots < 0 {
        0
    } else if bonus_gem_slots > max_bonus_slots {
        max_bonus_slots
    } else {
        bonus_gem_slots
    }
}

/// Whether an equipment kind's socket configuration can be evaluated without overflow.
pub open spec fn sockets_well_formed(equipment: ItemKind) -> bool {
    match equipment.sockets_of() {
        Some(c) => 0 <= c.max_bonus_slots && c.base_slots + c.max_bonus_slots <= i16::MAX
            && c.base_slots >= i16::MIN,
        None => true,
    }
}

/// What checking a socket index on an equipped item of kind `kind` with `bonus_gem_slots`
/// bonus sockets gives.
pub open spec fn socket_check_outcome(kind: ItemKind, bonus_gem_slots: i16, socket_index: i16) -> Result<
    (),
    AppErrorView,
> {
    match kind.sockets_of() {
        None => Err(AppErrorView::BadRequest("Equipped item does not support gems"@)),
        Some(c) => if 0 <= socket_index < socket_count(
            c.base_slots as int,
            c.max_bonus_slots as int,
            bonus_gem_slots as int,
        ) {
            Ok(())
        } else {
            Err(AppErrorView::BadRequest("Invalid gem socket index"@))
        },
    }
}

/// What a socket check gives for an item whose catalog data declares the sockets
/// `declared`: with sockets (and a maximum bonus that is not negative), every base socket
/// takes a gem, an instance with bonus sockets up to the maximum has exactly its base plus
/// bonus sockets, and no socket past the base and bonus maximum takes one; without, the
/// item takes no gem.
pub open spec fn declared_sockets_respected(
    declared: Option<GemSlotConfig>,
    kind: ItemKind,
    bonus_gem_slots: i16,
    socket_index: i16,
) -> bool {
    match declared {
        Some(c) => (c.max_bonus_slots >= 0 && 0 <= socket_index < c.base_slots
            ==> socket_check_outcome(kind, bonus_gem_slots, socket_index) is Ok) && (0
            <= bonus_gem_slots <= c.max_bonus_slots ==> (0 <= socket_index < c.base_slots
            + bonus_gem_slots <==> socket_check_outcome(kind, bonus_gem_slots, socket_index) is Ok))
            && (
        (c.max_bonus_slots >= 0 && (socket_index < 0 || socket_index >= c.base_slots
            + c.max_bonus_slots)) ==> socket_check_outcome(kind, bonus_gem_slots, socket_index) == Err::<(), AppErrorView>(
            AppErrorView::BadRequest("Invalid gem socket index"@),
        )),
        None => socket_check_outcome(kind, bonus_gem_slots, socket_index) == Err::<(), AppErrorView>(
            AppErrorView::BadRequest("Equipped item does not support gems"@),
        ),
    }
}

/// Weapons, armor and accessories take gems as their own catalog data declares: each base
/// socket of a declared configuration takes a gem (whatever the bonus sockets), no socket
/// beyond base plus maximum bonus does, and an item declaring no sockets takes none. Gems,
/// consumables, materials, quest and special items never take a gem.
pub proof fn lemma_declared_sockets_take_gems(kind: ItemKind, bonus_gem_slots: i16, socket_index: i16)
    ensures
        match kind {
            ItemKind::Weapon(d) => declared_sockets_respected(d.gem_slots, kind, bonus_gem_slots, socket_index),
            ItemKind::Armor(d) => declared_sockets_respected(d.gem_slots, kind, bonus_gem_slots, socket_index),
            ItemKind::Accessory(d) => declared_sockets_respected(
                d.gem_slots,
                kind,
                bonus_gem_slots,
                socket_index,
            ),
            _ => socket_check_outcome(kind, bonus_gem_slots, socket_index) == Err::<(), AppErrorView>(
                AppErrorView::BadRequest("Equipped item does not support gems"@),
            ),
        },
{
}

/// The stored slot of a catalog slot goes by the same name.
pub proof fn lemma_slot_model_name(slot: EquipmentSlot)
    ensures
        slot_model_of(slot).name() == slot.name(),
{
    match slot {
        EquipmentSlot::Weapon => {},
        EquipmentSlot::Head => {},
        EquipmentSlot::Chest => {},
        EquipmentSlot::Legs => {},
        EquipmentSlot::Gloves => {},
        EquipmentSlot::Shoes => {},
        EquipmentSlot::AccRing1 => {},
        EquipmentSlot::AccRing2 => {},
        EquipmentSlot::AccNecklace => {},
        EquipmentSlot::AccEarrings => {},
        EquipmentSlot::AccArm => {},
        EquipmentSlot::AccFaceBottom => {},
        EquipmentSlot::AccFaceMiddle => {},
        EquipmentSlot::AccFaceTop => {},
        EquipmentSlot::AccBottomPiece => {},
        EquipmentSlot::AccTopPiece => {},
        EquipmentSlot::AccWeapon => {},
        EquipmentSlot::AccSupportUnit => {},
    }
}

/// The refusal of a character of level `level` for an item that needs `required`.
pub open spec fn level_refusal(level: i16, required: i16) -> AppErrorView {
    AppErrorView::BadRequest(
        "Character level "@ + decimal_text(level as int) + " does not meet item requirement "@
            + decimal_text(required as int),
    )
}

/// Whether `character` may wear a weapon restricted to `class`, if it is restricted.
pub open spec fn meets_class(class: Option<String>, character: PlayableCharacterRow) -> bool {
    match class {
        Some(c) => character.base_character_slug@ == c@ || character.current_class_slug@ == c@,
        None => true,
    }
}

/// Every weapon, armor piece and accessory can be worn by a character that meets it (the
/// level of a weapon or armor piece, the class of a restricted weapon): a weapon in the
/// weapon slot, armor and accessories in the slot their catalog data names. A character
/// below the level is refused with both levels named, and one outside a weapon's class is
/// refused. Gems, consumables, materials, quest and special items are never worn.
pub proof fn lemma_equippable_items_go_to_their_slot(item: ItemData, character: PlayableCharacterRow)
    ensures
        match item.kind {
            ItemKind::Weapon(w) => (character.level >= w.level_req && meets_class(w.class, character)
                ==> equip_requirements(item, character) == Ok::<EquipmentSlotModel, AppErrorView>(
                EquipmentSlotModel::Weapon,
            )) && (character.level < w.level_req ==> equip_requirements(item, character) == Err::<
                EquipmentSlotModel,
                AppErrorView,
            >(level_refusal(character.level, w.level_req))) && (character.level >= w.level_req
                && !meets_class(w.class, character) ==> equip_requirements(item, character) is Err),
            ItemKind::Armor(a) => (character.level >= a.level_req ==> (equip_requirements(
                item,
                character,
            ) matches Ok(m) && m.name() == a.slot.name())) && (character.level < a.level_req
                ==> equip_requirements(item, character) == Err::<EquipmentSlotModel, AppErrorView>(
                level_refusal(character.level, a.level_req),
            )),
            ItemKind::Accessory(d) => character.level >= 0 ==> (equip_requirements(item, character) matches Ok(
                m,
            ) && m.name() == d.slot.name()),
            _ => equip_requirements(item, character) == Err::<EquipmentSlotModel, AppErrorView>(
                AppErrorView::BadRequest("Item is not equippable"@),
            ),
        },
{
    match item.kind {
        ItemKind::Armor(a) => {
            lemma_slot_model_name(a.slot);
        },
        ItemKind::Accessory(d) => {
            lemma_slot_model_name(d.slot);
        },
        _ => {},
    }
}

/// Checks that `socket_index` names a socket of an equipped instance of kind `equipment`
/// with `bonus_gem_slots` bonus sockets.
pub fn check_socket_index(
    equipment: &ItemData,
    bonus_gem_slots: i16,
    socket_index: i16,
) -> (r: Result<(), AppError>)
    requires
        sockets_well_formed(equipment.kind),
    ensures
        result_view(r) == socket_check_outcome(equipment.kind, bonus_gem_slots, socket_index),
        match equipment.kind.sockets_of() {
            None => r matches Err(e) && e@ == AppErrorView::BadRequest(
                "Equipped item does not support gems"@,
            ),
            Some(c) => if 0 <= socket_index < socket_count(
                c.base_slots as int,
                c.max_bonus_slots as int,
                bonus_gem_slots as int,
            ) {
                r is Ok
            } else {
                r matches Err(e) && e@ == AppErrorView::BadRequest("Invalid gem socket index"@)
            },
        },
{
    let slot_config = match equipment.kind.gem_slots() {
        Some(c) => c,
        None => {
            return Err(AppError::BadRequest(owned("Equipped item does not support gems")));
        },
    };
    let bonus: i16 = if bonus_gem_slots < 0 {
        0
    } else if bonus_gem_slots > slot_config.max_bonus_slots {
        slot_config.max_bonus_slots
    } else {
        bonus_gem_slots
    };
    let total_slots: i16 = slot_config.base_slots + bonus;
    if socket_index < 0 || socket_index >= total_slots {
        return Err(AppError::BadRequest(owned("Invalid gem socket index")));
    }
    Ok(())
}

} // verus!
