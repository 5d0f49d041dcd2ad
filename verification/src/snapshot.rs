//! Assembling the persisted state of a playable character from the rows that were loaded.
use vstd::prelude::*;
use crate::models::{
    EquipmentModel, InventoryItemModel, InventoryModel, ItemInstanceGemModel, ItemInstanceModel,
    ItemModel, JsonAttributes, PlayableCharacterRow,
};
use crate::text::owned;

verus! {

/// Whether the skill tiers of a character are unlocked.
#[derive(Debug, Clone, Copy, PartialEq, Eq, Structural)]
pub struct CharacterSkillUnlocks {
    pub beginner: bool,
    pub intermediate: bool,
}

/// A gem socketed into an item instance.
#[derive(Debug, Clone, Copy, PartialEq, Eq, Structural)]
pub struct PersistedItemInstanceGemSnapshot {
    pub slot_index: i16,
    pub gem_instance_id: u128,
}

/// An item instance with its catalog slug, kind of inventory and socketed gems.
#[derive(Debug)]
pub struct PersistedItemInstanceSnapshot {
    pub id: u128,
    pub item_id: u128,
    pub item_slug: String,
    pub inventory_type: String,
    pub refinement: i16,
    pub bonus_gem_slots: i16,
    pub attributes_json: String,
    pub in_shared_storage: bool,
    pub in_trade: bool,
    pub gems: Vec<PersistedItemInstanceGemSnapshot>,
}

/// An occupied inventory slot with the slug of what it holds, when known.
#[derive(Debug)]
pub struct PersistedInventoryItemSnapshot {
    pub id: u128,
    pub inventory_id: u128,
    pub inventory_type: String,
    pub slot_index: i16,
    pub quantity: i16,
    pub item_instance_id: Option<u128>,
    pub item_id: Option<u128>,
    pub item_slug: Option<String>,
}

/// An inventory with its occupied slots.
#[derive(Debug)]
pub struct PersistedInventorySnapshot {
    pub id: u128,
    pub inventory_type: String,
    pub capacity: i16,
    pub items: Vec<PersistedInventoryItemSnapshot>,
}

/// A worn item: the slot's name and the item instance in it.
#[derive(Debug)]
pub struct PersistedEquipmentSnapshot {
    pub slot: String,
    pub item_instance_id: u128,
}

/// Everything persisted about a playable character.
#[derive(Debug)]
pub struct PlayableCharacterSnapshot {
    pub account_id: u128,
    pub character_id: u128,
    pub name: String,
    pub base_character_slug: String,
    pub current_class_slug: String,
    pub level: i16,
    pub experience: i64,
    pub credits: i64,
    pub skill_unlocks: CharacterSkillUnlocks,
    pub inventories: Vec<PersistedInventorySnapshot>,
    pub equipment: Vec<PersistedEquipmentSnapshot>,
    pub item_instances: Vec<PersistedItemInstanceSnapshot>,
}

/// An item instance snapshot with its text as character sequences.
pub struct ItemInstanceSnapshotView {
    pub id: u128,
    pub item_id: u128,
    pub item_slug: Seq<char>,
    pub inventory_type: Seq<char>,
    pub refinement: i16,
    pub bonus_gem_slots: i16,
    pub attributes_json: Seq<char>,
    pub in_shared_storage: bool,
    pub in_trade: bool,
    pub gems: Seq<PersistedItemInstanceGemSnapshot>,
}

impl View for PersistedItemInstanceSnapshot {
    type V = ItemInstanceSnapshotView;

    open spec fn view(&self) -> ItemInstanceSnapshotView {
        ItemInstanceSnapshotView {
            id: self.id,
            item_id: self.item_id,
            item_slug: self.item_slug@,
            inventory_type: self.inventory_type@,
            refinement: self.refinement,
            bonus_gem_slots: self.bonus_gem_slots,
            attributes_json: self.attributes_json@,
            in_shared_storage: self.in_shared_storage,
            in_trade: self.in_trade,
            gems: self.gems@,
        }
    }
}

/// An inventory slot snapshot with its text as character sequences.
pub struct InventoryItemSnapshotView {
    pub id: u128,
    pub inventory_id: u128,
    pub inventory_type: Seq<char>,
    pub slot_index: i16,
    pub quantity: i16,
    pub item_instance_id: Option<u128>,
    pub item_id: Option<u128>,
    pub item_slug: Option<Seq<char>>,
}

impl View for PersistedInventoryItemSnapshot {
    type V = InventoryItemSnapshotView;

    open spec fn view(&self) -> InventoryItemSnapshotView {
        InventoryItemSnapshotView {
            id: self.id,
            inventory_id: self.inventory_id,
            inventory_type: self.inventory_type@,
            slot_index: self.slot_index,
            quantity: self.quantity,
            item_instance_id: self.item_instance_id,
            item_id: self.item_id,
            item_slug: match self.item_slug {
                Some(s) => Some(s@),
                None => None,
            },
        }
    }
}

/// An inventory snapshot with its text as character sequences.
pub struct InventorySnapshotView {
    pub id: u128,
    pub inventory_type: Seq<char>,
    pub capacity: i16,
    pub items: Seq<InventoryItemSnapshotView>,
}

impl View for PersistedInventorySnapshot {
    type V = InventorySnapshotView;

    open spec fn view(&self) -> InventorySnapshotView {
        InventorySnapshotView {
            id: self.id,
            inventory_type: self.inventory_type@,
            capacity: self.capacity,
            items: self.items@.map_values(|x: PersistedInventoryItemSnapshot| x@),
        }
    }
}

/// Index of the last catalog row with id `id` in `items`, or -1.
pub open spec fn last_item_index(items: Seq<ItemModel>, id: u128) -> int
    decreases items.len(),
{
    if items.len() == 0 {
        -1
    } else if items.last().id == id {
        items.len() - 1
    } else {
        last_item_index(items.drop_last(), id)
    }
}

/// Index of the last inventory with id `id` in `inventories`, or -1.
pub open spec fn last_inventory_index(inventories: Seq<InventoryModel>, id: u128) -> int
    decreases inventories.len(),
{
    if inventories.len() == 0 {
        -1
    } else if inventories.last().id == id {
        inventories.len() - 1
    } else {
        last_inventory_index(inventories.drop_last(), id)
    }
}

/// Index of the first item instance with id `id` in `instances`, or -1.
pub open spec fn first_instance_index(instances: Seq<ItemInstanceModel>, id: u128) -> int
    decreases instances.len(),
{
    if instances.len() == 0 {
        -1
    } else {
        let f = first_instance_index(instances.drop_last(), id);
        if f >= 0 {
            f
        } else if instances.last().id == id {
            instances.len() - 1
        } else {
            -1
        }
    }
}

/// Index of the first inventory with id `id` in `inventories`, or -1.
pub open spec fn first_inventory_index(inventories: Seq<InventoryModel>, id: u128) -> int
    decreases inventories.len(),
{
    if inventories.len() == 0 {
        -1
    } else {
        let f = first_inventory_index(inventories.drop_last(), id);
        if f >= 0 {
            f
        } else if inventories.last().id == id {
            inventories.len() - 1
        } else {
            -1
        }
    }
}

/// The gems socketed into instance `id`, in the order they were loaded.
pub open spec fn gem_snapshots(gems: Seq<ItemInstanceGemModel>, id: u128) -> Seq<
    PersistedItemInstanceGemSnapshot,
>
    decreases gems.len(),
{
    if gems.len() == 0 {
        Seq::empty()
    } else {
        let rest = gem_snapshots(gems.drop_last(), id);
        if gems.last().item_instance_id == id {
            rest.push(
                PersistedItemInstanceGemSnapshot {
                    slot_index: gems.last().slot_index,
                    gem_instance_id: gems.last().gem_instance_id,
                },
            )
        } else {
            rest
        }
    }
}

/// The attribute text of an instance: the string itself for a JSON string, the JSON
/// text of any other value.
pub open spec fn attributes_text(a: JsonAttributes) -> Seq<char> {
    match a {
        JsonAttributes::Text(s) => s@,
        JsonAttributes::Encoded(s) => s@,
    }
}

/// Every item instance refers to a catalog row that was loaded.
pub open spec fn instances_cataloged(instances: Seq<ItemInstanceModel>, items: Seq<ItemModel>) -> bool {
    forall|k: int| 0 <= k < instances.len() ==> last_item_index(items, #[trigger] instances[k].item_id) >= 0
}

/// Every occupied slot belongs to an inventory that was loaded.
pub open spec fn slots_placed(slots: Seq<InventoryItemModel>, inventories: Seq<InventoryModel>) -> bool {
    forall|k: int| 0 <= k < slots.len() ==> last_inventory_index(inventories, #[trigger] slots[k].inventory_id) >= 0
}

/// The snapshot of the `k`-th loaded instance. An instance loaded twice carries its gems
/// only the first time.
pub open spec fn expected_instance(
    instances: Seq<ItemInstanceModel>,
    k: int,
    items: Seq<ItemModel>,
    gems: Seq<ItemInstanceGemModel>,
) -> ItemInstanceSnapshotView {
    let inst = instances[k];
    let item = items[last_item_index(items, inst.item_id)];
    ItemInstanceSnapshotView {
        id: inst.id,
        item_id: inst.item_id,
        item_slug: item.slug@,
        inventory_type: item.inventory_type.name(),
        refinement: inst.refinement,
        bonus_gem_slots: inst.bonus_gem_slots,
        attributes_json: attributes_text(inst.attributes),
        in_shared_storage: inst.in_shared_storage,
        in_trade: inst.in_trade,
        gems: if first_instance_index(instances.take(k), inst.id) >= 0 {
            Seq::empty()
        } else {
            gem_snapshots(gems, inst.id)
        },
    }
}

/// The slug shown for an occupied slot: that of its catalog item when the slot holds a
/// known stack, else that of the first loaded instance it holds.
pub open spec fn slot_item_slug(
    slot: InventoryItemModel,
    items: Seq<ItemModel>,
    instances: Seq<ItemInstanceModel>,
) -> Option<Seq<char>> {
    let direct = match slot.item_id {
        Some(id) => if last_item_index(items, id) >= 0 {
            Some(items[last_item_index(items, id)].slug@)
        } else {
            None
        },
        None => None,
    };
    match direct {
        Some(s) => Some(s),
        None => match slot.item_instance_id {
            Some(iid) => if first_instance_index(instances, iid) >= 0 {
                Some(
                    items[last_item_index(
                        items,
                        instances[first_instance_index(instances, iid)].item_id,
                    )].slug@,
                )
            } else {
                None
            },
            None => None,
        },
    }
}

/// The snapshot of an occupied slot.
pub open spec fn expected_slot(
    slot: InventoryItemModel,
    items: Seq<ItemModel>,
    instances: Seq<ItemInstanceModel>,
    inventories: Seq<InventoryModel>,
) -> InventoryItemSnapshotView {
    InventoryItemSnapshotView {
        id: slot.id,
        inventory_id: slot.inventory_id,
        inventory_type: inventories[last_inventory_index(
            inventories,
            slot.inventory_id,
        )].inventory_type.name(),
        slot_index: slot.slot_index,
        quantity: slot.quantity,
        item_instance_id: slot.item_instance_id,
        item_id: slot.item_id,
        item_slug: slot_item_slug(slot, items, instances),
    }
}

/// The snapshots of the slots of inventory `inventory_id`, in the order they were loaded.
pub open spec fn slots_of_inventory(
    slots: Seq<InventoryItemModel>,
    inventory_id: u128,
    items: Seq<ItemModel>,
    instances: Seq<ItemInstanceModel>,
    inventories: Seq<InventoryModel>,
) -> Seq<InventoryItemSnapshotView>
    decreases slots.len(),
{
    if slots.len() == 0 {
        Seq::empty()
    } else {
        let rest = slots_of_inventory(slots.drop_last(), inventory_id, items, instances, inventories);
        if slots.last().inventory_id == inventory_id {
            rest.push(expected_slot(slots.last(), items, instances, inventories))
        } else {
            rest
        }
    }
}

/// The snapshot of the `p`-th loaded inventory. An inventory loaded twice lists its slots
/// only the first time.
pub open spec fn expected_inventory(
    inventories: Seq<InventoryModel>,
    p: int,
    slots: Seq<InventoryItemModel>,
    items: Seq<ItemModel>,
    instances: Seq<ItemInstanceModel>,
) -> InventorySnapshotView {
    let inv = inventories[p];
    InventorySnapshotView {
        id: inv.id,
        inventory_type: inv.inventory_type.name(),
        capacity: inv.capacity,
        items: if first_inventory_index(inventories.take(p), inv.id) >= 0 {
            Seq::empty()
        } else {
            slots_of_inventory(slots, inv.id, items, instances, inventories)
        },
    }
}

/// The attribute text of an item instance: a JSON string gives its content, any other
/// JSON value its JSON text.
pub fn json_value_to_string(value: &JsonAttributes) -> (r: String)
    ensures
        r@ == attributes_text(*value),
{
    match value {
        JsonAttributes::Text(s) => s.clone(),
        JsonAttributes::Encoded(s) => s.clone(),
    }
}

fn find_last_item(items: &Vec<ItemModel>, id: u128) -> (r: Option<usize>)
    ensures
        match r {
            Some(i) => i as int == last_item_index(items@, id) && i < items@.len(),
            None => last_item_index(items@, id) == -1,
        },
{
    let mut found: Option<usize> = None;
    let n = items.len();
    for k in 0..n
        invariant
            n == items@.len(),
            match found {
                Some(i) => i as int == last_item_index(items@.take(k as int), id) && i < k,
                None => last_item_index(items@.take(k as int), id) == -1,
            },
    {
        assert(items@.take(k + 1).drop_last() == items@.take(k as int));
        if items[k].id == id {
            found = Some(k);
        }
    }
    assert(items@.take(n as int) == items@);
    found
}

fn find_last_inventory(inventories: &Vec<InventoryModel>, id: u128) -> (r: Option<usize>)
    ensures
        match r {
            Some(i) => i as int == last_inventory_index(inventories@, id) && i
                < inventories@.len(),
            None => last_inventory_index(inventories@, id) == -1,
        },
{
    let mut found: Option<usize> = None;
    let n = inventories.len();
    for k in 0..n
        invariant
            n == inventories@.len(),
            match found {
                Some(i) => i as int == last_inventory_index(inventories@.take(k as int), id) && i
                    < k,
                None => last_inventory_index(inventories@.take(k as int), id) == -1,
            },
    {
        assert(inventories@.take(k + 1).drop_last() == inventories@.take(k as int));
        if inventories[k].id == id {
            found = Some(k);
        }
    }
    assert(inventories@.take(n as int) == inventories@);
    found
}

fn find_first_instance(instances: &Vec<ItemInstanceModel>, limit: usize, id: u128) -> (r: Option<
    usize,
>)
    requires
        limit <= instances@.len(),
    ensures
        match r {
            Some(i) => i as int == first_instance_index(instances@.take(limit as int), id) && i
                < limit,
            None => first_instance_index(instances@.take(limit as int), id) == -1,
        },
{
    for k in 0..limit
        invariant
            limit <= instances@.len(),
            first_instance_index(instances@.take(k as int), id) == -1,
    {
        assert(instances@.take(k + 1).drop_last() == instances@.take(k as int));
        if instances[k].id == id {
            proof {
                lemma_first_instance_prefix(instances@, k as int + 1, limit as int, id);
            }
            return Some(k);
        }
    }
    None
}

proof fn lemma_first_instance_prefix(s: Seq<ItemInstanceModel>, a: int, b: int, id: u128)
    requires
        0 <= a <= b <= s.len(),
        first_instance_index(s.take(a), id) >= 0,
    ensures
        first_instance_index(s.take(b), id) == first_instance_index(s.take(a), id),
    decreases b - a,
{
    if b > a {
        lemma_first_instance_prefix(s, a, b - 1, id);
        assert(s.take(b).drop_last() == s.take(b - 1));
    }
}

fn find_first_inventory(inventories: &Vec<InventoryModel>, limit: usize, id: u128) -> (r: Option<
    usize,
>)
    requires
        limit <= inventories@.len(),
    ensures
        match r {
            Some(i) => i as int == first_inventory_index(inventories@.take(limit as int), id) && i
                < limit,
            None => first_inventory_index(inventories@.take(limit as int), id) == -1,
        },
{
    for k in 0..limit
        invariant
            limit <= inventories@.len(),
            first_inventory_index(inventories@.take(k as int), id) == -1,
    {
        assert(inventories@.take(k + 1).drop_last() == inventories@.take(k as int));
        if inventories[k].id == id {
            proof {
                lemma_first_inventory_prefix(inventories@, k as int + 1, limit as int, id);
            }
            return Some(k);
        }
    }
    None
}

proof fn lemma_first_inventory_prefix(s: Seq<InventoryModel>, a: int, b: int, id: u128)
    requires
        0 <= a <= b <= s.len(),
        first_inventory_index(s.take(a), id) >= 0,
    ensures
        first_inventory_index(s.take(b), id) == first_inventory_index(s.take(a), id),
    decreases b - a,
{
    if b > a {
        lemma_first_inventory_prefix(s, a, b - 1, id);
        assert(s.take(b).drop_last() == s.take(b - 1));
    }
}

fn collect_gems(gems: &Vec<ItemInstanceGemModel>, id: u128) -> (r: Vec<
    PersistedItemInstanceGemSnapshot,
>)
    ensures
        r@ == gem_snapshots(gems@, id),
{
    let mut out: Vec<PersistedItemInstanceGemSnapshot> = Vec::new();
    let n = gems.len();
    for k in 0..n
        invariant
            n == gems@.len(),
            out@ == gem_snapshots(gems@.take(k as int), id),
    {
        assert(gems@.take(k + 1).drop_last() == gems@.take(k as int));
        if gems[k].item_instance_id == id {
            out.push(
                PersistedItemInstanceGemSnapshot {
                    slot_index: gems[k].slot_index,
                    gem_instance_id: gems[k].gem_instance_id,
                },
            );
        }
    }
    assert(gems@.take(n as int) == gems@);
    out
}

fn instance_snapshot(
    instances: &Vec<ItemInstanceModel>,
    k: usize,
    items: &Vec<ItemModel>,
    gems: &Vec<ItemInstanceGemModel>,
) -> (r: PersistedItemInstanceSnapshot)
    requires
        k < instances@.len(),
        instances_cataloged(instances@, items@),
    ensures
        r@ == expected_instance(instances@, k as int, items@, gems@),
{
    let inst = &instances[k];
    let ghost kk = k as int;
    assert(last_item_index(items@, instances@[kk].item_id) >= 0);
    let idx = match find_last_item(items, inst.item_id) {
        Some(i) => i,
        None => {
            assert(false);
            0
        },
    };
    let item = &items[idx];
    let item_gems = match find_first_instance(instances, k, inst.id) {
        Some(_) => Vec::new(),
        None => collect_gems(gems, inst.id),
    };
    PersistedItemInstanceSnapshot {
        id: inst.id,
        item_id: inst.item_id,
        item_slug: item.slug.clone(),
        inventory_type: owned(item.inventory_type.as_str()),
        refinement: inst.refinement,
        bonus_gem_slots: inst.bonus_gem_slots,
        attributes_json: json_value_to_string(&inst.attributes),
        in_shared_storage: inst.in_shared_storage,
        in_trade: inst.in_trade,
        gems: item_gems,
    }
}

fn slot_snapshot(
    slot: &InventoryItemModel,
    items: &Vec<ItemModel>,
    instances: &Vec<ItemInstanceModel>,
    inventories: &Vec<InventoryModel>,
) -> (r: PersistedInventoryItemSnapshot)
    requires
        last_inventory_index(inventories@, slot.inventory_id) >= 0,
        instances_cataloged(instances@, items@),
    ensures
        r@ == expected_slot(*slot, items@, instances@, inventories@),
{
    let inv_idx = match find_last_inventory(inventories, slot.inventory_id) {
        Some(i) => i,
        None => {
            assert(false);
            0
        },
    };
    let direct: Option<String> = match slot.item_id {
        Some(id) => match find_last_item(items, id) {
            Some(i) => Some(items[i].slug.clone()),
            None => None,
        },
        None => None,
    };
    let item_slug: Option<String> = match direct {
        Some(s) => Some(s),
        None => match slot.item_instance_id {
            Some(iid) => match find_first_instance(instances, instances.len(), iid) {
                Some(f) => {
                    assert(instances@.take(instances@.len() as int) == instances@);
                    let ghost ff = f as int;
                    assert(last_item_index(items@, instances@[ff].item_id) >= 0);
                    match find_last_item(items, instances[f].item_id) {
                        Some(i) => Some(items[i].slug.clone()),
                        None => {
                            assert(false);
                            None
                        },
                    }
                },
                None => {
                    assert(instances@.take(instances@.len() as int) == instances@);
                    None
                },
            },
            None => None,
        },
    };
    PersistedInventoryItemSnapshot {
        id: slot.id,
        inventory_id: slot.inventory_id,
        inventory_type: owned(inventories[inv_idx].inventory_type.as_str()),
        slot_index: slot.slot_index,
        quantity: slot.quantity,
        item_instance_id: slot.item_instance_id,
        item_id: slot.item_id,
        item_slug,
    }
}

fn inventory_slots(
    slots: &Vec<InventoryItemModel>,
    inventory_id: u128,
    items: &Vec<ItemModel>,
    instances: &Vec<ItemInstanceModel>,
    inventories: &Vec<InventoryModel>,
) -> (r: Vec<PersistedInventoryItemSnapshot>)
    requires
        slots_placed(slots@, inventories@),
        instances_cataloged(instances@, items@),
    ensures
        r@.map_values(|x: PersistedInventoryItemSnapshot| x@) == slots_of_inventory(
            slots@,
            inventory_id,
            items@,
            instances@,
            inventories@,
        ),
{
    let mut out: Vec<PersistedInventoryItemSnapshot> = Vec::new();
    let n = slots.len();
    for k in 0..n
        invariant
            n == slots@.len(),
            slots_placed(slots@, inventories@),
            instances_cataloged(instances@, items@),
            out@.map_values(|x: PersistedInventoryItemSnapshot| x@) == slots_of_inventory(
                slots@.take(k as int),
                inventory_id,
                items@,
                instances@,
                inventories@,
            ),
    {
        assert(slots@.take(k + 1).drop_last() == slots@.take(k as int));
        let ghost before = out@;
        if slots[k].inventory_id == inventory_id {
            let ghost kk = k as int;
            assert(last_inventory_index(inventories@, slots@[kk].inventory_id) >= 0);
            let snap = slot_snapshot(&slots[k], items, instances, inventories);
            out.push(snap);
            assert(out@.map_values(|x: PersistedInventoryItemSnapshot| x@) == before.map_values(
                |x: PersistedInventoryItemSnapshot| x@,
            ).push(snap@));
        }
    }
    assert(slots@.take(n as int) == slots@);
    out
}

/// Whether `r` is the snapshot of `row` with its inventories, their slots, its equipment,
/// the item instances, their gems and the catalog rows that were loaded: see
/// `map_playable_character_snapshot`.
pub open spec fn snapshot_of(
    r: PlayableCharacterSnapshot,
    row: PlayableCharacterRow,
    inventories: Seq<InventoryModel>,
    inventory_items: Seq<InventoryItemModel>,
    equipment: Seq<EquipmentModel>,
    item_instances: Seq<ItemInstanceModel>,
    item_instance_gems: Seq<ItemInstanceGemModel>,
    items: Seq<ItemModel>,
) -> bool {
    &&& r.account_id == row.account_id
    &&& r.character_id == row.character_id
    &&& r.name == row.name
    &&& r.base_character_slug == row.base_character_slug
    &&& r.current_class_slug == row.current_class_slug
    &&& r.level == row.level
    &&& r.experience == row.experience
    &&& r.credits == row.credits
    &&& r.skill_unlocks == (CharacterSkillUnlocks {
        beginner: row.beginner_skill_unlocked,
        intermediate: row.intermediate_skill_unlocked,
    })
    &&& r.item_instances@.len() == item_instances.len()
    &&& forall|k: int|
        0 <= k < item_instances.len() ==> (#[trigger] r.item_instances@[k])@ == expected_instance(
            item_instances,
            k,
            items,
            item_instance_gems,
        )
    &&& r.inventories@.len() == inventories.len()
    &&& forall|p: int|
        0 <= p < inventories.len() ==> (#[trigger] r.inventories@[p])@ == expected_inventory(
            inventories,
            p,
            inventory_items,
            items,
            item_instances,
        )
    &&& r.equipment@.len() == equipment.len()
    &&& forall|q: int|
        0 <= q < equipment.len() ==> (#[trigger] r.equipment@[q]).slot@ == equipment[q].slot.name()
            && r.equipment@[q].item_instance_id == equipment[q].item_instance_id
}

/// Each item instance of a snapshot carries the stored fields of the instance it is built
/// from, in the order they were loaded: its id, its catalog row, its refinement, its bonus
/// sockets and its shared-storage and trade flags.
pub proof fn lemma_snapshot_keeps_instance_fields(
    r: PlayableCharacterSnapshot,
    row: PlayableCharacterRow,
    inventories: Seq<InventoryModel>,
    inventory_items: Seq<InventoryItemModel>,
    equipment: Seq<EquipmentModel>,
    item_instances: Seq<ItemInstanceModel>,
    item_instance_gems: Seq<ItemInstanceGemModel>,
    items: Seq<ItemModel>,
)
    requires
        snapshot_of(r, row, inventories, inventory_items, equipment, item_instances, item_instance_gems, items),
    ensures
        r.item_instances@.len() == item_instances.len(),
        forall|k: int|
            0 <= k < item_instances.len() ==> {
                let s = #[trigger] r.item_instances@[k];
                &&& s.id == item_instances[k].id
                &&& s.item_id == item_instances[k].item_id
                &&& s.refinement == item_instances[k].refinement
                &&& s.bonus_gem_slots == item_instances[k].bonus_gem_slots
                &&& s.in_shared_storage == item_instances[k].in_shared_storage
                &&& s.in_trade == item_instances[k].in_trade
            },
{
    assert forall|k: int| 0 <= k < item_instances.len() implies {
        let s = #[trigger] r.item_instances@[k];
        &&& s.id == item_instances[k].id
        &&& s.item_id == item_instances[k].item_id
        &&& s.refinement == item_instances[k].refinement
        &&& s.bonus_gem_slots == item_instances[k].bonus_gem_slots
        &&& s.in_shared_storage == item_instances[k].in_shared_storage
        &&& s.in_trade == item_instances[k].in_trade
    } by {
        assert(r.item_instances@[k]@ == expected_instance(item_instances, k, items, item_instance_gems));
    }
}

/// The last catalog row with an id, if any: no later row has that id.
pub proof fn lemma_last_item_index(items: Seq<ItemModel>, id: u128)
    ensures
        last_item_index(items, id) == -1 ==> forall|j: int| 0 <= j < items.len() ==> #[trigger] items[j].id != id,
        last_item_index(items, id) >= 0 ==> {
            let i = last_item_index(items, id);
            &&& i < items.len()
            &&& items[i].id == id
            &&& forall|j: int| i < j < items.len() ==> #[trigger] items[j].id != id
        },
    decreases items.len(),
{
    if items.len() > 0 && items.last().id != id {
        lemma_last_item_index(items.drop_last(), id);
        assert forall|j: int| 0 <= j < items.len() - 1 implies #[trigger] items[j].id == items.drop_last()[j].id by {}
    }
}

/// Each item instance of a snapshot, when every loaded instance has a loaded catalog row,
/// shows the slug and inventory kind of the last row loaded for its catalog id.
pub proof fn lemma_snapshot_slugs_come_from_catalog(
    r: PlayableCharacterSnapshot,
    row: PlayableCharacterRow,
    inventories: Seq<InventoryModel>,
    inventory_items: Seq<InventoryItemModel>,
    equipment: Seq<EquipmentModel>,
    item_instances: Seq<ItemInstanceModel>,
    item_instance_gems: Seq<ItemInstanceGemModel>,
    items: Seq<ItemModel>,
    k: int,
)
    requires
        snapshot_of(r, row, inventories, inventory_items, equipment, item_instances, item_instance_gems, items),
        instances_cataloged(item_instances, items),
        0 <= k < item_instances.len(),
    ensures
        exists|j: int|
            0 <= j < items.len() && #[trigger] items[j].id == item_instances[k].item_id && (forall|j2: int|
                j < j2 < items.len() ==> items[j2].id != item_instances[k].item_id)
                && r.item_instances@[k].item_slug@ == items[j].slug@
                && r.item_instances@[k].inventory_type@ == items[j].inventory_type.name(),
{
    lemma_last_item_index(items, item_instances[k].item_id);
    assert(last_item_index(items, item_instances[k].item_id) >= 0);
    assert(r.item_instances@[k]@ == expected_instance(item_instances, k, items, item_instance_gems));
    let j = last_item_index(items, item_instances[k].item_id);
    assert(items[j].id == item_instances[k].item_id);
}

/// Assembles the snapshot of a playable character from the rows loaded for it: its
/// inventories with their occupied slots grouped per inventory, its worn equipment, and
/// its item instances (those referenced by slots and equipment, then the gems socketed
/// into them) with their catalog slug, kind of inventory and gems.
///
/// Every item instance must refer to a loaded catalog row and every slot to a loaded
/// inventory. Where an id was loaded twice, the catalog row and inventory found for it are
/// the last ones; the gems of an instance and the slots of an inventory go with the first.
pub fn map_playable_character_snapshot(
    row: PlayableCharacterRow,
    inventories: Vec<InventoryModel>,
    inventory_items: Vec<InventoryItemModel>,
    equipment: Vec<EquipmentModel>,
    item_instances: Vec<ItemInstanceModel>,
    item_instance_gems: Vec<ItemInstanceGemModel>,
    items: Vec<ItemModel>,
) -> (r: PlayableCharacterSnapshot)
    requires
        instances_cataloged(item_instances@, items@),
        slots_placed(inventory_items@, inventories@),
    ensures
        r.account_id == row.account_id,
        r.character_id == row.character_id,
        r.name == row.name,
        r.base_character_slug == row.base_character_slug,
        r.current_class_slug == row.current_class_slug,
        r.level == row.level,
        r.experience == row.experience,
        r.credits == row.credits,
        r.skill_unlocks == (CharacterSkillUnlocks {
            beginner: row.beginner_skill_unlocked,
            intermediate: row.intermediate_skill_unlocked,
        }),
        r.item_instances@.len() == item_instances@.len(),
        forall|k: int|
            0 <= k < item_instances@.len() ==> (#[trigger] r.item_instances@[k])@
                == expected_instance(item_instances@, k, items@, item_instance_gems@),
        r.inventories@.len() == inventories@.len(),
        forall|p: int|
            0 <= p < inventories@.len() ==> (#[trigger] r.inventories@[p])@ == expected_inventory(
                inventories@,
                p,
                inventory_items@,
                items@,
                item_instances@,
            ),
        r.equipment@.len() == equipment@.len(),
        forall|q: int|
            0 <= q < equipment@.len() ==> (#[trigger] r.equipment@[q]).slot@
                == equipment@[q].slot.name() && r.equipment@[q].item_instance_id
                == equipment@[q].item_instance_id,
        snapshot_of(
            r,
            row,
            inventories@,
            inventory_items@,
            equipment@,
            item_instances@,
            item_instance_gems@,
            items@,
        ),
{
    let mut instance_snapshots: Vec<PersistedItemInstanceSnapshot> = Vec::new();
    let n_inst = item_instances.len();
    for k in 0..n_inst
        invariant
            n_inst == item_instances@.len(),
            instances_cataloged(item_instances@, items@),
            instance_snapshots@.len() == k,
            forall|j: int|
                0 <= j < k ==> (#[trigger] instance_snapshots@[j])@ == expected_instance(
                    item_instances@,
                    j,
                    items@,
                    item_instance_gems@,
                ),
    {
        let snap = instance_snapshot(&item_instances, k, &items, &item_instance_gems);
        instance_snapshots.push(snap);
    }

    let mut inventory_snapshots: Vec<PersistedInventorySnapshot> = Vec::new();
    let n_inv = inventories.len();
    for p in 0..n_inv
        invariant
            n_inv == inventories@.len(),
            instances_cataloged(item_instances@, items@),
            slots_placed(inventory_items@, inventories@),
            inventory_snapshots@.len() == p,
            forall|j: int|
                0 <= j < p ==> (#[trigger] inventory_snapshots@[j])@ == expected_inventory(
                    inventories@,
                    j,
                    inventory_items@,
                    items@,
                    item_instances@,
                ),
    {
        let inv = &inventories[p];
        let slots = match find_first_inventory(&inventories, p, inv.id) {
            Some(_) => {
                let v: Vec<PersistedInventoryItemSnapshot> = Vec::new();
                assert(v@.map_values(|x: PersistedInventoryItemSnapshot| x@) =~= Seq::empty());
                v
            },
            None => inventory_slots(&inventory_items, inv.id, &items, &item_instances, &inventories),
        };
        let snap = PersistedInventorySnapshot {
            id: inv.id,
            inventory_type: owned(inv.inventory_type.as_str()),
            capacity: inv.capacity,
            items: slots,
        };
        inventory_snapshots.push(snap);
    }

    let mut equipment_snapshots: Vec<PersistedEquipmentSnapshot> = Vec::new();
    let n_eq = equipment.len();
    for q in 0..n_eq
        invariant
            n_eq == equipment@.len(),
            equipment_snapshots@.len() == q,
            forall|j: int|
                0 <= j < q ==> (#[trigger] equipment_snapshots@[j]).slot@ == equipment@[j].slot.name()
                    && equipment_snapshots@[j].item_instance_id == equipment@[j].item_instance_id,
    {
        let e = &equipment[q];
        equipment_snapshots.push(
            PersistedEquipmentSnapshot {
                slot: owned(e.slot.as_str()),
                item_instance_id: e.item_instance_id,
            },
        );
    }

    PlayableCharacterSnapshot {
        account_id: row.account_id,
        character_id: row.character_id,
        name: row.name,
        base_character_slug: row.base_character_slug,
        current_class_slug: row.current_class_slug,
        level: row.level,
        experience: row.experience,
        credits: row.credits,
        skill_unlocks: CharacterSkillUnlocks {
            beginner: row.beginner_skill_unlocked,
            intermediate: row.intermediate_skill_unlocked,
        },
        inventories: inventory_snapshots,
        equipment: equipment_snapshots,
        item_instances: instance_snapshots,
    }
}

} // verus!
