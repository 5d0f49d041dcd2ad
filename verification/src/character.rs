//! Decisions of the character service: creation limits, ownership, skill tiers, and the
//! ids a character snapshot needs loaded.
use vstd::prelude::*;
use crate::error::{AppError, AppErrorView, RepositoryError};
use crate::equipment::result_view;
use crate::ids::sorted_unique_ids;
use crate::models::{
    CharacterSkillUnlockTier, EquipmentModel, InventoryItemModel, InventoryModel, InventoryTypeModel,
    ItemInstanceGemModel, ItemInstanceModel, ItemModel, PlayableCharacterRow,
    PlayerCharacterModel,
};
use crate::snapshot::{
    instances_cataloged, last_inventory_index, last_item_index, slots_placed,
};
use crate::text::{decimal_text, owned, push_i64, push_str};

verus! {

/// Checks the character count of an account against its limit; a failed count is an
/// internal error.
pub fn check_character_limit(current: Result<i64, RepositoryError>, max_characters: i32) -> (r:
    Result<(), AppError>)
    ensures
        match current {
            Err(_) => r matches Err(e) && e@ == AppErrorView::Internal("Unknown Database Error"@),
            Ok(c) => if c >= max_characters {
                r matches Err(e) && e@ == AppErrorView::BadRequest(
                    "Character limit reached for this account"@,
                )
            } else {
                r is Ok
            },
        },
{
    let current = match current {
        Ok(c) => c,
        Err(_) => {
            return Err(AppError::Internal(owned("Unknown Database Error")));
        },
    };
    if current >= max_characters as i64 {
        return Err(AppError::BadRequest(owned("Character limit reached for this account")));
    }
    Ok(())
}

/// The characters of an account; a failed lookup is an internal error.
pub fn characters_or_internal(found: Result<Vec<PlayerCharacterModel>, RepositoryError>) -> (r:
    Result<Vec<PlayerCharacterModel>, AppError>)
    ensures
        match found {
            Ok(v) => r matches Ok(v2) && v2@ == v@,
            Err(_) => r matches Err(e) && e@ == AppErrorView::Internal("DB error"@),
        },
{
    match found {
        Ok(v) => Ok(v),
        Err(_) => Err(AppError::Internal(owned("DB error"))),
    }
}

/// Checks that the character that was looked up belongs to `account_id`.
pub fn check_ownership(found: Result<PlayerCharacterModel, RepositoryError>, account_id: u128) -> (r:
    Result<(), AppError>)
    ensures
        match found {
            Err(_) => r matches Err(e) && e@ == AppErrorView::Unauthorized(
                "Unable to fech character data"@,
            ),
            Ok(c) => if c.account_id != account_id {
                r matches Err(e) && e@ == AppErrorView::PermissionDenied(
                    "Character does not belong to this account"@,
                )
            } else {
                r is Ok
            },
        },
{
    let character = match found {
        Ok(c) => c,
        Err(_) => {
            return Err(AppError::Unauthorized(owned("Unable to fech character data")));
        },
    };
    if character.account_id != account_id {
        return Err(AppError::PermissionDenied(owned("Character does not belong to this account")));
    }
    Ok(())
}

/// The playable character that was looked up, if it belongs to `account_id`.
pub fn playable_character_for(
    found: Result<PlayableCharacterRow, RepositoryError>,
    account_id: u128,
) -> (r: Result<PlayableCharacterRow, AppError>)
    ensures
        match found {
            Err(_) => r matches Err(e) && e@ == AppErrorView::Unauthorized(
                "Unable to fetch character data"@,
            ),
            Ok(row) => if row.account_id != account_id {
                r matches Err(e) && e@ == AppErrorView::PermissionDenied(
                    "Character does not belong to this account"@,
                )
            } else {
                r matches Ok(row2) && row2 == row
            },
        },
{
    let row = match found {
        Ok(row) => row,
        Err(_) => {
            return Err(AppError::Unauthorized(owned("Unable to fetch character data")));
        },
    };
    if row.account_id != account_id {
        return Err(AppError::PermissionDenied(owned("Character does not belong to this account")));
    }
    Ok(row)
}

/// The level a character needs to unlock a skill tier.
pub open spec fn tier_level(tier: CharacterSkillUnlockTier) -> i16 {
    match tier {
        CharacterSkillUnlockTier::Beginner => 15,
        CharacterSkillUnlockTier::Intermediate => 35,
    }
}

/// Whether the character has already unlocked a skill tier.
pub open spec fn tier_unlocked(row: PlayableCharacterRow, tier: CharacterSkillUnlockTier) -> bool {
    match tier {
        CharacterSkillUnlockTier::Beginner => row.beginner_skill_unlocked,
        CharacterSkillUnlockTier::Intermediate => row.intermediate_skill_unlocked,
    }
}

/// The level a character needs to unlock a skill tier: 15 for the beginner tier, 35 for
/// the intermediate tier.
pub fn required_level(tier: CharacterSkillUnlockTier) -> (r: i16)
    ensures
        r == tier_level(tier),
{
    match tier {
        CharacterSkillUnlockTier::Beginner => 15,
        CharacterSkillUnlockTier::Intermediate => 35,
    }
}

/// What checking a skill tier unlock gives: refused when the tier is already unlocked,
/// then when the character is below the tier's level.
pub open spec fn skill_unlock_outcome(row: PlayableCharacterRow, tier: CharacterSkillUnlockTier) -> Result<
    (),
    AppErrorView,
> {
    if tier_unlocked(row, tier) {
        Err(AppErrorView::BadRequest("Skill tier already unlocked for this character"@))
    } else if row.level < tier_level(tier) {
        Err(
            AppErrorView::BadRequest(
                "Character level "@ + decimal_text(row.level as int) + " is below required level "@
                    + decimal_text(tier_level(tier) as int),
            ),
        )
    } else {
        Ok(())
    }
}

/// Each tier unlocks at most once, and only from its level on: the beginner tier is
/// granted exactly to a character of level 15 or more whose beginner flag is not yet set,
/// the intermediate tier exactly to one of level 35 or more whose intermediate flag is not
/// yet set; a set flag always gets the "already unlocked" refusal.
pub proof fn lemma_tier_unlocks_once(row: PlayableCharacterRow)
    ensures
        skill_unlock_outcome(row, CharacterSkillUnlockTier::Beginner) is Ok
            <==> !row.beginner_skill_unlocked && row.level >= 15,
        skill_unlock_outcome(row, CharacterSkillUnlockTier::Intermediate) is Ok
            <==> !row.intermediate_skill_unlocked && row.level >= 35,
        row.beginner_skill_unlocked ==> skill_unlock_outcome(row, CharacterSkillUnlockTier::Beginner)
            == Err::<(), AppErrorView>(
            AppErrorView::BadRequest("Skill tier already unlocked for this character"@),
        ),
        row.intermediate_skill_unlocked ==> skill_unlock_outcome(
            row,
            CharacterSkillUnlockTier::Intermediate,
        ) == Err::<(), AppErrorView>(
            AppErrorView::BadRequest("Skill tier already unlocked for this character"@),
        ),
{
}

/// Checks that a character may unlock a skill tier: it is not unlocked yet, and the
/// character has reached the tier's level. A tier unlocks at most once.
pub fn check_skill_unlock(row: &PlayableCharacterRow, tier: CharacterSkillUnlockTier) -> (r: Result<
    (),
    AppError,
>)
    ensures
        result_view(r) == skill_unlock_outcome(*row, tier),
        r is Ok <==> !tier_unlocked(*row, tier) && row.level >= tier_level(tier),
        tier_unlocked(*row, tier) ==> (r matches Err(e) && e@ == AppErrorView::BadRequest(
            "Skill tier already unlocked for this character"@,
        )),
        !tier_unlocked(*row, tier) && row.level < tier_level(tier) ==> (r matches Err(e) && e@
            == AppErrorView::BadRequest(
            "Character level "@ + decimal_text(row.level as int) + " is below required level "@
                + decimal_text(tier_level(tier) as int),
        )),
{
    let already_unlocked = match tier {
        CharacterSkillUnlockTier::Beginner => row.beginner_skill_unlocked,
        CharacterSkillUnlockTier::Intermediate => row.intermediate_skill_unlocked,
    };
    if already_unlocked {
        return Err(AppError::BadRequest(owned("Skill tier already unlocked for this character")));
    }
    let required = required_level(tier);
    if row.level < required {
        let mut msg = owned("Character level ");
        push_i64(&mut msg, row.level as i64);
        push_str(&mut msg, " is below required level ");
        push_i64(&mut msg, required as i64);
        return Err(AppError::BadRequest(msg));
    }
    Ok(())
}

/// The ids of the inventories, in order.
pub fn inventory_ids(inventories: &Vec<InventoryModel>) -> (r: Vec<u128>)
    ensures
        r@.len() == inventories@.len(),
        forall|i: int| 0 <= i < r@.len() ==> r@[i] == #[trigger] inventories@[i].id,
{
    let mut out: Vec<u128> = Vec::new();
    let n = inventories.len();
    for i in 0..n
        invariant
            n == inventories@.len(),
            out@.len() == i,
            forall|j: int| 0 <= j < i ==> out@[j] == #[trigger] inventories@[j].id,
    {
        out.push(inventories[i].id);
    }
    out
}

/// The ids of the item instances, in order.
pub fn item_instance_ids(instances: &Vec<ItemInstanceModel>) -> (r: Vec<u128>)
    ensures
        r@.len() == instances@.len(),
        forall|i: int| 0 <= i < r@.len() ==> r@[i] == #[trigger] instances@[i].id,
{
    let mut out: Vec<u128> = Vec::new();
    let n = instances.len();
    for i in 0..n
        invariant
            n == instances@.len(),
            out@.len() == i,
            forall|j: int| 0 <= j < i ==> out@[j] == #[trigger] instances@[j].id,
    {
        out.push(instances[i].id);
    }
    out
}

/// Whether `id` is an item instance held in one of the slots or worn.
pub open spec fn is_referenced_instance(
    slots: Seq<InventoryItemModel>,
    equipment: Seq<EquipmentModel>,
    id: u128,
) -> bool {
    (exists|i: int| 0 <= i < slots.len() && slots[i].item_instance_id == Some(id)) || (exists|
        i: int,
    | 0 <= i < equipment.len() && equipment[i].item_instance_id == id)
}

/// The item instances to load for a character: those held in its slots and those it
/// wears, each once, in increasing order.
pub fn referenced_item_instance_ids(
    slots: &Vec<InventoryItemModel>,
    equipment: &Vec<EquipmentModel>,
) -> (r: Vec<u128>)
    ensures
        crate::ids::strictly_increasing(r@),
        forall|x: u128| r@.contains(x) <==> is_referenced_instance(slots@, equipment@, x),
{
    let mut ids: Vec<u128> = Vec::new();
    let n = slots.len();
    for i in 0..n
        invariant
            n == slots@.len(),
            forall|x: u128| ids@.contains(x) <==> exists|j: int| 0 <= j < i && slots@[j].item_instance_id == Some(x),
    {
        let ghost before = ids@;
        if let Some(id) = slots[i].item_instance_id {
            ids.push(id);
            proof {
                lemma_push_contains(before, id);
            }
        }
        assert forall|x: u128| ids@.contains(x) <==> exists|j: int| 0 <= j < i + 1 && slots@[j].item_instance_id == Some(x) by {
            if exists|j: int| 0 <= j < i + 1 && slots@[j].item_instance_id == Some(x) {
                let j = choose|j: int| 0 <= j < i + 1 && slots@[j].item_instance_id == Some(x);
                if j < i {
                    assert(before.contains(x));
                }
            }
        }
    }
    let m = equipment.len();
    for i in 0..m
        invariant
            n == slots@.len(),
            m == equipment@.len(),
            forall|x: u128| ids@.contains(x) <==> (exists|j: int| 0 <= j < n && slots@[j].item_instance_id == Some(x)) || (exists|j: int| 0 <= j < i && equipment@[j].item_instance_id == x),
    {
        let ghost before = ids@;
        let id = equipment[i].item_instance_id;
        ids.push(id);
        proof {
            lemma_push_contains(before, id);
        }
        assert forall|x: u128| ids@.contains(x) <==> (exists|j: int| 0 <= j < n && slots@[j].item_instance_id == Some(x)) || (exists|j: int| 0 <= j < i + 1 && equipment@[j].item_instance_id == x) by {
            if exists|j: int| 0 <= j < i + 1 && equipment@[j].item_instance_id == x {
                let j = choose|j: int| 0 <= j < i + 1 && equipment@[j].item_instance_id == x;
                if j < i {
                    assert(before.contains(x));
                }
            }
        }
    }
    sorted_unique_ids(&ids)
}

/// The gem instances to load: those socketed into the loaded instances, each once, in
/// increasing order.
pub fn gem_instance_ids(gems: &Vec<ItemInstanceGemModel>) -> (r: Vec<u128>)
    ensures
        crate::ids::strictly_increasing(r@),
        forall|x: u128| r@.contains(x) <==> exists|j: int| 0 <= j < gems@.len() && gems@[j].gem_instance_id == x,
{
    let mut ids: Vec<u128> = Vec::new();
    let n = gems.len();
    for i in 0..n
        invariant
            n == gems@.len(),
            forall|x: u128| ids@.contains(x) <==> exists|j: int| 0 <= j < i && gems@[j].gem_instance_id == x,
    {
        let ghost before = ids@;
        let id = gems[i].gem_instance_id;
        ids.push(id);
        proof {
            lemma_push_contains(before, id);
        }
        assert forall|x: u128| ids@.contains(x) <==> exists|j: int| 0 <= j < i + 1 && gems@[j].gem_instance_id == x by {
            if exists|j: int| 0 <= j < i + 1 && gems@[j].gem_instance_id == x {
                let j = choose|j: int| 0 <= j < i + 1 && gems@[j].gem_instance_id == x;
                if j < i {
                    assert(before.contains(x));
                }
            }
        }
    }
    sorted_unique_ids(&ids)
}

/// Whether `id` is a catalog item that a slot stacks or that an instance is made of.
pub open spec fn is_referenced_item(
    slots: Seq<InventoryItemModel>,
    instances: Seq<ItemInstanceModel>,
    id: u128,
) -> bool {
    (exists|i: int| 0 <= i < slots.len() && slots[i].item_id == Some(id)) || (exists|i: int|
        0 <= i < instances.len() && instances[i].item_id == id)
}

/// The catalog rows to load: those stacked in slots and those the loaded instances are
/// made of, each once, in increasing order.
pub fn referenced_item_ids(slots: &Vec<InventoryItemModel>, instances: &Vec<ItemInstanceModel>) -> (r:
    Vec<u128>)
    ensures
        crate::ids::strictly_increasing(r@),
        forall|x: u128| r@.contains(x) <==> is_referenced_item(slots@, instances@, x),
{
    let mut ids: Vec<u128> = Vec::new();
    let n = slots.len();
    for i in 0..n
        invariant
            n == slots@.len(),
            forall|x: u128| ids@.contains(x) <==> exists|j: int| 0 <= j < i && slots@[j].item_id == Some(x),
    {
        let ghost before = ids@;
        if let Some(id) = slots[i].item_id {
            ids.push(id);
            proof {
                lemma_push_contains(before, id);
            }
        }
        assert forall|x: u128| ids@.contains(x) <==> exists|j: int| 0 <= j < i + 1 && slots@[j].item_id == Some(x) by {
            if exists|j: int| 0 <= j < i + 1 && slots@[j].item_id == Some(x) {
                let j = choose|j: int| 0 <= j < i + 1 && slots@[j].item_id == Some(x);
                if j < i {
                    assert(before.contains(x));
                }
            }
        }
    }
    let m = instances.len();
    for i in 0..m
        invariant
            n == slots@.len(),
            m == instances@.len(),
            forall|x: u128| ids@.contains(x) <==> (exists|j: int| 0 <= j < n && slots@[j].item_id == Some(x)) || (exists|j: int| 0 <= j < i && instances@[j].item_id == x),
    {
        let ghost before = ids@;
        let id = instances[i].item_id;
        ids.push(id);
        proof {
            lemma_push_contains(before, id);
        }
        assert forall|x: u128| ids@.contains(x) <==> (exists|j: int| 0 <= j < n && slots@[j].item_id == Some(x)) || (exists|j: int| 0 <= j < i + 1 && instances@[j].item_id == x) by {
            if exists|j: int| 0 <= j < i + 1 && instances@[j].item_id == x {
                let j = choose|j: int| 0 <= j < i + 1 && instances@[j].item_id == x;
                if j < i {
                    assert(before.contains(x));
                }
            }
        }
    }
    sorted_unique_ids(&ids)
}

fn item_loaded(items: &Vec<ItemModel>, id: u128) -> (r: bool)
    ensures
        r == (last_item_index(items@, id) >= 0),
{
    let n = items.len();
    let mut found = false;
    for k in 0..n
        invariant
            n == items@.len(),
            found == (last_item_index(items@.take(k as int), id) >= 0),
    {
        assert(items@.take(k + 1).drop_last() == items@.take(k as int));
        if items[k].id == id {
            found = true;
        }
    }
    assert(items@.take(n as int) == items@);
    found
}

fn inventory_loaded(inventories: &Vec<InventoryModel>, id: u128) -> (r: bool)
    ensures
        r == (last_inventory_index(inventories@, id) >= 0),
{
    let n = inventories.len();
    let mut found = false;
    for k in 0..n
        invariant
            n == inventories@.len(),
            found == (last_inventory_index(inventories@.take(k as int), id) >= 0),
    {
        assert(inventories@.take(k + 1).drop_last() == inventories@.take(k as int));
        if inventories[k].id == id {
            found = true;
        }
    }
    assert(inventories@.take(n as int) == inventories@);
    found
}

/// Whether every loaded item instance refers to a loaded catalog row.
pub fn instances_are_cataloged(instances: &Vec<ItemInstanceModel>, items: &Vec<ItemModel>) -> (r:
    bool)
    ensures
        r == instances_cataloged(instances@, items@),
{
    let n = instances.len();
    for k in 0..n
        invariant
            n == instances@.len(),
            forall|j: int| 0 <= j < k ==> last_item_index(items@, #[trigger] instances@[j].item_id) >= 0,
    {
        if !item_loaded(items, instances[k].item_id) {
            return false;
        }
    }
    true
}

/// Whether every loaded slot belongs to a loaded inventory.
pub fn slots_are_placed(slots: &Vec<InventoryItemModel>, inventories: &Vec<InventoryModel>) -> (r:
    bool)
    ensures
        r == slots_placed(slots@, inventories@),
{
    let n = slots.len();
    for k in 0..n
        invariant
            n == slots@.len(),
            forall|j: int| 0 <= j < k ==> last_inventory_index(inventories@, #[trigger] slots@[j].inventory_id) >= 0,
    {
        if !inventory_loaded(inventories, slots[k].inventory_id) {
            return false;
        }
    }
    true
}

/// Appending a value adds exactly that value to what a sequence contains.
pub proof fn lemma_push_contains(s: Seq<u128>, v: u128)
    ensures
        forall|x: u128| #[trigger] s.push(v).contains(x) <==> s.contains(x) || x == v,
{
    assert forall|x: u128| #[trigger] s.push(v).contains(x) <==> s.contains(x) || x == v by {
        if s.contains(x) {
            let k = choose|k: int| 0 <= k < s.len() && s[k] == x;
            assert(s.push(v)[k] == x);
        }
        if x == v {
            assert(s.push(v)[s.len() as int] == v);
        }
        if s.push(v).contains(x) {
            let k = choose|k: int| 0 <= k < s.push(v).len() && s.push(v)[k] == x;
            if k < s.len() {
                assert(s[k] == x);
            }
        }
    }
}

/// The number of slots of each inventory a character starts with.
pub const STARTING_INVENTORY_CAPACITY: i16 = 56;

/// An inventory to create: its owner, its kind and its number of slots.
#[derive(Debug, Clone, Copy, PartialEq, Eq, Structural)]
pub struct NewInventory {
    pub character_id: u128,
    pub inventory_type: InventoryTypeModel,
    pub capacity: i16,
}

/// The kinds of inventory a character starts with, in order.
pub open spec fn starting_inventory_types() -> Seq<InventoryTypeModel> {
    seq![
        InventoryTypeModel::Equipment,
        InventoryTypeModel::Accessory,
        InventoryTypeModel::Consumable,
        InventoryTypeModel::Material,
        InventoryTypeModel::QuestItem,
        InventoryTypeModel::Special,
    ]
}

/// The inventories a new character starts with: one of each kind, each with
/// `STARTING_INVENTORY_CAPACITY` slots.
pub fn starting_inventories(character_id: u128) -> (r: Vec<NewInventory>)
    ensures
        r@.len() == 6,
        forall|i: int| 0 <= i < 6 ==> #[trigger] r@[i] == (NewInventory {
            character_id,
            inventory_type: starting_inventory_types()[i],
            capacity: STARTING_INVENTORY_CAPACITY,
        }),
{
    let kinds = [
        InventoryTypeModel::Equipment,
        InventoryTypeModel::Accessory,
        InventoryTypeModel::Consumable,
        InventoryTypeModel::Material,
        InventoryTypeModel::QuestItem,
        InventoryTypeModel::Special,
    ];
    let mut out: Vec<NewInventory> = Vec::new();
    for i in 0..6
        invariant
            kinds@ == starting_inventory_types(),
            out@.len() == i,
            forall|j: int| 0 <= j < i ==> #[trigger] out@[j] == (NewInventory {
                character_id,
                inventory_type: starting_inventory_types()[j],
                capacity: STARTING_INVENTORY_CAPACITY,
            }),
    {
        out.push(NewInventory { character_id, inventory_type: kinds[i], capacity: STARTING_INVENTORY_CAPACITY });
    }
    out
}

} // verus!
