//! Decisions of the item instance service: ownership, attributes and refinement.
use vstd::prelude::*;
use crate::equipment::result_view;
use crate::error::{AppError, AppErrorView};
use crate::models::ItemInstanceModel;
use crate::snapshot::PersistedEquipmentSnapshot;
use crate::text::owned;

verus! {

/// A JSON value, carried through to the store as it is.
#[verifier::external_type_specification]
#[verifier::external_body]
pub struct ExJsonValue(serde_json::Value);

/// Whether `serde_json::from_str` reads `text` as a JSON value. Fixed by the text.
pub uninterp spec fn json_parses(text: Seq<char>) -> bool;

/// The JSON value `serde_json::from_str` reads from `text` where it reads one. Fixed by
/// the text.
pub uninterp spec fn json_value_of(text: Seq<char>) -> serde_json::Value;

/// `serde_json::from_str::<serde_json::Value>`. Claimed: it succeeds exactly when
/// `json_parses` holds of the text, and the value read is the one named by
/// `json_value_of`.
#[verifier::external_body]
pub(crate) fn parse_json(text: &str) -> (r: Result<serde_json::Value, ()>)
    ensures
        r is Ok <==> json_parses(text@),
        r matches Ok(v) ==> v == json_value_of(text@),
{
    serde_json::from_str::<serde_json::Value>(text).map_err(|_| ())
}

/// Checks that an item instance belongs to the character acting on it.
pub fn check_instance_owner(instance: &ItemInstanceModel, character_id: u128) -> (r: Result<
    (),
    AppError,
>)
    ensures
        instance.owner_character_id == Some(character_id) ==> r is Ok,
        instance.owner_character_id != Some(character_id) ==> (r matches Err(e) && e@
            == AppErrorView::PermissionDenied(
            "Item instance does not belong to this character"@,
        )),
{
    let owned_by_character = match instance.owner_character_id {
        Some(owner) => owner == character_id,
        None => false,
    };
    if !owned_by_character {
        return Err(
            AppError::PermissionDenied(owned("Item instance does not belong to this character")),
        );
    }
    Ok(())
}

/// Reads the attributes sent for an item instance; text that is not JSON is a bad request.
pub fn parse_item_attributes(attributes_json: &str) -> (r: Result<serde_json::Value, AppError>)
    ensures
        r is Ok <==> json_parses(attributes_json@),
        r matches Ok(v) ==> v == json_value_of(attributes_json@),
        r matches Err(e) ==> e@ == AppErrorView::BadRequest("Invalid item instance attributes"@),
{
    match parse_json(attributes_json) {
        Ok(v) => Ok(v),
        Err(_) => Err(AppError::BadRequest(owned("Invalid item instance attributes"))),
    }
}

/// Whether the instance is worn in one of the equipment slots.
pub open spec fn is_worn(equipment: Seq<PersistedEquipmentSnapshot>, item_instance_id: u128) -> bool {
    exists|i: int| 0 <= i < equipment.len() && #[trigger] equipment[i].item_instance_id == item_instance_id
}

/// The refinement level stored for a request: within 0..=7.
pub open spec fn clamped_refinement(refinement: i16) -> i16 {
    if refinement < 0 {
        0
    } else if refinement > 7 {
        7
    } else {
        refinement
    }
}

/// What a refinement update gives: the clamped level for a worn instance, a refusal
/// otherwise.
pub open spec fn refinement_outcome(
    equipment: Seq<PersistedEquipmentSnapshot>,
    item_instance_id: u128,
    refinement: i16,
) -> Result<i16, AppErrorView> {
    if is_worn(equipment, item_instance_id) {
        Ok(clamped_refinement(refinement))
    } else {
        Err(AppErrorView::BadRequest("Only equipped items can be refined"@))
    }
}

/// An instance worn in any equipment slot, first, last or in between, is refined, to the
/// requested level when it lies in 0..=7 and to the nearest end of that range otherwise;
/// an instance that no slot holds is refused.
pub proof fn lemma_worn_instances_are_refined(
    equipment: Seq<PersistedEquipmentSnapshot>,
    item_instance_id: u128,
    refinement: i16,
    i: int,
)
    ensures
        0 <= i < equipment.len() && equipment[i].item_instance_id == item_instance_id ==> (
        refinement_outcome(equipment, item_instance_id, refinement) matches Ok(v) && 0 <= v <= 7
            && (0 <= refinement <= 7 ==> v == refinement) && (refinement < 0 ==> v == 0) && (
        refinement > 7 ==> v == 7)),
        (forall|j: int| 0 <= j < equipment.len() ==> equipment[j].item_instance_id != item_instance_id)
            ==> refinement_outcome(equipment, item_instance_id, refinement) == Err::<i16, AppErrorView>(
            AppErrorView::BadRequest("Only equipped items can be refined"@),
        ),
{
}

/// Decides a refinement update: only a worn instance is refined, and the level stored is
/// the requested one kept within 0..=7.
pub fn refinement_update(
    equipment: &Vec<PersistedEquipmentSnapshot>,
    item_instance_id: u128,
    refinement: i16,
) -> (r: Result<i16, AppError>)
    ensures
        result_view(r) == refinement_outcome(equipment@, item_instance_id, refinement),
        is_worn(equipment@, item_instance_id) ==> (r matches Ok(v) && v == clamped_refinement(
            refinement,
        )),
        !is_worn(equipment@, item_instance_id) ==> (r matches Err(e) && e@
            == AppErrorView::BadRequest("Only equipped items can be refined"@)),
{
    let n = equipment.len();
    let mut is_equipped = false;
    for i in 0..n
        invariant
            n == equipment@.len(),
            is_equipped <==> exists|j: int| 0 <= j < i && #[trigger] equipment@[j].item_instance_id == item_instance_id,
    {
        if equipment[i].item_instance_id == item_instance_id {
            is_equipped = true;
        }
    }
    if !is_equipped {
        return Err(AppError::BadRequest(owned("Only equipped items can be refined")));
    }
    let v: i16 = if refinement < 0 {
        0
    } else if refinement > 7 {
        7
    } else {
        refinement
    };
    Ok(v)
}

} // verus!
